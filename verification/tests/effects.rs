use juice::effects::{
    blink_on, effect_description, next_effect, prev_effect, step_effect, EFFECT_COUNT,
};

#[test]
fn stepping_forward_wraps_at_the_last_effect() {
    assert_eq!(next_effect(0), 1);
    assert_eq!(next_effect(9), 10);
    assert_eq!(next_effect(10), 0);
}

#[test]
fn stepping_backward_wraps_at_the_first_effect() {
    assert_eq!(prev_effect(0), 10);
    assert_eq!(prev_effect(1), 0);
    assert_eq!(prev_effect(10), 9);
}

#[test]
fn forward_then_backward_returns_to_the_start() {
    for idx in 0..EFFECT_COUNT {
        assert_eq!(prev_effect(next_effect(idx)), idx);
        assert_eq!(next_effect(prev_effect(idx)), idx);
    }
}

#[test]
fn step_effect_follows_the_pressed_buttons() {
    assert_eq!(step_effect(3, false, false), (3, false));
    assert_eq!(step_effect(3, true, false), (4, true));
    assert_eq!(step_effect(3, false, true), (2, true));
    // Both buttons in one frame cancel out but still reset the camera.
    assert_eq!(step_effect(3, true, true), (3, true));
    assert_eq!(step_effect(10, true, false), (0, true));
    assert_eq!(step_effect(0, false, true), (10, true));
}

#[test]
fn blink_shows_the_first_half_of_each_cycle() {
    assert!(blink_on(0));
    assert!(blink_on(15));
    assert!(!blink_on(16));
    assert!(!blink_on(31));
    assert!(blink_on(32));
    assert!(blink_on(32 + 15));
    assert!(!blink_on(32 + 16));
}

#[test]
fn every_effect_has_its_caption() {
    assert_eq!(effect_description(0), "> Tween modal bounds with Start");
    assert_eq!(effect_description(1), "> Toggle screen shake with Enter");
    assert_eq!(effect_description(2), "> Pan camera to click/tap");
    assert_eq!(effect_description(3), "> Animated repeating tiled background");
    assert_eq!(effect_description(4), "> Scrolling tiled background");
    assert_eq!(effect_description(5), "> Blinking UI indicator");
    assert_eq!(effect_description(6), "> Increased animation speed");
    assert_eq!(effect_description(7), "> Oscillating opacity");
    assert_eq!(effect_description(8), "> Color+alpha oscillation");
    assert_eq!(effect_description(9), "> Silhouette overlay");
    assert_eq!(effect_description(10), "> Vertical bounce animation");
    assert_eq!(effect_description(11), "");
}
