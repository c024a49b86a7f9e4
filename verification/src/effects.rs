//! Selection of the demo's visual effects.
//!
//! The demo shows one of eleven effects at a time. The gamepad steps the
//! selection forward or backward, wrapping at both ends; a small blinking
//! indicator and a one-line description accompany some effects. The
//! decisions are made here; the host engine only carries them out.

use vstd::arithmetic::div_mod::{lemma_mod_sub_multiples_vanish, lemma_small_mod};
use vstd::prelude::*;

verus! {

/// How many effects the demo cycles through.
pub const EFFECT_COUNT: usize = 11;

/// The effect shown after stepping forward once from `idx`, wrapping
/// from the last effect back to the first.
pub fn next_effect(idx: usize) -> (r: usize)
    requires
        idx < EFFECT_COUNT,
    ensures
        r == (idx + 1) % (EFFECT_COUNT as int),
        r < EFFECT_COUNT,
{
    proof {
        if idx + 1 < EFFECT_COUNT {
            lemma_small_mod((idx + 1) as nat, EFFECT_COUNT as nat);
        } else {
            lemma_small_mod(0nat, EFFECT_COUNT as nat);
            lemma_mod_sub_multiples_vanish(idx + 1, EFFECT_COUNT as int);
        }
    }
    (idx + 1) % EFFECT_COUNT
}

/// The effect shown after stepping backward once from `idx`, wrapping
/// from the first effect to the last.
pub fn prev_effect(idx: usize) -> (r: usize)
    requires
        idx < EFFECT_COUNT,
    ensures
        r == (idx + EFFECT_COUNT - 1) % (EFFECT_COUNT as int),
        r < EFFECT_COUNT,
{
    proof {
        if idx == 0 {
            lemma_small_mod((EFFECT_COUNT - 1) as nat, EFFECT_COUNT as nat);
        } else {
            lemma_small_mod((idx - 1) as nat, EFFECT_COUNT as nat);
            lemma_mod_sub_multiples_vanish(idx + EFFECT_COUNT - 1, EFFECT_COUNT as int);
        }
    }
    if idx == 0 {
        EFFECT_COUNT - 1
    } else {
        idx - 1
    }
}

/// The effect selected after one frame's worth of input: a forward step
/// when the right button was just pressed, then a backward step when the
/// left button was just pressed. Also reports whether the camera must be
/// reset, which the demo does on every selection change.
pub fn step_effect(idx: usize, right_pressed: bool, left_pressed: bool) -> (r: (usize, bool))
    requires
        idx < EFFECT_COUNT,
    ensures
        ({
            let after_right = if right_pressed {
                (idx + 1) % (EFFECT_COUNT as int)
            } else {
                idx as int
            };
            r.0 == if left_pressed {
                (after_right + EFFECT_COUNT - 1) % (EFFECT_COUNT as int)
            } else {
                after_right
            }
        }),
        r.0 < EFFECT_COUNT,
        r.1 == (right_pressed || left_pressed),
{
    let mut cur: usize = idx;
    if right_pressed {
        cur = next_effect(cur);
    }
    if left_pressed {
        cur = prev_effect(cur);
    }
    (cur, right_pressed || left_pressed)
}

/// Whether the blinking indicator is visible at tick `t`: it is shown for
/// the first sixteen ticks of every thirty-two-tick cycle and hidden for
/// the rest.
pub fn blink_on(t: u64) -> (r: bool)
    ensures
        r == (t % 32 < 16),
{
    t % 32 < 16
}

/// The one-line caption drawn under the effect with index `idx`; indices
/// beyond the last effect get an empty caption.
pub fn effect_description(idx: usize) -> (r: &'static str)
    ensures
        idx == 0 ==> r@ == "> Tween modal bounds with Start"@,
        idx == 1 ==> r@ == "> Toggle screen shake with Enter"@,
        idx == 2 ==> r@ == "> Pan camera to click/tap"@,
        idx == 3 ==> r@ == "> Animated repeating tiled background"@,
        idx == 4 ==> r@ == "> Scrolling tiled background"@,
        idx == 5 ==> r@ == "> Blinking UI indicator"@,
        idx == 6 ==> r@ == "> Increased animation speed"@,
        idx == 7 ==> r@ == "> Oscillating opacity"@,
        idx == 8 ==> r@ == "> Color+alpha oscillation"@,
        idx == 9 ==> r@ == "> Silhouette overlay"@,
        idx == 10 ==> r@ == "> Vertical bounce animation"@,
        idx >= EFFECT_COUNT ==> r@ == ""@,
{
    match idx {
        0 => "> Tween modal bounds with Start",
        1 => "> Toggle screen shake with Enter",
        2 => "> Pan camera to click/tap",
        3 => "> Animated repeating tiled background",
        4 => "> Scrolling tiled background",
        5 => "> Blinking UI indicator",
        6 => "> Increased animation speed",
        7 => "> Oscillating opacity",
        8 => "> Color+alpha oscillation",
        9 => "> Silhouette overlay",
        10 => "> Vertical bounce animation",
        _ => "",
    }
}

} // verus!
