use juice::color::{apply_alpha_frac, pack_rgba, unpack_rgba};

#[test]
fn unpack_reads_the_four_channels() {
    assert_eq!(unpack_rgba(0x12345678), (0x12, 0x34, 0x56, 0x78));
    assert_eq!(unpack_rgba(0x00FF00FF), (0x00, 0xFF, 0x00, 0xFF));
    assert_eq!(unpack_rgba(0), (0, 0, 0, 0));
}

#[test]
fn pack_then_unpack_round_trips() {
    assert_eq!(pack_rgba(0x12, 0x34, 0x56, 0x78), 0x12345678);
    assert_eq!(unpack_rgba(pack_rgba(1, 2, 3, 4)), (1, 2, 3, 4));
    let (r, g, b, a) = unpack_rgba(0xDEADBEEF);
    assert_eq!(pack_rgba(r, g, b, a), 0xDEADBEEF);
}

#[test]
fn full_opacity_keeps_rgb_and_sets_alpha_opaque() {
    assert_eq!(apply_alpha_frac(0xAABBCC11, 1, 1), 0xAABBCCFF);
    assert_eq!(apply_alpha_frac(0x00FF00FF, 1, 1), 0x00FF00FF);
    // A ratio equal to one, whatever its denominator.
    assert_eq!(apply_alpha_frac(0xAABBCC11, 7, 7), 0xAABBCCFF);
}

#[test]
fn zero_opacity_blanks_every_channel() {
    assert_eq!(apply_alpha_frac(0xAABBCC11, 0, 7), 0);
    assert_eq!(apply_alpha_frac(0xFFFFFFFF, 0, 1), 0);
}

#[test]
fn negative_ratio_acts_as_zero_opacity() {
    assert_eq!(apply_alpha_frac(0xAABBCC11, -3, 7), apply_alpha_frac(0xAABBCC11, 0, 7));
    assert_eq!(apply_alpha_frac(0xAABBCC11, -1, 2), 0);
}

#[test]
fn ratio_above_one_acts_as_full_opacity() {
    assert_eq!(apply_alpha_frac(0xAABBCC11, 9, 7), apply_alpha_frac(0xAABBCC11, 7, 7));
    assert_eq!(apply_alpha_frac(0x00FF00FF, 3, 2), 0x00FF00FF);
}

#[test]
fn half_opacity_rounds_halves_up() {
    // Green 255 at half opacity: 127.5 rounds up to 128; alpha becomes
    // round(255 / 2) = 128 as well.
    assert_eq!(apply_alpha_frac(0x00FF00FF, 1, 2), 0x00800080);
    // Red 1 at half opacity: 0.5 rounds up to 1.
    assert_eq!(apply_alpha_frac(0x010000FF, 1, 2), 0x01000080);
}

#[test]
fn thirds_round_to_the_nearest_integer() {
    // Red 5 at a third: 5/3 = 1.67 rounds to 2; alpha 255/3 = 85 exactly.
    assert_eq!(apply_alpha_frac(0x050000FF, 1, 3), 0x02000055);
    // Red 4 at a third: 4/3 = 1.33 rounds down to 1.
    assert_eq!(apply_alpha_frac(0x040000FF, 1, 3), 0x01000055);
}
