use marker_canvas::geom::Color;
use marker_canvas::palette::{color_index, palette, pick_color, PALETTE_LEN};

#[test]
fn palette_has_the_six_colors() {
    let p = palette();
    assert_eq!(p.len(), PALETTE_LEN);
    assert_eq!(p[0], Color { r: 0, g: 254, b: 223 });
    assert_eq!(p[1], Color { r: 255, g: 244, b: 92 });
    assert_eq!(p[2], Color { r: 254, g: 144, b: 44 });
    assert_eq!(p[3], Color { r: 254, g: 4, b: 4 });
    assert_eq!(p[4], Color { r: 254, g: 58, b: 163 });
    assert_eq!(p[5], Color { r: 174, g: 0, b: 217 });
}

#[test]
fn color_at_x0_is_first_palette_entry() {
    // x = 0 px
    assert_eq!(color_index(0), 0);
    assert_eq!(pick_color(0), palette()[0]);
}

#[test]
fn color_at_x6_wraps_to_first_entry() {
    // x = 6 px with a 6-color palette wraps around
    assert_eq!(color_index(6_000), 0);
    assert_eq!(pick_color(6_000), palette()[0]);
}

#[test]
fn color_at_x7_is_second_entry() {
    // x = 7 px
    assert_eq!(color_index(7_000), 1);
    assert_eq!(pick_color(7_000), palette()[1]);
}

#[test]
fn fractional_pixels_floor_before_the_modulo() {
    // x = 1.5 px floors to 1
    assert_eq!(color_index(1_500), 1);
    // x = 5.999 px floors to 5
    assert_eq!(color_index(5_999), 5);
}

#[test]
fn negative_x_clamps_to_first_entry() {
    assert_eq!(color_index(-4_200), 0);
    assert_eq!(pick_color(-4_200), palette()[0]);
}
