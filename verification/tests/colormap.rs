use klamath_util::colormap::{
    abs_diff, generate_from_palette, read_palette, search_for_closest, write_palette,
};

#[test]
fn abs_diff_both_orders() {
    assert_eq!(abs_diff(10, 3), 7);
    assert_eq!(abs_diff(3, 10), 7);
    assert_eq!(abs_diff(200, 200), 0);
    assert_eq!(abs_diff(0, 255), 255);
}

#[test]
fn closest_picks_least_squared_distance() {
    let palette = vec![[0u8, 0, 0], [255, 255, 255], [100, 0, 0]];
    assert_eq!(search_for_closest(&palette, [10, 10, 10]), 0);
    assert_eq!(search_for_closest(&palette, [250, 240, 255]), 1);
    assert_eq!(search_for_closest(&palette, [90, 10, 0]), 2);
}

#[test]
fn closest_takes_first_on_ties() {
    let palette = vec![[10u8, 0, 0], [0, 0, 0], [10, 0, 0]];
    // equally distant from both copies: the first wins
    assert_eq!(search_for_closest(&palette, [5, 0, 0]), 0);
}

#[test]
fn generate_maps_each_color() {
    let palette = vec![[0u8, 0, 0], [255, 255, 255]];
    let colors = vec![[1u8, 1, 1], [250, 250, 250], [0, 0, 0]];
    assert_eq!(generate_from_palette(&colors, &palette), vec![0, 1, 0]);
}

#[test]
fn read_palette_groups_by_threes_and_drops_tail() {
    let bytes = vec![1u8, 2, 3, 4, 5, 6, 7, 8];
    let p = read_palette(&bytes);
    assert_eq!(p, vec![[1, 2, 3], [4, 5, 6]]);
}

#[test]
fn read_palette_caps_at_256_colors() {
    let bytes = vec![9u8; 3 * 300];
    let p = read_palette(&bytes);
    assert_eq!(p.len(), 256);
    assert_eq!(p[255], [9, 9, 9]);
}

#[test]
fn write_palette_flattens_in_order() {
    let p = vec![[1u8, 2, 3], [4, 5, 6]];
    assert_eq!(write_palette(&p), vec![1, 2, 3, 4, 5, 6]);
}
