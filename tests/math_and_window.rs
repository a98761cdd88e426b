use kitsune_engine::matrix::transpose;
use kitsune_engine::window::{cycle_clear_color, Rgb};

#[test]
fn transpose_swaps_rows_and_columns() {
    let m = [[1, 2, 3, 4], [5, 6, 7, 8], [9, 10, 11, 12], [13, 14, 15, 16]];
    let t = transpose(&m);
    assert_eq!(t, [[1, 5, 9, 13], [2, 6, 10, 14], [3, 7, 11, 15], [4, 8, 12, 16]]);
    assert_eq!(transpose(&t), m);
}

#[test]
fn transpose_twice_on_floats() {
    let m = [[1.5f32, -2.0, 0.25, 4.0], [0.0, 1.0, 2.0, 3.0], [9.0, 8.0, 7.0, 6.0], [0.5, 0.5, 0.5, 1.0]];
    assert_eq!(transpose(&transpose(&m)), m);
    assert_eq!(transpose(&m)[0][3], 0.5);
}

#[test]
fn clear_color_cycles() {
    assert_eq!(cycle_clear_color(0), (1, Rgb { r: 1, g: 64, b: 254 }));
    assert_eq!(cycle_clear_color(253), (254, Rgb { r: 254, g: 64, b: 1 }));
    assert_eq!(cycle_clear_color(254), (0, Rgb { r: 0, g: 64, b: 255 }));
}
