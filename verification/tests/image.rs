use raytracing::image::Image;
use raytracing::texture::{checker_is_even, ImageTexture};

fn two_by_two() -> Image {
    // row 0: red-ish, green-ish; row 1: blue-ish, gray
    let bytes: Vec<u8> = vec![
        200, 10, 10, 10, 200, 10, //
        10, 10, 200, 90, 90, 90,
    ];
    Image::new(2, 2, bytes)
}

#[test]
fn pixel_data_reads_row_major() {
    let img = two_by_two();
    assert_eq!(img.pixel_data(0, 0), (200, 10, 10));
    assert_eq!(img.pixel_data(1, 0), (10, 200, 10));
    assert_eq!(img.pixel_data(0, 1), (10, 10, 200));
    assert_eq!(img.pixel_data(1, 1), (90, 90, 90));
}

#[test]
fn pixel_data_clamps_to_the_edge() {
    let img = two_by_two();
    assert_eq!(img.pixel_data(5, 0), (10, 200, 10));
    assert_eq!(img.pixel_data(0, 9), (10, 10, 200));
    assert_eq!(img.pixel_data(100, 100), (90, 90, 90));
}

#[test]
fn texel_reads_the_image() {
    let tex = ImageTexture::new(two_by_two());
    assert_eq!(tex.texel(1, 1), (90, 90, 90));
    assert_eq!(tex.texel(7, 0), (10, 200, 10));
}

#[test]
fn texel_falls_back_to_cyan_on_an_empty_image() {
    let empty = ImageTexture::new(Image::new(0, 0, Vec::new()));
    assert_eq!(empty.texel(0, 0), (0, 255, 255));
    assert_eq!(empty.texel(3, 9), (0, 255, 255));
}

#[test]
fn checker_parity_alternates() {
    assert!(checker_is_even(0, 0, 0));
    assert!(!checker_is_even(1, 0, 0));
    assert!(checker_is_even(1, 1, 0));
    assert!(!checker_is_even(1, 1, 1));
    assert!(!checker_is_even(-1, 0, 0));
    assert!(checker_is_even(-1, -1, 0));
    assert!(checker_is_even(-2, 0, 0));
}
