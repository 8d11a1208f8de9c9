use favspace::thumbnail::{
    convert_shell_pixels, encode_shell_png, pixel_buffer_len, shell_image_size,
    INVALID_SHELL_SIZE,
};

#[test]
fn shell_sizes_are_checked() {
    assert_eq!(shell_image_size(-128, 128).unwrap(), (128, 128));
    assert_eq!(shell_image_size(1024, -1024).unwrap(), (1024, 1024));
    assert_eq!(shell_image_size(0, 5).unwrap_err(), INVALID_SHELL_SIZE);
    assert_eq!(shell_image_size(1025, 5).unwrap_err(), INVALID_SHELL_SIZE);
    assert_eq!(shell_image_size(i32::MIN, 5).unwrap_err(), INVALID_SHELL_SIZE);
    assert_eq!(pixel_buffer_len(3, 2), 24);
}

#[test]
fn shell_pixels_become_rgba() {
    let mut pixels = vec![1, 2, 3, 0, 0, 0, 0, 0, 5, 6, 7, 8, 9, 9];
    convert_shell_pixels(&mut pixels);
    assert_eq!(pixels, vec![3, 2, 1, 255, 0, 0, 0, 0, 7, 6, 5, 8, 9, 9]);
}

#[test]
fn shell_bitmaps_encode_as_png() {
    let pixels = vec![10u8; 2 * 3 * 4];
    let png = encode_shell_png(pixels, 2, 3).unwrap();
    assert!(png.starts_with(&[137, 80, 78, 71, 13, 10, 26, 10]));
}
