use mediasnare::capture::screenshot::{
    encode_rgba, image_encoding, image_fallback, jpeg_pixels, needs_reencode, pictures_dir, portal_interactive,
    shell_failure_falls_back, shell_temp_name, BufferTooSmall, ImageEncoding, ImageFallback,
};
use mediasnare::settings::non_empty;
use mediasnare::window::main_window::Scope;

#[test]
fn image_encodings() {
    assert_eq!(image_encoding("jpg"), ImageEncoding::Jpeg);
    assert_eq!(image_encoding("jpeg"), ImageEncoding::Jpeg);
    assert_eq!(image_encoding("webp"), ImageEncoding::WebP);
    assert_eq!(image_encoding("png"), ImageEncoding::Png);
    assert_eq!(image_encoding("bmp"), ImageEncoding::Png);
}

#[test]
fn encode_rgba_checks_buffer_size() {
    let data = vec![0u8; 2 * 3 * 4];
    assert_eq!(encode_rgba(&data, 2, 3, "webp"), Ok(ImageEncoding::WebP));
    assert_eq!(encode_rgba(&data[..23], 2, 3, "webp"), Err(BufferTooSmall));
    assert_eq!(encode_rgba(&data, 3, 3, "png"), Err(BufferTooSmall));
    assert_eq!(encode_rgba(&[], 0, 0, "jpg"), Ok(ImageEncoding::Jpeg));
    assert_eq!(encode_rgba(&data, u32::MAX, u32::MAX, "png"), Err(BufferTooSmall));
    assert_eq!(BufferTooSmall.message(), "Failed to create image buffer");
}

#[test]
fn shell_paths() {
    assert!(!needs_reencode("png"));
    assert!(needs_reencode("jpg"));
    assert_eq!(shell_temp_name(false, 321), "mediasnare-shell-321.png");
    assert_eq!(shell_temp_name(true, 321), "mediasnare-shell-area-321.png");
}

#[test]
fn capture_order() {
    assert!(!portal_interactive(Scope::Full));
    assert!(portal_interactive(Scope::Region));
    assert!(portal_interactive(Scope::Window));
    assert!(!shell_failure_falls_back(true, false));
    assert!(shell_failure_falls_back(false, false));
    assert!(shell_failure_falls_back(true, true));
    assert_eq!(image_fallback(true, false), ImageFallback::Portal);
    assert_eq!(image_fallback(false, false), ImageFallback::X11);
    assert_eq!(image_fallback(true, true), ImageFallback::X11);
}

#[test]
fn image_directories() {
    assert_eq!(pictures_dir(Some("/home/a")), "/home/a/Pictures");
    assert_eq!(pictures_dir(None), "/tmp/Pictures");
    assert_eq!(non_empty(String::new()), None);
    assert_eq!(non_empty("/data".to_string()), Some("/data".to_string()));
}

#[test]
fn jpeg_pixels_drop_alpha() {
    let data = [1u8, 2, 3, 4, 10, 20, 30, 40];
    assert_eq!(jpeg_pixels(&data, 2, 1), Ok(vec![1, 2, 3, 10, 20, 30]));
    assert_eq!(jpeg_pixels(&data, 1, 1), Ok(vec![1, 2, 3]));
    assert_eq!(jpeg_pixels(&data[..7], 2, 1), Err(BufferTooSmall));
}
