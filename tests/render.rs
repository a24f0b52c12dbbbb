use termgfx::image_helpers;
use termgfx::{DirtyRegion, GraphicsBackend, RenderError, Renderer, TerminalCapabilities, TerminalContext, TerminalGeometry};

fn context(tmux: bool) -> TerminalContext {
    TerminalContext::detect(
        TerminalGeometry::with_char_size(80, 24, 10, 20),
        TerminalCapabilities::from_env("xterm-256color", "", tmux, false),
    )
}

#[test]
fn test_renderer_creation() {
    // Should be able to create renderer
    let renderer = Renderer::from_parts(context(false), GraphicsBackend::Blocks);
    assert_eq!(renderer.graphics_backend(), GraphicsBackend::Blocks);
    assert!(!renderer.in_alt_screen());
    assert!(!renderer.in_multiplexer());
    assert!(!renderer.dirty_region().is_dirty);
}

#[test]
fn frame_lifecycle_bytes() {
    let mut r = Renderer::from_parts(context(false), GraphicsBackend::Kitty);
    r.enter_alt_screen();
    assert_eq!(r.flush(), b"\x1b[?1049h".to_vec());
    assert_eq!(*r.dirty_region(), DirtyRegion { min_col: 0, min_row: 0, max_col: 80, max_row: 24, is_dirty: true });
    r.begin_frame();
    r.move_cursor(2, 3);
    r.write_styled("hi", "\x1b[1m");
    r.write_repeated('─', 2);
    let out = r.end_frame();
    assert_eq!(
        String::from_utf8(out).unwrap(),
        "\x1b[?25l\x1b_Ga=d,d=I,i=1,q=2\x1b\\\x1b[4;3H\x1b[1mhi\x1b[0m──\x1b[?25h"
    );
    assert!(!r.dirty_region().is_dirty);
    r.exit_alt_screen();
    assert_eq!(r.flush(), b"\x1b[?1049l".to_vec());
}

#[test]
fn dirty_region_union_and_intersection() {
    let mut d = DirtyRegion::new();
    assert!(!d.intersects(0, 0, 10, 10));
    d.mark_region(5, 5, 2, 2);
    d.mark_region(1, 8, 1, 1);
    assert_eq!(d, DirtyRegion { min_col: 1, min_row: 5, max_col: 7, max_row: 9, is_dirty: true });
    assert!(d.intersects(7, 9, 1, 1));
    assert!(!d.intersects(8, 0, 1, 1));
    d.mark_region(65535, 0, 10, 0);
    assert_eq!(d.max_col, 65535);
    d.clear();
    assert_eq!(d, DirtyRegion::new());
}

#[test]
fn render_image_marks_and_routes() {
    let mut r = Renderer::from_parts(context(false), GraphicsBackend::Blocks);
    let data = [255u8, 0, 0].repeat(16);
    assert_eq!(r.render_image(&data, 40, 40, 0, 0, None, None), Err(RenderError::InvalidImageBuffer));
    assert_eq!(r.dirty_region().max_col, 4);
    assert_eq!(r.dirty_region().max_row, 2);
    r.clear_dirty();
    assert_eq!(r.render_image(&data, 4, 4, 0, 0, Some(2), Some(1)), Ok(()));
    assert_eq!(String::from_utf8(r.flush()).unwrap(), "\x1b[1;1H░░");
    let mut fb = Renderer::from_parts(context(false), GraphicsBackend::Framebuffer);
    assert_eq!(fb.render_image(&data, 4, 4, 0, 0, None, None), Ok(()));
    assert!(fb.flush().is_empty());
    assert_eq!(fb.take_device_output(), data);
}

#[test]
fn render_png_file() {
    let img = image::RgbImage::from_pixel(4, 4, image::Rgb([255, 255, 255]));
    let mut png = Vec::new();
    img.write_to(&mut std::io::Cursor::new(&mut png), image::ImageFormat::Png).unwrap();
    let mut r = Renderer::from_parts(context(false), GraphicsBackend::Blocks);
    assert_eq!(r.render_kitty_image(&png, 1, 1, Some(1), Some(1)), Ok(()));
    assert_eq!(String::from_utf8(r.flush()).unwrap(), "\x1b[2;2H█");
    assert_eq!(r.render_kitty_image(b"not a png", 0, 0, None, None), Err(RenderError::EncodingFailed));
}

#[test]
fn test_image_helpers() {
    // Create simple 2x2 red image
    let data = vec![255, 0, 0, 255, 0, 0, 255, 0, 0, 255, 0, 0];

    let result = image_helpers::rgb_to_png(2, 2, &data);
    assert!(result.is_ok());

    let png = result.unwrap();
    // PNG header should start with magic bytes
    assert_eq!(&png[0..8], &[137, 80, 78, 71, 13, 10, 26, 10]);
}

#[test]
fn png_helpers_reject_short_buffers() {
    assert_eq!(image_helpers::rgb_to_png(2, 2, &[0u8; 11]), Err(RenderError::EncodingFailed));
    assert_eq!(image_helpers::rgba_to_png(1, 1, &[0u8; 3]), Err(RenderError::EncodingFailed));
    assert!(image_helpers::rgba_to_png(1, 1, &[1, 2, 3, 4]).is_ok());
}

#[test]
fn dirty_estimate_saturates() {
    let mut r = Renderer::from_parts(context(false), GraphicsBackend::Blocks);
    let data = vec![0u8; 1_000_000 * 3];
    assert_eq!(r.render_image(&data, 1_000_000, 1, 0, 0, None, None), Ok(()));
    assert_eq!(r.dirty_region().max_col, 65535);
    assert_eq!(r.dirty_region().max_row, 0);
}
