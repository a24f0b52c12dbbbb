use termgfx::blocks::push_blocks;
use termgfx::escape::push_tmux_escaped;
use termgfx::kitty::{push_kitty_direct, push_kitty_placeholder, push_kitty_tmux_legacy, push_placeholder_grid};
use termgfx::{DetectEnv, GraphicsBackend, ImageRenderer, RenderError};

fn env(fb0: bool, display: bool, kitty_id: bool, term: &str, term_program: &str) -> DetectEnv {
    DetectEnv {
        fb0_exists: fb0,
        display_set: display,
        wayland_display_set: false,
        kitty_window_id_set: kitty_id,
        term: term.to_string(),
        term_program: term_program.to_string(),
    }
}

fn red_4x4() -> Vec<u8> {
    [255u8, 0, 0].repeat(16)
}

fn count(hay: &[u8], needle: &[u8]) -> usize {
    hay.windows(needle.len()).filter(|w| *w == needle).count()
}

fn b64_decode(s: &[u8]) -> Vec<u8> {
    base64::Engine::decode(&base64::engine::general_purpose::STANDARD, s).unwrap()
}

/// Payload bytes of every `ESC _G ... ; payload ESC \` command, in order.
fn kitty_payloads(out: &[u8]) -> Vec<Vec<u8>> {
    let mut res = Vec::new();
    let mut i = 0;
    while i + 2 < out.len() {
        if out[i] == 0x1b && out[i + 1] == b'_' && out[i + 2] == b'G' {
            let semi = i + out[i..].iter().position(|&b| b == b';').unwrap();
            let end = semi + out[semi..].windows(2).position(|w| w == b"\x1b\\").unwrap();
            res.push(out[semi + 1..end].to_vec());
            i = end + 2;
        } else {
            i += 1;
        }
    }
    res
}

#[test]
fn test_backend_detection() {
    let backend = GraphicsBackend::detect(&env(false, false, false, "", ""));
    assert!(matches!(
        backend,
        GraphicsBackend::Framebuffer
            | GraphicsBackend::Kitty
            | GraphicsBackend::Sixel
            | GraphicsBackend::Blocks
    ));
}

#[test]
fn test_backend_names() {
    assert_eq!(GraphicsBackend::Kitty.name(), "Kitty Graphics");
    assert_eq!(GraphicsBackend::Sixel.name(), "Sixel");
    assert_eq!(GraphicsBackend::Blocks.name(), "Unicode Blocks");
    assert_eq!(GraphicsBackend::Framebuffer.name(), "Linux Framebuffer");
}

#[test]
fn detect_table() {
    assert_eq!(GraphicsBackend::detect(&env(false, false, false, "xterm-kitty", "")), GraphicsBackend::Kitty);
    assert_eq!(GraphicsBackend::detect(&env(false, true, false, "screen", "")), GraphicsBackend::Blocks);
    assert_eq!(GraphicsBackend::detect(&env(false, false, true, "screen-256color", "")), GraphicsBackend::Kitty);
    assert_eq!(GraphicsBackend::detect(&env(true, false, false, "linux", "")), GraphicsBackend::Framebuffer);
    assert_eq!(GraphicsBackend::detect(&env(true, true, true, "xterm-kitty", "")), GraphicsBackend::Kitty);
    assert_eq!(GraphicsBackend::detect(&env(false, false, false, "xterm-256color", "")), GraphicsBackend::Sixel);
    assert_eq!(GraphicsBackend::detect(&env(false, false, false, "mlterm", "")), GraphicsBackend::Sixel);
    assert_eq!(GraphicsBackend::detect(&env(false, false, false, "screen", "iTerm.app")), GraphicsBackend::Sixel);
    assert_eq!(GraphicsBackend::detect(&env(false, false, false, "", "")), GraphicsBackend::Blocks);
}

#[test]
fn kitty_direct_end_to_end() {
    let mut r = ImageRenderer::new(GraphicsBackend::Kitty, false);
    let mut out = Vec::new();
    let data = red_4x4();
    assert_eq!(r.render_image(&mut out, &data, 4, 4, 0, 0, Some(2), Some(1)), Ok(()));
    assert!(out.starts_with(b"\x1b[1;1H\x1b_Ga=T,f=100,t=d,i=1,c=2,r=1,C=1,q=2,m=0;"));
    assert_eq!(count(&out, b"a=T,"), 1);
    assert_eq!(count(&out, b"m=0;"), 1);
    assert_eq!(count(&out, b"m=1;"), 0);
    let payloads = kitty_payloads(&out);
    assert_eq!(payloads.len(), 1);
    let png = b64_decode(&payloads[0]);
    assert_eq!(&png[0..8], &[137, 80, 78, 71, 13, 10, 26, 10]);
    let img = image::load_from_memory(&png).unwrap().to_rgb8();
    assert_eq!(img.dimensions(), (4, 4));
    assert!(img.pixels().all(|p| p.0 == [255, 0, 0]));
    assert_eq!(r.animation_image_id, Some(1));
    assert!(r.animation_initialized);
}

#[test]
fn kitty_chunks_round_trip() {
    let payload: Vec<u8> = (0..10000u32).map(|i| b"ABCDEFGHIJKLMNOPQRSTUVWXYZabcdefghijklmnopqrstuvwxyz0123456789+/"[(i % 64) as usize]).collect();
    let mut out = Vec::new();
    push_kitty_direct(&mut out, &payload, 3, 2, 5, 7);
    assert!(out.starts_with(b"\x1b[8;6H\x1b_Ga=T,f=100,t=d,i=1,c=3,r=2,C=1,q=2,m=1;"));
    let payloads = kitty_payloads(&out);
    assert_eq!(payloads.len(), 3);
    assert_eq!(payloads[0].len(), 4096);
    assert_eq!(payloads[1].len(), 4096);
    assert_eq!(payloads[2].len(), 10000 - 8192);
    assert_eq!(payloads.concat(), payload);
    assert_eq!(count(&out, b"\x1b_Gm=1;"), 1);
    assert_eq!(count(&out, b"\x1b_Gm=0;"), 1);
}

#[test]
fn kitty_chunk_exact_multiple() {
    let payload = vec![b'A'; 8192];
    let mut out = Vec::new();
    push_kitty_direct(&mut out, &payload, 1, 1, 0, 0);
    let payloads = kitty_payloads(&out);
    assert_eq!(payloads.len(), 2);
    assert_eq!(count(&out, b"m=1;"), 1);
    assert_eq!(count(&out, b"m=0;"), 1);
}

#[test]
fn kitty_base64_of_png_round_trip() {
    let mut r = ImageRenderer::new(GraphicsBackend::Kitty, false);
    let mut out = Vec::new();
    let png = vec![137u8, 80, 78, 71, 13, 10, 26, 10, 1, 2, 3];
    assert_eq!(r.render_kitty_encoded(&mut out, &png, 400, 200, 1, 1, None, None), Ok(()));
    assert!(out.starts_with(b"\x1b[2;2H\x1b_Ga=T,f=100,t=d,i=1,c=40,r=10,C=1,q=2,m=0;"));
    let joined: Vec<u8> = kitty_payloads(&out).concat();
    assert_eq!(b64_decode(&joined), png);
}

#[test]
fn tmux_escape_doubles() {
    let input = b"a\x1bb\x1b\x1bc".to_vec();
    let mut out = Vec::new();
    push_tmux_escaped(&mut out, &input);
    assert_eq!(out, b"a\x1b\x1bb\x1b\x1b\x1b\x1bc".to_vec());
    assert_eq!(out.iter().filter(|&&b| b == 0x1b).count(), 6);
    let undone: Vec<u8> = String::from_utf8(out).unwrap().replace("\x1b\x1b", "\x1b").into_bytes();
    assert_eq!(undone, input);
}

#[test]
fn placeholder_grid_three_by_two() {
    let mut out = Vec::new();
    push_placeholder_grid(&mut out, 3, 2, 0, 0);
    let text = String::from_utf8(out).unwrap();
    let chars: Vec<char> = text.chars().collect();
    let placeholders: Vec<usize> = chars.iter().enumerate().filter(|(_, c)| **c == '\u{10EEEE}').map(|(i, _)| i).collect();
    assert_eq!(placeholders.len(), 6);
    let diacritics = ['\u{0305}', '\u{030D}', '\u{030E}'];
    let mut k = 0;
    for r in 0..3 {
        for c in 0..2 {
            let i = placeholders[k];
            assert_eq!(chars[i + 1], diacritics[r]);
            assert_eq!(chars[i + 2], diacritics[c]);
            k += 1;
        }
    }
    assert!(text.contains("\x1b[2;1H"));
    assert!(text.contains("\x1b[3;1H"));
}

#[test]
fn kitty_placeholder_in_tmux() {
    let mut r = ImageRenderer::new(GraphicsBackend::Kitty, true);
    let mut out = Vec::new();
    let data = red_4x4();
    assert_eq!(r.render_image(&mut out, &data, 4, 4, 2, 1, Some(2), Some(1)), Ok(()));
    let text = String::from_utf8(out).unwrap();
    assert!(text.starts_with("\x1bPtmux;\x1b\x1b_Ga=T,f=100,t=d,i=1,c=2,r=1,U=1,q=2,m=0;"));
    assert!(text.contains("\x1b[2;3H\x1b[38;5;1m"));
    assert_eq!(text.matches('\u{10EEEE}').count(), 2);
    assert!(text.ends_with("\x1b[39m"));
}

#[test]
fn placeholder_index_out_of_range() {
    let mut r = ImageRenderer::new(GraphicsBackend::Kitty, true);
    let mut out = Vec::new();
    let data = red_4x4();
    assert_eq!(r.render_image(&mut out, &data, 4, 4, 0, 0, Some(257), Some(1)), Err(RenderError::PlacementOutOfRange));
    assert!(out.is_empty());
    assert_eq!(r.animation_image_id, None);
    let mut grid = Vec::new();
    push_placeholder_grid(&mut grid, 1, 256, 0, 0);
    assert_eq!(String::from_utf8(grid).unwrap().matches('\u{10EEEE}').count(), 256);
}

#[test]
fn direct_mode_allows_large_placement() {
    let mut r = ImageRenderer::new(GraphicsBackend::Kitty, false);
    let mut out = Vec::new();
    assert_eq!(r.render_image(&mut out, &red_4x4(), 4, 4, 0, 0, Some(300), Some(1)), Ok(()));
}

#[test]
fn delete_all_images_twice() {
    let mut r = ImageRenderer::new(GraphicsBackend::Kitty, false);
    let mut out = Vec::new();
    r.render_image(&mut out, &red_4x4(), 4, 4, 0, 0, None, None).unwrap();
    let mut first = Vec::new();
    r.delete_all_images(&mut first);
    let after_first = r;
    let mut second = Vec::new();
    r.delete_all_images(&mut second);
    assert_eq!(first, b"\x1b_Ga=d,d=I,i=1,q=2\x1b\\".to_vec());
    assert_eq!(second, first);
    assert_eq!(r, after_first);
    assert_eq!(r.animation_image_id, None);
    assert!(!r.animation_initialized);
}

#[test]
fn delete_in_tmux_and_other_backends() {
    let mut r = ImageRenderer::new(GraphicsBackend::Kitty, true);
    let mut out = Vec::new();
    r.delete_all_images(&mut out);
    assert_eq!(out, b"\x1bPtmux;\x1b\x1b_Ga=d,d=I,i=1,q=2\x1b\x1b\\\x1b\\".to_vec());
    let mut s = ImageRenderer::new(GraphicsBackend::Sixel, true);
    let mut out2 = Vec::new();
    s.delete_all_images(&mut out2);
    assert!(out2.is_empty());
}

#[test]
fn blocks_red_scenario() {
    let mut r = ImageRenderer::new(GraphicsBackend::Blocks, false);
    let mut out = Vec::new();
    assert_eq!(r.render_image(&mut out, &red_4x4(), 4, 4, 0, 0, Some(2), Some(1)), Ok(()));
    assert_eq!(String::from_utf8(out).unwrap(), "\x1b[1;1H░░");
}

#[test]
fn blocks_levels_and_default_cells() {
    let mut out = Vec::new();
    // 8x16 image: the default grid is one 8x16-pixel cell, sampling the top-left pixel.
    let mut data = vec![255u8; 8 * 16 * 3];
    data[0] = 0;
    push_blocks(&mut out, &data, 8, 16, 3, 2, None, None);
    assert_eq!(String::from_utf8(out).unwrap(), "\x1b[3;4H▓");
    // 16x16: two cells across.
    let wide = vec![255u8; 16 * 16 * 3];
    let mut two = Vec::new();
    push_blocks(&mut two, &wide, 16, 16, 0, 0, None, None);
    assert_eq!(String::from_utf8(two).unwrap(), "\x1b[1;1H██");
    // 2x4 is smaller than one cell: nothing is drawn.
    let small = vec![255u8; 2 * 4 * 3];
    let mut none = Vec::new();
    push_blocks(&mut none, &small, 2, 4, 0, 0, None, None);
    assert!(none.is_empty());
}

#[test]
fn sixel_scenario() {
    let mut r = ImageRenderer::new(GraphicsBackend::Sixel, false);
    let mut out = Vec::new();
    let data = vec![255u8, 0, 0, 0, 255, 0];
    assert_eq!(r.render_image(&mut out, &data, 2, 1, 0, 0, None, None), Ok(()));
    assert_eq!(String::from_utf8(out).unwrap(), "\x1b[1;1H\x1bPq#1;2;100;0;0#1?#1;2;0;100;0#1?$-\x1b\\");
    let mut t = ImageRenderer::new(GraphicsBackend::Sixel, true);
    let mut out2 = Vec::new();
    t.render_image(&mut out2, &data, 2, 1, 0, 0, None, None).unwrap();
    assert!(String::from_utf8(out2).unwrap().starts_with("\x1b[1;1H\x1bPtmux;\x1b\x1bPq#1;2;100;0;0"));
}

#[test]
fn invalid_buffer_rejected() {
    for backend in [GraphicsBackend::Framebuffer, GraphicsBackend::Kitty, GraphicsBackend::Sixel, GraphicsBackend::Blocks] {
        let mut r = ImageRenderer::new(backend, false);
        let mut out = Vec::new();
        assert_eq!(r.render_image(&mut out, &[1, 2, 3], 2, 2, 0, 0, None, None), Err(RenderError::InvalidImageBuffer));
        assert_eq!(r.render_image_rgba(&mut out, &[1, 2, 3], 1, 1, 0, 0, None, None), Err(RenderError::InvalidImageBuffer));
        assert!(out.is_empty());
    }
}

#[test]
fn framebuffer_gets_raw_bytes() {
    let mut r = ImageRenderer::new(GraphicsBackend::Framebuffer, false);
    let mut out = Vec::new();
    let data = vec![1u8, 2, 3, 4];
    assert_eq!(r.render_image_rgba(&mut out, &data, 1, 1, 9, 9, None, None), Ok(()));
    assert_eq!(out, data);
}

#[test]
fn rgba_flattened_for_blocks() {
    let mut r = ImageRenderer::new(GraphicsBackend::Blocks, false);
    let mut out = Vec::new();
    let data = [255u8, 255, 255, 0].repeat(8 * 16);
    assert_eq!(r.render_image_rgba(&mut out, &data, 8, 16, 0, 0, None, None), Ok(()));
    assert_eq!(String::from_utf8(out).unwrap(), "\x1b[1;1H█");
    let mut k = ImageRenderer::new(GraphicsBackend::Kitty, false);
    let mut kout = Vec::new();
    assert_eq!(k.render_image_rgba(&mut kout, &[0, 0, 255, 128], 1, 1, 0, 0, Some(1), Some(1)), Ok(()));
    let png = b64_decode(&kitty_payloads(&kout).concat());
    let img = image::load_from_memory(&png).unwrap().to_rgba8();
    assert_eq!(img.get_pixel(0, 0).0, [0, 0, 255, 128]);
}

#[test]
fn placeholder_stream_layout() {
    let mut out = Vec::new();
    push_kitty_placeholder(&mut out, b"QUJD", 1, 1, 0, 0);
    let text = String::from_utf8(out).unwrap();
    assert_eq!(
        text,
        "\x1bPtmux;\x1b\x1b_Ga=T,f=100,t=d,i=1,c=1,r=1,U=1,q=2,m=0;QUJD\x1b\x1b\\\x1b\\\x1b[1;1H\x1b[38;5;1m\u{10EEEE}\u{0305}\u{0305}\x1b[39m"
    );
}

#[test]
fn legacy_tmux_stream_layout() {
    let mut out = Vec::new();
    push_kitty_tmux_legacy(&mut out, b"QUJD", 2, 1, 4, 3);
    assert_eq!(
        String::from_utf8(out).unwrap(),
        "\x1bPtmux;\x1b\x1b[4;5H\x1b\x1b_Ga=T,f=100,t=d,i=1,c=2,r=1,C=1,q=2,m=0;QUJD\x1b\x1b\\\x1b\\"
    );
}

#[test]
fn kitty_default_span_from_pixels() {
    let mut r = ImageRenderer::new(GraphicsBackend::Kitty, false);
    let mut out = Vec::new();
    let data = vec![0u8; 25 * 45 * 3];
    assert_eq!(r.render_image(&mut out, &data, 25, 45, 0, 0, None, None), Ok(()));
    assert!(out.starts_with(b"\x1b[1;1H\x1b_Ga=T,f=100,t=d,i=1,c=2,r=2,C=1,q=2,m="));
    let mut t = ImageRenderer::new(GraphicsBackend::Kitty, true);
    let mut tout = Vec::new();
    let big = vec![0u8; 2570 * 1 * 3];
    assert_eq!(t.render_image(&mut tout, &big, 2570, 1, 0, 0, None, None), Err(RenderError::PlacementOutOfRange));
    assert!(tout.is_empty());
    let mut one = Vec::new();
    let pixel = vec![255u8, 0, 0];
    assert_eq!(r.render_image(&mut one, &pixel, 1, 1, 0, 0, None, None), Ok(()));
    assert!(one.starts_with(b"\x1b[1;1H\x1b_Ga=T,f=100,t=d,i=1,c=0,r=0,C=1,q=2,m=0;"));
}
