use termgfx::color::{rgb_to_256, Color};
use termgfx::TerminalCapabilities;

#[test]
fn test_rgb_to_256() {
    assert_eq!(rgb_to_256(255, 255, 255), 231);
    assert_eq!(rgb_to_256(0, 0, 0), 16);

    let gray_idx = rgb_to_256(128, 128, 128);
    assert!((232..=255).contains(&gray_idx));
}

#[test]
fn test_color_degradation() {
    let caps = TerminalCapabilities {
        kitty_graphics: false,
        sixel: false,
        truecolor: true,
        colors_256: true,
        in_multiplexer: false,
        mouse: true,
    };

    let white = Color::white();
    let code = white.degrade(&caps);
    assert!(code.contains("38;2;255;255;255"));
}

