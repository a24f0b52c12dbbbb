use termgfx::{TerminalCapabilities, TerminalGeometry};

#[test]
fn test_geometry_with_char_size() {
    let geom = TerminalGeometry::with_char_size(80, 24, 10, 20);
    assert_eq!(geom.cols, 80);
    assert_eq!(geom.rows, 24);
    assert_eq!(geom.pixel_width, Some(800));
    assert_eq!(geom.pixel_height, Some(480));
}

#[test]
fn test_capabilities_detect() {
    let caps = TerminalCapabilities::from_env("xterm-256color", "", true, false);
    // Should always detect something reasonable
    assert!(caps.colors_256 || !caps.truecolor);
    assert!(caps.sixel);
    assert!(!caps.kitty_graphics);
    assert!(caps.in_multiplexer);
    let kitty = TerminalCapabilities::from_env("xterm-kitty", "truecolor", true, false);
    assert!(kitty.kitty_graphics && kitty.truecolor && kitty.colors_256);
    assert!(kitty.needs_kitty_passthrough());
}
