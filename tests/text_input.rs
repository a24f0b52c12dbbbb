use termgfx::layout::Rect;
use termgfx::{GraphicsBackend, Renderer, TerminalCapabilities, TerminalContext, TerminalGeometry};
use termgfx::text_input::TextInput;

#[test]
fn test_text_input_creation() {
    let input = TextInput::new(": ");
    assert_eq!(input.value(), "");
    assert!(input.is_empty());
}

#[test]
fn test_insert_and_cursor() {
    let mut input = TextInput::new("");
    input.focused = true;

    input.insert_char('h');
    input.insert_char('e');
    input.insert_char('l');
    input.insert_char('l');
    input.insert_char('o');

    assert_eq!(input.value(), "hello");
    assert_eq!(input.cursor_position(), 5);
}

#[test]
fn text_input_test_navigation() {
    let mut input = TextInput::new("");
    input.set_value("hello world");

    input.move_to_start();
    assert_eq!(input.cursor_position(), 0);

    input.move_to_end();
    assert_eq!(input.cursor_position(), 11);

    input.move_left();
    assert_eq!(input.cursor_position(), 10);

    input.move_right();
    assert_eq!(input.cursor_position(), 11);
}

#[test]
fn test_deletion() {
    let mut input = TextInput::new("");
    input.set_value("hello");

    input.delete_char_before();
    assert_eq!(input.value(), "hell");

    input.move_to_start();
    input.delete_char_at();
    assert_eq!(input.value(), "ell");
}

#[test]
fn test_word_navigation() {
    let mut input = TextInput::new("");
    input.set_value("hello world test");

    input.move_to_start();
    input.move_word_right();
    // Should be at 'w' in 'world'
    assert_eq!(input.cursor_position(), 6);

    input.move_word_right();
    // Should be at 't' in 'test'
    assert_eq!(input.cursor_position(), 12);

    input.move_word_left();
    // Should be back at 'w' in 'world'
    assert_eq!(input.cursor_position(), 6);
}

#[test]
fn test_clear() {
    let mut input = TextInput::new("");
    input.set_value("some text");

    input.clear();
    assert!(input.is_empty());
    assert_eq!(input.cursor_position(), 0);
}

#[test]
fn text_input_paste_and_word_delete() {
    let mut input = TextInput::new("> ");
    input.set_value("ab");
    input.move_left();
    input.handle_paste("x\ny\r");
    assert_eq!(input.value(), "axyb");
    assert_eq!(input.cursor_position(), 3);
    input.set_value("one two  ");
    input.delete_word_before();
    assert_eq!(input.value(), "one ");
    input.set_value("héllo");
    assert_eq!(input.cursor_position(), 6);
}

#[test]
fn text_input_render_scrolls_to_cursor() {
    let ctx = TerminalContext::detect(
        TerminalGeometry::with_char_size(80, 24, 10, 20),
        TerminalCapabilities::from_env("xterm", "", false, false),
    );
    let mut r = Renderer::from_parts(ctx, GraphicsBackend::Blocks);
    let mut input = TextInput::new(": ");
    input.set_value("hello");
    input.on_focus();
    input.render(&mut r, Rect::new(0, 0, 10, 1));
    assert_eq!(String::from_utf8(r.flush()).unwrap(), "\x1b[1;1H: hello\x1b[7m \x1b[0m");
    input.render(&mut r, Rect::new(0, 0, 5, 1));
    assert_eq!(String::from_utf8(r.flush()).unwrap(), "\x1b[1;1H: lo\x1b[7m \x1b[0m");
    input.move_to_start();
    input.render(&mut r, Rect::new(3, 2, 5, 1));
    assert_eq!(String::from_utf8(r.flush()).unwrap(), "\x1b[3;4H: \x1b[7mh\x1b[0mel");
    input.on_blur();
    input.render(&mut r, Rect::new(0, 0, 2, 1));
    assert_eq!(String::from_utf8(r.flush()).unwrap(), "\x1b[1;1H: ");
}
