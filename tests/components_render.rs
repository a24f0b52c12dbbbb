use termgfx::bar::{Badge, BarItem, Header, SlottedBar, Spacer, TextSlot, Title};
use termgfx::command_palette::{CommandMode, CommandPalette};
use termgfx::i18n::TextDirection;
use termgfx::layout::Rect;
use termgfx::text::{Text, TextAlign};
use termgfx::{GraphicsBackend, Renderer, TerminalCapabilities, TerminalContext, TerminalGeometry};

fn renderer() -> Renderer {
    let ctx = TerminalContext::detect(
        TerminalGeometry::with_char_size(80, 24, 10, 20),
        TerminalCapabilities::from_env("xterm", "", false, false),
    );
    Renderer::from_parts(ctx, GraphicsBackend::Blocks)
}

fn take(r: &mut Renderer) -> String {
    String::from_utf8(r.flush()).unwrap()
}

#[test]
fn text_alignment_follows_direction() {
    let mut r = renderer();
    let mut t = Text::new("abc").with_align(TextAlign::End);
    t.render(&mut r, Rect::new(2, 1, 10, 1), TextDirection::LeftToRight);
    assert_eq!(take(&mut r), "\x1b[2;10Habc");
    t.render(&mut r, Rect::new(2, 1, 10, 1), TextDirection::RightToLeft);
    assert_eq!(take(&mut r), "\x1b[2;3Habc");
    let mut c = Text::new("ab").with_align(TextAlign::Center).with_style("\x1b[1m");
    c.render(&mut r, Rect::new(0, 0, 7, 1), TextDirection::LeftToRight);
    assert_eq!(take(&mut r), "\x1b[1;3H\x1b[1mab\x1b[0m");
    let mut e = Text::new("");
    e.render(&mut r, Rect::new(0, 0, 7, 1), TextDirection::LeftToRight);
    assert_eq!(take(&mut r), "");
    assert_eq!(Text::new("héllo").min_size(), (6, 1));
}

#[test]
fn logo_badge_title_render() {
    let mut r = renderer();
    let mut h = Header::new();
    h.render(&mut r, Rect::new(0, 0, 20, 1));
    assert_eq!(take(&mut r), "\x1b[1;13H\x1b[47;30m PONDER \x1b[0m\x1b[0m");
    let mut b = Badge::new("NORMAL").with_padding(2).with_style("\x1b[44m");
    b.render(&mut r, Rect::new(4, 0, 20, 1));
    assert_eq!(take(&mut r), "\x1b[1;5H\x1b[44m  NORMAL  \x1b[0m");
    let mut t = Title::with_style("Queue", "");
    t.render(&mut r, Rect::new(0, 0, 11, 1), TextDirection::LeftToRight);
    assert_eq!(take(&mut r), "\x1b[1;4HQueue");
}

#[test]
fn command_palette_render_states() {
    let mut r = renderer();
    let mut p = CommandPalette::new();
    p.render(&mut r, Rect::new(0, 23, 80, 1));
    assert_eq!(take(&mut r), "");
    p.set_message("saved");
    p.render(&mut r, Rect::new(0, 23, 80, 1));
    assert_eq!(take(&mut r), "\x1b[24;1Hsaved");
    p.set_error("no such command");
    p.render(&mut r, Rect::new(0, 23, 80, 1));
    assert_eq!(take(&mut r), "\x1b[24;1H\x1b[31mno such command\x1b[0m");
    p.activate(CommandMode::Search);
    p.render(&mut r, Rect::new(0, 23, 80, 1));
    assert_eq!(take(&mut r), "\x1b[24;1H/\x1b[7m \x1b[0m");
}

#[test]
fn text_slot_render_cuts_and_aligns() {
    let mut r = renderer();
    let mut s = TextSlot::new("status line").with_align(TextAlign::End);
    s.render(&mut r, Rect::new(0, 5, 6, 1), TextDirection::LeftToRight);
    assert_eq!(take(&mut r), "\x1b[6;1Hstatus");
    s.render(&mut r, Rect::new(0, 5, 14, 1), TextDirection::LeftToRight);
    assert_eq!(take(&mut r), "\x1b[6;4Hstatus line");
    s.render(&mut r, Rect::new(0, 5, 0, 1), TextDirection::LeftToRight);
    assert_eq!(take(&mut r), "");
    let mut u = TextSlot::new("héllo").with_style("\x1b[2m");
    u.render(&mut r, Rect::new(1, 0, 2, 1), TextDirection::LeftToRight);
    assert_eq!(take(&mut r), "\x1b[1;2H\x1b[2mh\x1b[0m");
}

#[test]
fn slotted_bar_render_lays_out_slots() {
    let mut r = renderer();
    let mut bar = SlottedBar::new().with_background(String::new());
    bar.add(BarItem::Badge(Badge::new("N").with_style("\x1b[7m")), 100);
    bar.add(BarItem::Spacer(Spacer::new()), 10);
    bar.add(BarItem::Text(TextSlot::new("ok").with_fixed_width(4).with_align(TextAlign::End)), 50);
    bar.render(&mut r, Rect::new(0, 2, 12, 1), TextDirection::LeftToRight);
    assert_eq!(take(&mut r), "\x1b[3;1H\x1b[7m N \x1b[0m\x1b[3;11Hok");
    let mut shaded = SlottedBar::new();
    shaded.add(BarItem::Spacer(Spacer::new()), 1);
    shaded.render(&mut r, Rect::new(0, 0, 3, 1), TextDirection::LeftToRight);
    assert_eq!(take(&mut r), "\x1b[1;1H\x1b[7m   \x1b[0m");
}
