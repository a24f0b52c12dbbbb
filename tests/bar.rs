use termgfx::bar::{calculate_widths, Badge, BarItem, Header, SlotSize, SlotSpec, SlottedBar, Spacer, TextSlot, Title};
use termgfx::text::TextAlign;

#[test]
fn text_slot_sizes() {
    let slot = TextSlot::new("hello").with_align(TextAlign::End).with_style("\x1b[1m");
    assert_eq!(slot.text(), "hello");
    assert_eq!(slot.responsive_sizes(), vec![SlotSize::Fill, SlotSize::Blocks(5)]);
    assert_eq!(slot.min_size(), (5, 1));
    assert!(slot.can_hide());
    let fixed = TextSlot::new("héllo").with_fixed_width(12);
    assert_eq!(fixed.responsive_sizes(), vec![SlotSize::Blocks(12)]);
    assert_eq!(fixed.min_size(), (6, 1));
}

#[test]
fn badge_width_includes_padding() {
    let badge = Badge::new("NORMAL").with_padding(2);
    assert_eq!(badge.total_width(), 10);
    assert_eq!(badge.responsive_sizes(), vec![SlotSize::Blocks(10)]);
    assert!(!badge.can_hide());
    assert_eq!(Badge::new("x").total_width(), 3);
}

#[test]
fn spacer_header_title() {
    assert_eq!(Spacer::new().responsive_sizes(), vec![SlotSize::Fill]);
    assert_eq!(Header::new().logo.text, "PONDER");
    let mut title = Title::with_style("Library", "\x1b[1m");
    assert_eq!(title.text(), "Library");
    title.set_text("Queue");
    assert_eq!(title.text(), "Queue");
    assert_eq!(title.inner.align, TextAlign::Center);
}

#[test]
fn test_width_calculation() {
    let mut bar = SlottedBar::new();

    // Add slots with different preferred widths
    bar.add(BarItem::Text(TextSlot::new("a").with_fixed_width(10)), 100); // High priority
    bar.add(BarItem::Text(TextSlot::new("b").with_fixed_width(20)), 50); // Medium priority
    bar.add(BarItem::Spacer(Spacer::new()), 10); // Low priority, flexible

    let widths = bar.calculate_widths(80);

    // Should allocate by priority
    assert_eq!(widths.len(), 3);
    assert_eq!(widths[0].1, 10); // High priority gets its preferred
    assert_eq!(widths[1].1, 20); // Medium priority gets its preferred
    assert_eq!(widths[2].1, 50); // Flexible gets remainder (80 - 10 - 20)
}

fn spec(priority: u16, sizes: Vec<SlotSize>, can_hide: bool) -> SlotSpec {
    SlotSpec { priority, sizes, can_hide }
}

#[test]
fn widths_hide_lowest_priority_first() {
    let slots = vec![
        spec(10, vec![SlotSize::Blocks(30)], true),
        spec(100, vec![SlotSize::Blocks(30)], false),
        spec(50, vec![SlotSize::Blocks(30)], true),
    ];
    // 90 cells needed, 70 available: the priority-10 slot is hidden.
    assert_eq!(calculate_widths(&slots, 70), vec![(1, 30), (2, 30)]);
    // 40 available: both hideable slots go.
    assert_eq!(calculate_widths(&slots, 40), vec![(1, 30)]);
    // 20 available and nothing left to hide: every remaining slot gets 0.
    assert_eq!(calculate_widths(&slots, 20), vec![(1, 0)]);
}

#[test]
fn widths_try_smaller_sizes_and_split_fill() {
    let slots = vec![
        spec(5, vec![SlotSize::Fill], true),
        spec(5, vec![SlotSize::Blocks(50), SlotSize::Percent(25)], true),
        spec(5, vec![SlotSize::Fill], true),
    ];
    // Blocks(50) does not fit in 41; 25% of 41 is 10; 31 left for two fills.
    assert_eq!(calculate_widths(&slots, 41), vec![(0, 16), (1, 10), (2, 15)]);
    assert_eq!(calculate_widths(&[], 10), vec![]);
}
