use termgfx::scrollable::ScrollableView;

#[test]
fn test_scrollable_creation() {
    let scroll = ScrollableView::new(1000, 500);
    assert_eq!(scroll.content_size(), (1000, 500));
    assert_eq!(scroll.offset(), (0, 0));
}

#[test]
fn test_scroll_to() {
    let mut scroll = ScrollableView::new(1000, 500);
    scroll.scroll_to(100, 50);
    assert_eq!(scroll.offset(), (100, 50));

    // Should clamp to content bounds
    scroll.scroll_to(2000, 1000);
    assert_eq!(scroll.offset(), (1000, 500));
}

#[test]
fn test_scroll_by() {
    let mut scroll = ScrollableView::new(1000, 500);
    scroll.scroll_to(100, 100);

    scroll.scroll_by(10, -20);
    assert_eq!(scroll.offset(), (110, 80));

    // Should not go negative
    scroll.scroll_by(-200, -200);
    assert_eq!(scroll.offset(), (0, 0));
}

#[test]
fn test_visible_range() {
    let mut scroll = ScrollableView::new(1000, 500);
    scroll.scroll_to(100, 50);

    let (x_range, y_range) = scroll.visible_range(80, 24);
    assert_eq!(x_range, 100..180);
    assert_eq!(y_range, 50..74);
}

#[test]
fn test_visible_range_at_edge() {
    let mut scroll = ScrollableView::new(100, 50);
    scroll.scroll_to(50, 30);

    let (x_range, y_range) = scroll.visible_range(80, 24);
    // Should clamp to content size
    assert_eq!(x_range, 50..100);
    assert_eq!(y_range, 30..50);
}

#[test]
fn test_ensure_visible() {
    let mut scroll = ScrollableView::new(1000, 500);
    scroll.scroll_margin = 0; // No margin for simpler test

    // Position already visible - no scroll
    scroll.ensure_visible(10, 10, 80, 24);
    assert_eq!(scroll.offset(), (0, 0));

    // Position below viewport - scroll down
    scroll.ensure_visible(10, 50, 80, 24);
    assert!(scroll.offset_y() > 0);
    assert!(scroll.is_visible(10, 50, 80, 24));

    // Position to the right - scroll right
    scroll.scroll_to(0, 0);
    scroll.ensure_visible(100, 10, 80, 24);
    assert!(scroll.offset_x() > 0);
    assert!(scroll.is_visible(100, 10, 80, 24));
}

#[test]
fn test_coordinate_conversion() {
    let mut scroll = ScrollableView::new(1000, 500);
    scroll.scroll_to(100, 50);

    // Visible position
    let viewport = scroll.content_to_viewport(110, 60, 80, 24);
    assert_eq!(viewport, Some((10, 10)));

    // Invisible position
    let viewport = scroll.content_to_viewport(50, 30, 80, 24);
    assert_eq!(viewport, None);

    // Reverse conversion
    let content = scroll.viewport_to_content(10, 10);
    assert_eq!(content, (110, 60));
}

#[test]
fn test_page_navigation() {
    let mut scroll = ScrollableView::new(100, 200);

    scroll.page_down(24);
    assert_eq!(scroll.offset_y(), 23); // 24 - 1 for overlap

    scroll.page_down(24);
    assert_eq!(scroll.offset_y(), 46);

    scroll.page_up(24);
    assert_eq!(scroll.offset_y(), 23);

    scroll.scroll_to_bottom(24);
    assert_eq!(scroll.offset_y(), 176); // 200 - 24
}

#[test]
fn test_center_on() {
    let mut scroll = ScrollableView::new(1000, 500);
    scroll.center_on(500, 250, 80, 24);

    // Should be roughly centered
    assert_eq!(scroll.offset_x(), 460); // 500 - 40
    assert_eq!(scroll.offset_y(), 238); // 250 - 12
}

