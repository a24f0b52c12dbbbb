use termgfx::layout::Rect;
use termgfx::popup::{calculate_bounds, content_bounds, PopupBorderStyle, PopupPosition};

#[test]
fn mod_test_bounds_calculation() {
    let parent = Rect::new(0, 0, 80, 24);
    let bounds = calculate_bounds(Some((40, 20)), (0, 0), PopupBorderStyle::Single, PopupPosition::Center, parent);

    assert_eq!(bounds.x, 20);
    assert_eq!(bounds.y, 2);
    assert_eq!(bounds.width, 40);
    assert_eq!(bounds.height, 20);
}

#[test]
fn popup_sizes_and_positions() {
    let parent = Rect::new(2, 1, 30, 10);
    let b = calculate_bounds(None, (10, 3), PopupBorderStyle::Double, PopupPosition::Top, parent);
    assert_eq!(b, Rect::new(11, 2, 12, 5));
    let b = calculate_bounds(None, (50, 30), PopupBorderStyle::NoBorder, PopupPosition::Bottom, parent);
    assert_eq!(b, Rect::new(2, 1, 30, 10));
    let b = calculate_bounds(Some((4, 2)), (0, 0), PopupBorderStyle::Single, PopupPosition::Fixed { x: 7, y: 8 }, parent);
    assert_eq!(b, Rect::new(7, 8, 4, 2));
    assert_eq!(content_bounds(PopupBorderStyle::Rounded, b), Rect::new(8, 9, 2, 0));
    assert_eq!(content_bounds(PopupBorderStyle::NoBorder, b), b);
    assert!(PopupBorderStyle::NoBorder.chars().is_none());
    assert_eq!(PopupBorderStyle::Rounded.chars().unwrap().top_left, '╭');
}
