use termgfx::layout::{FlexDirection, FlexLayout, Rect, Size};

#[test]
fn test_rect_creation() {
    let r = Rect::new(10, 20, 30, 40);
    assert_eq!(r.x, 10);
    assert_eq!(r.y, 20);
    assert_eq!(r.width, 30);
    assert_eq!(r.height, 40);
    assert_eq!(r.right(), 40);
    assert_eq!(r.bottom(), 60);
}

#[test]
fn test_rect_contains() {
    let r = Rect::new(10, 10, 20, 20);
    assert!(r.contains(15, 15));
    assert!(r.contains(10, 10)); // edge
    assert!(!r.contains(30, 30)); // outside
    assert!(!r.contains(5, 15)); // left of rect
}

#[test]
fn test_rect_split_horizontal() {
    let r = Rect::new(0, 0, 80, 24);
    let (top, bottom) = r.split_horizontal(3);

    assert_eq!(top, Rect::new(0, 0, 80, 3));
    assert_eq!(bottom, Rect::new(0, 3, 80, 21));
}

#[test]
fn test_rect_split_vertical() {
    let r = Rect::new(0, 0, 80, 24);
    let (left, right) = r.split_vertical(20);

    assert_eq!(left, Rect::new(0, 0, 20, 24));
    assert_eq!(right, Rect::new(20, 0, 60, 24));
}

#[test]
fn test_flex_layout_row() {
    let container = Rect::new(0, 0, 100, 10);
    let layout = FlexLayout::new(FlexDirection::Row);

    let sizes = vec![Size::Fixed(20), Size::Flex(1), Size::Fixed(20)];
    let rects = layout.layout(container, &sizes);

    assert_eq!(rects.len(), 3);
    assert_eq!(rects[0].width, 20);
    assert_eq!(rects[1].width, 60); // 100 - 20 - 20
    assert_eq!(rects[2].width, 20);
}

#[test]
fn test_flex_layout_column_with_gap() {
    let container = Rect::new(0, 0, 80, 24);
    let layout = FlexLayout::new(FlexDirection::Column).gap(1);

    let sizes = vec![Size::Fixed(3), Size::Flex(1), Size::Fixed(1)];
    let rects = layout.layout(container, &sizes);

    // Total: 3 + gap(1) + flex + gap(1) + 1 = 24
    // Flex gets: 24 - 3 - 1 - 2 = 18
    assert_eq!(rects[0].height, 3);
    assert_eq!(rects[1].height, 18);
    assert_eq!(rects[2].height, 1);

    // Check positions with gaps
    assert_eq!(rects[0].y, 0);
    assert_eq!(rects[1].y, 4); // 3 + 1 gap
    assert_eq!(rects[2].y, 23); // 4 + 18 + 1 gap
}

