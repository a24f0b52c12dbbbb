//! Placement, border and outcome of modal popups, and split directions.

use crate::layout::Rect;
use crate::theme::BorderChars;
use vstd::prelude::*;

verus! {

/// Where a popup sits in its parent.
#[derive(Debug, Clone, Copy, PartialEq, Eq, Structural)]
pub enum PopupPosition {
    Center,
    Top,
    Bottom,
    Fixed { x: u16, y: u16 },
}

impl Default for PopupPosition {
    fn default() -> (r: Self)
        ensures
            r == PopupPosition::Center,
    {
        PopupPosition::Center
    }
}

/// Border of a popup.
#[derive(Debug, Clone, Copy, PartialEq, Eq, Structural)]
pub enum PopupBorderStyle {
    NoBorder,
    Single,
    Double,
    Rounded,
}

impl Default for PopupBorderStyle {
    fn default() -> (r: Self)
        ensures
            r == PopupBorderStyle::Single,
    {
        PopupBorderStyle::Single
    }
}

/// The characters of a popup border style; none without a border.
pub open spec fn popup_border_chars(style: PopupBorderStyle) -> Option<BorderChars> {
    match style {
        PopupBorderStyle::NoBorder => None,
            PopupBorderStyle::Single => Some(BorderChars { horizontal: '\u{2500}', vertical: '\u{2502}', top_left: '\u{250C}', top_right: '\u{2510}', bottom_left: '\u{2514}', bottom_right: '\u{2518}' }),
            PopupBorderStyle::Double => Some(BorderChars { horizontal: '\u{2550}', vertical: '\u{2551}', top_left: '\u{2554}', top_right: '\u{2557}', bottom_left: '\u{255A}', bottom_right: '\u{255D}' }),
            PopupBorderStyle::Rounded => Some(BorderChars { horizontal: '\u{2500}', vertical: '\u{2502}', top_left: '\u{256D}', top_right: '\u{256E}', bottom_left: '\u{2570}', bottom_right: '\u{256F}' }),
    }
}

impl PopupBorderStyle {
    /// The characters that draw this border.
    pub fn chars(&self) -> (r: Option<BorderChars>)
        ensures
            r == popup_border_chars(*self),
    {
        match self {
            PopupBorderStyle::NoBorder => None,
                PopupBorderStyle::Single => Some(BorderChars { horizontal: '\u{2500}', vertical: '\u{2502}', top_left: '\u{250C}', top_right: '\u{2510}', bottom_left: '\u{2514}', bottom_right: '\u{2518}' }),
                PopupBorderStyle::Double => Some(BorderChars { horizontal: '\u{2550}', vertical: '\u{2551}', top_left: '\u{2554}', top_right: '\u{2557}', bottom_left: '\u{255A}', bottom_right: '\u{255D}' }),
                PopupBorderStyle::Rounded => Some(BorderChars { horizontal: '\u{2500}', vertical: '\u{2502}', top_left: '\u{256D}', top_right: '\u{256E}', bottom_left: '\u{2570}', bottom_right: '\u{256F}' }),
        }
    }
}

/// Size of a popup: the requested one, else the content's minimum plus
/// its border, at most the parent's size.
pub open spec fn popup_size(
    size: Option<(u16, u16)>,
    content_min: (u16, u16),
    border: PopupBorderStyle,
    parent: Rect,
) -> (u16, u16) {
    match size {
        Some(s) => s,
        None => {
            let add: int = if border == PopupBorderStyle::NoBorder { 0 } else { 2 };
            let w = content_min.0 + add;
            let h = content_min.1 + add;
            (
                (if w <= parent.width { w } else { parent.width as int }) as u16,
                (if h <= parent.height { h } else { parent.height as int }) as u16,
            )
        },
    }
}

/// Where a popup of size `(w, h)` sits in `parent`: centred, centred at the
/// top row below the parent's first, centred above the bottom row, or fixed.
pub open spec fn popup_origin(position: PopupPosition, w: u16, h: u16, parent: Rect) -> (int, int) {
    let cx = parent.x + (if parent.width >= w { parent.width - w } else { 0 }) / 2;
    match position {
        PopupPosition::Center => (cx, parent.y + (if parent.height >= h { parent.height - h } else { 0 }) / 2),
        PopupPosition::Top => (cx, parent.y + 1),
        PopupPosition::Bottom => (cx, parent.y + if parent.height >= h + 1 { parent.height - (h + 1) } else { 0 }),
        PopupPosition::Fixed { x, y } => (x as int, y as int),
    }
}

/// The rectangle of a popup in `parent`.
pub fn calculate_bounds(
    size: Option<(u16, u16)>,
    content_min: (u16, u16),
    border: PopupBorderStyle,
    position: PopupPosition,
    parent: Rect,
) -> (r: Rect)
    requires
        parent.x + parent.width <= u16::MAX,
        parent.y + parent.height < u16::MAX,
        size matches Some(s) ==> s.1 < u16::MAX,
    ensures
        (r.width, r.height) == popup_size(size, content_min, border, parent),
        (r.x as int, r.y as int) == popup_origin(position, r.width, r.height, parent),
{
    let (width, height): (u16, u16) = match size {
        Some(s) => s,
        None => {
            let add: u32 = if border == PopupBorderStyle::NoBorder { 0 } else { 2 };
            let w: u32 = content_min.0 as u32 + add;
            let h: u32 = content_min.1 as u32 + add;
            (
                if w <= parent.width as u32 { w as u16 } else { parent.width },
                if h <= parent.height as u32 { h as u16 } else { parent.height },
            )
        },
    };
    let cx = parent.x + parent.width.saturating_sub(width) / 2;
    let (x, y): (u16, u16) = match position {
        PopupPosition::Center => (cx, parent.y + parent.height.saturating_sub(height) / 2),
        PopupPosition::Top => (cx, parent.y + 1),
        PopupPosition::Bottom => (cx, parent.y + parent.height.saturating_sub(height + 1)),
        PopupPosition::Fixed { x, y } => (x, y),
    };
    Rect { x, y, width, height }
}

/// The area inside a popup's border.
pub fn content_bounds(border: PopupBorderStyle, popup: Rect) -> (r: Rect)
    requires
        border != PopupBorderStyle::NoBorder ==> popup.x < u16::MAX && popup.y < u16::MAX,
    ensures
        border == PopupBorderStyle::NoBorder ==> r == popup,
        border != PopupBorderStyle::NoBorder ==> r == (Rect {
            x: (popup.x + 1) as u16,
            y: (popup.y + 1) as u16,
            width: if popup.width >= 2 { (popup.width - 2) as u16 } else { 0 },
            height: if popup.height >= 2 { (popup.height - 2) as u16 } else { 0 },
        }),
{
    if border == PopupBorderStyle::NoBorder {
        popup
    } else {
        Rect {
            x: popup.x + 1,
            y: popup.y + 1,
            width: popup.width.saturating_sub(2),
            height: popup.height.saturating_sub(2),
        }
    }
}

/// How a popup was closed.
#[derive(Debug, Clone, PartialEq, Eq)]
pub enum PopupResult {
    Open,
    Cancelled,
    Confirmed,
    Custom(String),
}

/// How a split arranges its panes.
#[derive(Debug, Clone, Copy, PartialEq, Eq, Structural)]
pub enum SplitDirection {
    /// Panes side by side.
    Horizontal,
    /// Panes stacked.
    Vertical,
}

impl Default for SplitDirection {
    fn default() -> (r: Self)
        ensures
            r == SplitDirection::Horizontal,
    {
        SplitDirection::Horizontal
    }
}

} // verus!
