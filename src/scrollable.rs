//! Scroll state of a viewport over content larger than itself.

use std::ops::Range;
use vstd::prelude::*;

verus! {

/// `a - b`, or 0 when `b > a`.
pub open spec fn sat_sub(a: int, b: int) -> int {
    if a >= b {
        a - b
    } else {
        0
    }
}

/// The smaller of two integers.
pub open spec fn min(a: int, b: int) -> int {
    if a <= b {
        a
    } else {
        b
    }
}

/// `a + b`, at most `usize::MAX`.
pub open spec fn sat_add(a: int, b: int) -> int {
    min(a + b, usize::MAX as int)
}

/// A viewport's scroll offset over content of a known size.
#[derive(Debug, Clone, Copy)]
pub struct ScrollableView {
    pub content_width: usize,
    pub content_height: usize,
    pub offset_x: usize,
    pub offset_y: usize,
    /// Scroll a page (viewport size minus one) per step instead of one line.
    pub scroll_by_page: bool,
    /// Cells kept between the cursor and the viewport edge.
    pub scroll_margin: usize,
}

impl ScrollableView {
    /// Offset along an axis after clamping to content `content` seen through `viewport`.
    pub open spec fn clamped(offset: int, content: int, viewport: int) -> int {
        if content > viewport {
            min(offset, content - viewport)
        } else {
            0
        }
    }

    /// Step size of line scrolling: a page in page mode, else one.
    pub open spec fn step(self, viewport: int) -> int {
        if self.scroll_by_page {
            sat_sub(viewport, 1)
        } else {
            1
        }
    }

    /// Offset along an axis after `ensure_visible` brings `p` into view.
    pub open spec fn follow(offset: int, p: int, viewport: int, margin: int) -> int {
        if viewport > 0 {
            if p < offset + margin {
                sat_sub(p, margin)
            } else if p >= offset + sat_sub(viewport, margin) && viewport > margin * 2 {
                sat_sub(p, sat_sub(sat_sub(viewport, margin), 1))
            } else {
                offset
            }
        } else {
            offset
        }
    }

    /// Create a view over content of the given size, at offset zero.
    pub fn new(content_width: usize, content_height: usize) -> (r: Self)
        ensures
            r.content_width == content_width,
            r.content_height == content_height,
            r.offset_x == 0,
            r.offset_y == 0,
            !r.scroll_by_page,
            r.scroll_margin == 3,
    {
        ScrollableView {
            content_width,
            content_height,
            offset_x: 0,
            offset_y: 0,
            scroll_by_page: false,
            scroll_margin: 3,
        }
    }

    /// A view that scrolls vertically only.
    pub fn vertical(content_height: usize) -> (r: Self)
        ensures
            r == Self::new_spec(0, content_height),
    {
        ScrollableView::new(0, content_height)
    }

    /// A view that scrolls horizontally only.
    pub fn horizontal(content_width: usize) -> (r: Self)
        ensures
            r == Self::new_spec(content_width, 0),
    {
        ScrollableView::new(content_width, 0)
    }

    /// The view `new` returns.
    pub open spec fn new_spec(content_width: usize, content_height: usize) -> Self {
        ScrollableView {
            content_width,
            content_height,
            offset_x: 0,
            offset_y: 0,
            scroll_by_page: false,
            scroll_margin: 3,
        }
    }

    /// Enable or disable page scrolling.
    pub fn with_page_scroll(self, enabled: bool) -> (r: Self)
        ensures
            r == (ScrollableView { scroll_by_page: enabled, ..self }),
    {
        let mut s = self;
        s.scroll_by_page = enabled;
        s
    }

    /// Set the scroll margin.
    pub fn with_scroll_margin(self, margin: usize) -> (r: Self)
        ensures
            r == (ScrollableView { scroll_margin: margin, ..self }),
    {
        let mut s = self;
        s.scroll_margin = margin;
        s
    }

    /// Current offset `(x, y)`.
    pub fn offset(&self) -> (r: (usize, usize))
        ensures
            r == (self.offset_x, self.offset_y),
    {
        (self.offset_x, self.offset_y)
    }

    /// Current horizontal offset.
    pub fn offset_x(&self) -> (r: usize)
        ensures
            r == self.offset_x,
    {
        self.offset_x
    }

    /// Current vertical offset.
    pub fn offset_y(&self) -> (r: usize)
        ensures
            r == self.offset_y,
    {
        self.offset_y
    }

    /// Content size `(width, height)`.
    pub fn content_size(&self) -> (r: (usize, usize))
        ensures
            r == (self.content_width, self.content_height),
    {
        (self.content_width, self.content_height)
    }

    /// Set the content size, clamping the offset as if the viewport were the
    /// content itself.
    pub fn set_content_size(&mut self, width: usize, height: usize)
        ensures
            final(self).content_width == width,
            final(self).content_height == height,
            final(self).offset_x == Self::clamped(old(self).offset_x as int, width as int, width as int),
            final(self).offset_y == Self::clamped(old(self).offset_y as int, height as int, height as int),
            final(self).scroll_by_page == old(self).scroll_by_page,
            final(self).scroll_margin == old(self).scroll_margin,
    {
        self.content_width = width;
        self.content_height = height;
        self.clamp_offset(width, height);
    }

    /// Scroll to a position, each coordinate at most the content size.
    pub fn scroll_to(&mut self, x: usize, y: usize)
        ensures
            *final(self) == (ScrollableView {
                offset_x: min(x as int, old(self).content_width as int) as usize,
                offset_y: min(y as int, old(self).content_height as int) as usize,
                ..*old(self)
            }),
    {
        self.offset_x = if x <= self.content_width { x } else { self.content_width };
        self.offset_y = if y <= self.content_height { y } else { self.content_height };
    }

    /// Scroll horizontally to `x`, at most the content width.
    pub fn scroll_to_x(&mut self, x: usize)
        ensures
            *final(self) == (ScrollableView {
                offset_x: min(x as int, old(self).content_width as int) as usize,
                ..*old(self)
            }),
    {
        self.offset_x = if x <= self.content_width { x } else { self.content_width };
    }

    /// Scroll vertically to `y`, at most the content height.
    pub fn scroll_to_y(&mut self, y: usize)
        ensures
            *final(self) == (ScrollableView {
                offset_y: min(y as int, old(self).content_height as int) as usize,
                ..*old(self)
            }),
    {
        self.offset_y = if y <= self.content_height { y } else { self.content_height };
    }

    /// Scroll by a signed amount on each axis, saturating at zero and at the content size.
    pub fn scroll_by(&mut self, dx: isize, dy: isize)
        ensures
            *final(self) == (ScrollableView {
                offset_x: min(
                    if dx < 0 {
                        sat_sub(old(self).offset_x as int, -dx)
                    } else {
                        sat_add(old(self).offset_x as int, dx as int)
                    },
                    old(self).content_width as int,
                ) as usize,
                offset_y: min(
                    if dy < 0 {
                        sat_sub(old(self).offset_y as int, -dy)
                    } else {
                        sat_add(old(self).offset_y as int, dy as int)
                    },
                    old(self).content_height as int,
                ) as usize,
                ..*old(self)
            }),
    {
        let new_x: usize = if dx < 0 {
            let m = (0i128 - dx as i128) as u128;
            if m >= self.offset_x as u128 { 0 } else { self.offset_x - m as usize }
        } else {
            self.offset_x.saturating_add(dx as usize)
        };
        let new_y: usize = if dy < 0 {
            let m = (0i128 - dy as i128) as u128;
            if m >= self.offset_y as u128 { 0 } else { self.offset_y - m as usize }
        } else {
            self.offset_y.saturating_add(dy as usize)
        };
        self.offset_x = if new_x <= self.content_width { new_x } else { self.content_width };
        self.offset_y = if new_y <= self.content_height { new_y } else { self.content_height };
    }

    /// Scroll up one step.
    pub fn scroll_up(&mut self, viewport_height: usize)
        ensures
            *final(self) == (ScrollableView {
                offset_y: sat_sub(old(self).offset_y as int, old(self).step(viewport_height as int)) as usize,
                ..*old(self)
            }),
    {
        let amount = if self.scroll_by_page { viewport_height.saturating_sub(1) } else { 1 };
        self.offset_y = self.offset_y.saturating_sub(amount);
    }

    /// Scroll down one step, at most to the content height.
    pub fn scroll_down(&mut self, viewport_height: usize)
        ensures
            *final(self) == (ScrollableView {
                offset_y: min(
                    sat_add(old(self).offset_y as int, old(self).step(viewport_height as int)),
                    old(self).content_height as int,
                ) as usize,
                ..*old(self)
            }),
    {
        let amount = if self.scroll_by_page { viewport_height.saturating_sub(1) } else { 1 };
        let y = self.offset_y.saturating_add(amount);
        self.offset_y = if y <= self.content_height { y } else { self.content_height };
    }

    /// Scroll left one step.
    pub fn scroll_left(&mut self, viewport_width: usize)
        ensures
            *final(self) == (ScrollableView {
                offset_x: sat_sub(old(self).offset_x as int, old(self).step(viewport_width as int)) as usize,
                ..*old(self)
            }),
    {
        let amount = if self.scroll_by_page { viewport_width.saturating_sub(1) } else { 1 };
        self.offset_x = self.offset_x.saturating_sub(amount);
    }

    /// Scroll right one step, at most to the content width.
    pub fn scroll_right(&mut self, viewport_width: usize)
        ensures
            *final(self) == (ScrollableView {
                offset_x: min(
                    sat_add(old(self).offset_x as int, old(self).step(viewport_width as int)),
                    old(self).content_width as int,
                ) as usize,
                ..*old(self)
            }),
    {
        let amount = if self.scroll_by_page { viewport_width.saturating_sub(1) } else { 1 };
        let x = self.offset_x.saturating_add(amount);
        self.offset_x = if x <= self.content_width { x } else { self.content_width };
    }

    /// Scroll up by a page (viewport height minus one).
    pub fn page_up(&mut self, viewport_height: usize)
        ensures
            *final(self) == (ScrollableView {
                offset_y: sat_sub(old(self).offset_y as int, sat_sub(viewport_height as int, 1)) as usize,
                ..*old(self)
            }),
    {
        self.offset_y = self.offset_y.saturating_sub(viewport_height.saturating_sub(1));
    }

    /// Scroll down by a page, at most until the content's end fills the viewport.
    pub fn page_down(&mut self, viewport_height: usize)
        ensures
            *final(self) == (ScrollableView {
                offset_y: min(
                    sat_add(old(self).offset_y as int, sat_sub(viewport_height as int, 1)),
                    sat_sub(old(self).content_height as int, viewport_height as int),
                ) as usize,
                ..*old(self)
            }),
    {
        let y = self.offset_y.saturating_add(viewport_height.saturating_sub(1));
        let limit = self.content_height.saturating_sub(viewport_height);
        self.offset_y = if y <= limit { y } else { limit };
    }

    /// Scroll up by half a page.
    pub fn half_page_up(&mut self, viewport_height: usize)
        ensures
            *final(self) == (ScrollableView {
                offset_y: sat_sub(old(self).offset_y as int, viewport_height as int / 2) as usize,
                ..*old(self)
            }),
    {
        self.offset_y = self.offset_y.saturating_sub(viewport_height / 2);
    }

    /// Scroll down by half a page, at most until the content's end fills the viewport.
    pub fn half_page_down(&mut self, viewport_height: usize)
        ensures
            *final(self) == (ScrollableView {
                offset_y: min(
                    sat_add(old(self).offset_y as int, viewport_height as int / 2),
                    sat_sub(old(self).content_height as int, viewport_height as int),
                ) as usize,
                ..*old(self)
            }),
    {
        let y = self.offset_y.saturating_add(viewport_height / 2);
        let limit = self.content_height.saturating_sub(viewport_height);
        self.offset_y = if y <= limit { y } else { limit };
    }

    /// Scroll to the top.
    pub fn scroll_to_top(&mut self)
        ensures
            *final(self) == (ScrollableView { offset_y: 0, ..*old(self) }),
    {
        self.offset_y = 0;
    }

    /// Scroll so that the content's end fills the viewport.
    pub fn scroll_to_bottom(&mut self, viewport_height: usize)
        ensures
            *final(self) == (ScrollableView {
                offset_y: sat_sub(old(self).content_height as int, viewport_height as int) as usize,
                ..*old(self)
            }),
    {
        self.offset_y = self.content_height.saturating_sub(viewport_height);
    }

    /// Scroll to the left edge.
    pub fn scroll_to_left(&mut self)
        ensures
            *final(self) == (ScrollableView { offset_x: 0, ..*old(self) }),
    {
        self.offset_x = 0;
    }

    /// Scroll so that the content's right end fills the viewport.
    pub fn scroll_to_right(&mut self, viewport_width: usize)
        ensures
            *final(self) == (ScrollableView {
                offset_x: sat_sub(old(self).content_width as int, viewport_width as int) as usize,
                ..*old(self)
            }),
    {
        self.offset_x = self.content_width.saturating_sub(viewport_width);
    }

    /// Offset along one axis after bringing `p` into view with the margin.
    fn follow_axis(offset: usize, p: usize, viewport: usize, margin: usize) -> (r: usize)
        ensures
            r == Self::follow(offset as int, p as int, viewport as int, margin as int),
    {
        if viewport > 0 {
            let start: u128 = offset as u128 + margin as u128;
            let end: u128 = offset as u128 + viewport.saturating_sub(margin) as u128;
            if (p as u128) < start {
                p.saturating_sub(margin)
            } else if p as u128 >= end && viewport as u128 > margin as u128 * 2 {
                p.saturating_sub(viewport.saturating_sub(margin).saturating_sub(1))
            } else {
                offset
            }
        } else {
            offset
        }
    }

    /// Scroll so that `(x, y)` is visible, keeping the scroll margin where
    /// the viewport is large enough, then clamp.
    pub fn ensure_visible(&mut self, x: usize, y: usize, viewport_width: usize, viewport_height: usize)
        ensures
            final(self).offset_x == Self::clamped(
                Self::follow(old(self).offset_x as int, x as int, viewport_width as int, old(self).scroll_margin as int),
                old(self).content_width as int,
                viewport_width as int,
            ),
            final(self).offset_y == Self::clamped(
                Self::follow(old(self).offset_y as int, y as int, viewport_height as int, old(self).scroll_margin as int),
                old(self).content_height as int,
                viewport_height as int,
            ),
            final(self).content_width == old(self).content_width,
            final(self).content_height == old(self).content_height,
            final(self).scroll_by_page == old(self).scroll_by_page,
            final(self).scroll_margin == old(self).scroll_margin,
    {
        let margin = self.scroll_margin;
        self.offset_x = Self::follow_axis(self.offset_x, x, viewport_width, margin);
        self.offset_y = Self::follow_axis(self.offset_y, y, viewport_height, margin);
        self.clamp_offset(viewport_width, viewport_height);
    }

    /// Scroll so that `(x, y)` is at the viewport's centre, then clamp.
    pub fn center_on(&mut self, x: usize, y: usize, viewport_width: usize, viewport_height: usize)
        ensures
            final(self).offset_x == Self::clamped(
                sat_sub(x as int, viewport_width as int / 2),
                old(self).content_width as int,
                viewport_width as int,
            ),
            final(self).offset_y == Self::clamped(
                sat_sub(y as int, viewport_height as int / 2),
                old(self).content_height as int,
                viewport_height as int,
            ),
            final(self).content_width == old(self).content_width,
            final(self).content_height == old(self).content_height,
            final(self).scroll_by_page == old(self).scroll_by_page,
            final(self).scroll_margin == old(self).scroll_margin,
    {
        self.offset_x = x.saturating_sub(viewport_width / 2);
        self.offset_y = y.saturating_sub(viewport_height / 2);
        self.clamp_offset(viewport_width, viewport_height);
    }

    /// Visible content columns and rows: from the offset to the offset plus
    /// the viewport, cut at the content size.
    pub fn visible_range(&self, viewport_width: usize, viewport_height: usize) -> (r: (Range<usize>, Range<usize>))
        ensures
            r.0.start == self.offset_x,
            r.0.end == min(self.offset_x + viewport_width, self.content_width as int),
            r.1.start == self.offset_y,
            r.1.end == min(self.offset_y + viewport_height, self.content_height as int),
    {
        (self.visible_x_range(viewport_width), self.visible_y_range(viewport_height))
    }

    /// Visible content columns.
    pub fn visible_x_range(&self, viewport_width: usize) -> (r: Range<usize>)
        ensures
            r.start == self.offset_x,
            r.end == min(self.offset_x + viewport_width, self.content_width as int),
    {
        let end: u128 = self.offset_x as u128 + viewport_width as u128;
        let e: usize = if end <= self.content_width as u128 { end as usize } else { self.content_width };
        Range { start: self.offset_x, end: e }
    }

    /// Visible content rows.
    pub fn visible_y_range(&self, viewport_height: usize) -> (r: Range<usize>)
        ensures
            r.start == self.offset_y,
            r.end == min(self.offset_y + viewport_height, self.content_height as int),
    {
        let end: u128 = self.offset_y as u128 + viewport_height as u128;
        let e: usize = if end <= self.content_height as u128 { end as usize } else { self.content_height };
        Range { start: self.offset_y, end: e }
    }

    /// Whether content position `(x, y)` lies inside the viewport.
    pub fn is_visible(&self, x: usize, y: usize, viewport_width: usize, viewport_height: usize) -> (r: bool)
        ensures
            r == (x >= self.offset_x && x < self.offset_x + viewport_width && y >= self.offset_y && y
                < self.offset_y + viewport_height),
    {
        x >= self.offset_x && x - self.offset_x < viewport_width && y >= self.offset_y && y
            - self.offset_y < viewport_height
    }

    /// Viewport position of a content position, when visible.
    pub fn content_to_viewport(&self, x: usize, y: usize, viewport_width: usize, viewport_height: usize) -> (r: Option<(usize, usize)>)
        ensures
            r == if x >= self.offset_x && x < self.offset_x + viewport_width && y >= self.offset_y && y
                < self.offset_y + viewport_height {
                Some(((x - self.offset_x) as usize, (y - self.offset_y) as usize))
            } else {
                None
            },
    {
        if !self.is_visible(x, y, viewport_width, viewport_height) {
            return None;
        }
        Some((x - self.offset_x, y - self.offset_y))
    }

    /// Content position of a viewport position.
    pub fn viewport_to_content(&self, vx: usize, vy: usize) -> (r: (usize, usize))
        requires
            self.offset_x + vx <= usize::MAX,
            self.offset_y + vy <= usize::MAX,
        ensures
            r == ((self.offset_x + vx) as usize, (self.offset_y + vy) as usize),
    {
        (self.offset_x + vx, self.offset_y + vy)
    }

    /// Clamp the offset so that the viewport stays within the content; zero
    /// on an axis where the content fits.
    pub fn clamp_offset(&mut self, viewport_width: usize, viewport_height: usize)
        ensures
            final(self).offset_x == Self::clamped(old(self).offset_x as int, old(self).content_width as int, viewport_width as int),
            final(self).offset_y == Self::clamped(old(self).offset_y as int, old(self).content_height as int, viewport_height as int),
            final(self).content_width == old(self).content_width,
            final(self).content_height == old(self).content_height,
            final(self).scroll_by_page == old(self).scroll_by_page,
            final(self).scroll_margin == old(self).scroll_margin,
    {
        if self.content_width > viewport_width {
            let limit = self.content_width - viewport_width;
            if self.offset_x > limit {
                self.offset_x = limit;
            }
        } else {
            self.offset_x = 0;
        }
        if self.content_height > viewport_height {
            let limit = self.content_height - viewport_height;
            if self.offset_y > limit {
                self.offset_y = limit;
            }
        } else {
            self.offset_y = 0;
        }
    }
}

impl Default for ScrollableView {
    fn default() -> (r: Self)
        ensures
            r == Self::new_spec(0, 0),
    {
        ScrollableView::new(0, 0)
    }
}

} // verus!
