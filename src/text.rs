//! Text with a logical alignment resolved against the reading direction.

use crate::bar::{byte_len16, len16};
use crate::escape::cursor_to;
use crate::i18n::TextDirection;
use crate::layout::{sadd, Rect};
use crate::render::{styled_bytes, Renderer};
use vstd::prelude::*;
use vstd::string::StringExecFns;

verus! {

/// Logical alignment.
#[derive(Debug, Clone, Copy, PartialEq, Eq, Structural)]
pub enum TextAlign {
    /// Where reading starts.
    Start,
    /// Where reading ends.
    End,
    Center,
    ForceLeft,
    ForceRight,
}

/// Physical alignment on screen.
#[derive(Debug, Clone, Copy, PartialEq, Eq, Structural)]
pub enum PhysicalAlign {
    Left,
    Center,
    Right,
}

/// Start and end follow the reading direction; the others ignore it.
pub open spec fn resolved(align: TextAlign, direction: TextDirection) -> PhysicalAlign {
    match align {
        TextAlign::Start => if direction == TextDirection::LeftToRight {
            PhysicalAlign::Left
        } else {
            PhysicalAlign::Right
        },
        TextAlign::End => if direction == TextDirection::LeftToRight {
            PhysicalAlign::Right
        } else {
            PhysicalAlign::Left
        },
        TextAlign::Center => PhysicalAlign::Center,
        TextAlign::ForceLeft => PhysicalAlign::Left,
        TextAlign::ForceRight => PhysicalAlign::Right,
    }
}

impl TextAlign {
    /// The physical alignment for a reading direction.
    pub fn resolve(&self, direction: TextDirection) -> (r: PhysicalAlign)
        ensures
            r == resolved(*self, direction),
    {
        match (self, direction) {
            (TextAlign::Start, TextDirection::LeftToRight) => PhysicalAlign::Left,
            (TextAlign::Start, TextDirection::RightToLeft) => PhysicalAlign::Right,
            (TextAlign::End, TextDirection::LeftToRight) => PhysicalAlign::Right,
            (TextAlign::End, TextDirection::RightToLeft) => PhysicalAlign::Left,
            (TextAlign::Center, _) => PhysicalAlign::Center,
            (TextAlign::ForceLeft, _) => PhysicalAlign::Left,
            (TextAlign::ForceRight, _) => PhysicalAlign::Right,
        }
    }
}

/// A run of styled text.
pub struct Text {
    pub content: String,
    /// Escape sequence written before the text.
    pub style: String,
    pub align: TextAlign,
    /// Whether the text changed since it was last drawn.
    pub dirty: bool,
}

impl Text {
    /// Text with no style, aligned at the start, needing a draw.
    pub fn new(content: &str) -> (r: Self)
        ensures
            r.content@ == content@,
            r.style@.len() == 0,
            r.align == TextAlign::Start,
            r.dirty,
    {
        Text { content: String::from_str(content), style: String::new(), align: TextAlign::Start, dirty: true }
    }

    /// Set the style.
    pub fn with_style(self, style: &str) -> (r: Self)
        ensures
            r.style@ == style@,
            r.content@ == self.content@,
            r.align == self.align,
            r.dirty,
    {
        let mut t = self;
        t.style = String::from_str(style);
        t.dirty = true;
        t
    }

    /// Set the alignment.
    pub fn with_align(self, align: TextAlign) -> (r: Self)
        ensures
            r.align == align,
            r.content@ == self.content@,
            r.style@ == self.style@,
            r.dirty,
    {
        let mut t = self;
        t.align = align;
        t.dirty = true;
        t
    }

    /// Replace the text.
    pub fn set_text(&mut self, content: &str)
        ensures
            final(self).content@ == content@,
            final(self).style@ == old(self).style@,
            final(self).align == old(self).align,
            final(self).dirty,
    {
        self.content = String::from_str(content);
        self.dirty = true;
    }

    /// Column where the text starts in `bounds` for a reading direction.
    pub open spec fn start_col(&self, bounds: Rect, direction: TextDirection) -> int {
        let len = len16(self.content@);
        let room: int = if bounds.width >= len { bounds.width - len } else { 0 };
        match resolved(self.align, direction) {
            PhysicalAlign::Left => bounds.x as int,
            PhysicalAlign::Center => sadd(bounds.x as int, room / 2),
            PhysicalAlign::Right => sadd(bounds.x as int, room),
        }
    }

    /// Draw the text on the first row of `bounds`, aligned for the reading
    /// direction; nothing for empty text.
    pub fn render(&mut self, renderer: &mut Renderer, bounds: Rect, direction: TextDirection)
        ensures
            old(self).content@.len() == 0 ==> final(renderer).pending == old(renderer).pending
                && final(self).dirty == old(self).dirty,
            old(self).content@.len() > 0 ==> final(renderer).pending@ == old(renderer).pending@ + cursor_to(
                bounds.y as nat,
                old(self).start_col(bounds, direction) as nat,
            ) + styled_bytes(old(self).style@, old(self).content@) && !final(self).dirty,
            final(self).content == old(self).content,
            final(self).style == old(self).style,
            final(self).align == old(self).align,
    {
        if self.content.as_str().is_empty() {
            return;
        }
        let len = byte_len16(&self.content);
        let x = match self.align.resolve(direction) {
            PhysicalAlign::Left => bounds.x,
            PhysicalAlign::Center => bounds.x.saturating_add(bounds.width.saturating_sub(len) / 2),
            PhysicalAlign::Right => bounds.x.saturating_add(bounds.width.saturating_sub(len)),
        };
        renderer.move_cursor(x, bounds.y);
        renderer.write_in_style(self.content.as_str(), self.style.as_str());
        self.dirty = false;
    }

    /// One row as wide as the text.
    pub fn min_size(&self) -> (r: (u16, u16))
        ensures
            r == (len16(self.content@), 1u16),
    {
        (byte_len16(&self.content), 1)
    }

    /// The text.
    pub fn text(&self) -> (r: &str)
        ensures
            r@ == self.content@,
    {
        self.content.as_str()
    }
}

} // verus!
