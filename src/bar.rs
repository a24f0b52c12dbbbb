//! Content for header and status bars: sizes a slot can take, and the
//! built-in text, badge, spacer, logo, header and title contents.

use crate::escape::cursor_to;
use crate::layout::{sadd, Rect};
use crate::render::{reset_style, styled_bytes, Renderer};
use crate::strings::string_push;
use vstd::utf8::encode_utf8;
use crate::i18n::TextDirection;
use crate::text::{resolved, PhysicalAlign, Text, TextAlign};
use crate::text_input::utf8_len;
use vstd::prelude::*;
use vstd::string::{StringExecFns, StringSliceAdditionalSpecFns};

verus! {

/// A width a slot can take.
#[derive(Debug, Clone, Copy, PartialEq, Eq, Structural)]
pub enum SlotSize {
    /// Exactly this many cells.
    Blocks(u16),
    /// This percentage of the bar.
    Percent(u8),
    /// What is left.
    Fill,
}

/// Byte length of a string's UTF-8 encoding, truncated to 16 bits.
pub open spec fn len16(s: Seq<char>) -> u16 {
    (vstd::utf8::encode_utf8(s).len() as usize) as u16
}

/// Byte length of a string, truncated to 16 bits.
pub(crate) fn byte_len16(s: &String) -> (r: u16)
    ensures
        r == len16(s@),
{
    let t = s.as_str();
    let n = t.len();
    assert(t.spec_bytes() == vstd::utf8::encode_utf8(s@));
    n as u16
}

/// Text in a slot.
pub struct TextSlot {
    pub text: String,
    pub align: TextAlign,
    pub style: String,
    /// Width the slot always takes, if fixed.
    pub fixed_width: Option<u16>,
    pub dirty: bool,
}

impl TextSlot {
    /// Unstyled text aligned at the start, flexible width.
    pub fn new(text: &str) -> (r: Self)
        ensures
            r.text@ == text@,
            r.align == TextAlign::Start,
            r.style@.len() == 0,
            r.fixed_width is None,
            r.dirty,
    {
        TextSlot {
            text: String::from_str(text),
            align: TextAlign::Start,
            style: String::new(),
            fixed_width: None,
            dirty: true,
        }
    }

    /// Set the alignment.
    pub fn with_align(self, align: TextAlign) -> (r: Self)
        ensures
            r.align == align,
            r.text == self.text,
            r.fixed_width == self.fixed_width,
    {
        let mut s = self;
        s.align = align;
        s
    }

    /// Set the style.
    pub fn with_style(self, style: &str) -> (r: Self)
        ensures
            r.style@ == style@,
            r.text == self.text,
            r.align == self.align,
            r.fixed_width == self.fixed_width,
    {
        let mut s = self;
        s.style = String::from_str(style);
        s
    }

    /// Always take `width` cells.
    pub fn with_fixed_width(self, width: u16) -> (r: Self)
        ensures
            r.fixed_width == Some(width),
            r.text == self.text,
            r.align == self.align,
    {
        let mut s = self;
        s.fixed_width = Some(width);
        s
    }

    /// Replace the text.
    pub fn set_text(&mut self, text: &str)
        ensures
            final(self).text@ == text@,
            final(self).dirty,
            final(self).align == old(self).align,
            final(self).fixed_width == old(self).fixed_width,
    {
        self.text = String::from_str(text);
        self.dirty = true;
    }

    /// The text.
    pub fn text(&self) -> (r: &str)
        ensures
            r@ == self.text@,
    {
        self.text.as_str()
    }

    /// Widths the slot can take, preferred first: the fixed width, else
    /// filling or just the text.
    pub fn responsive_sizes(&self) -> (r: Vec<SlotSize>)
        ensures
            r@ == match self.fixed_width {
                Some(w) => seq![SlotSize::Blocks(w)],
                None => seq![SlotSize::Fill, SlotSize::Blocks(len16(self.text@))],
            },
    {
        match self.fixed_width {
            Some(w) => {
                let mut v: Vec<SlotSize> = Vec::new();
                v.push(SlotSize::Blocks(w));
                assert(v@ =~= seq![SlotSize::Blocks(w)]);
                v
            },
            None => {
                let n = byte_len16(&self.text);
                let mut v: Vec<SlotSize> = Vec::new();
                v.push(SlotSize::Fill);
                v.push(SlotSize::Blocks(n));
                assert(v@ =~= seq![SlotSize::Fill, SlotSize::Blocks(len16(self.text@))]);
                v
            },
        }
    }

    /// Number of leading characters from `k` on whose encoding fits in `w` bytes.
    pub open spec fn fit(s: Seq<char>, w: nat, k: nat) -> nat
        decreases s.len() - k,
    {
        if k < s.len() && utf8_len(s.subrange(0, k + 1 as int)) <= w {
            Self::fit(s, w, k + 1)
        } else {
            k
        }
    }

    /// The text shown in `width` cells: all of it when its bytes fit, else
    /// the longest run of leading characters whose bytes fit.
    pub open spec fn shown(&self, width: u16) -> Seq<char> {
        if len16(self.text@) > width {
            self.text@.subrange(0, Self::fit(self.text@, width as nat, 0) as int)
        } else {
            self.text@
        }
    }

    /// Column where the shown text starts in `bounds`.
    pub open spec fn start_col(&self, bounds: Rect, direction: TextDirection) -> int {
        let len = len16(self.shown(bounds.width));
        let room: int = if bounds.width >= len { bounds.width - len } else { 0 };
        match resolved(self.align, direction) {
            PhysicalAlign::Left => bounds.x as int,
            PhysicalAlign::Center => sadd(bounds.x as int, room / 2),
            PhysicalAlign::Right => sadd(bounds.x as int, room),
        }
    }

    /// What `render` writes.
    pub open spec fn render_bytes(&self, bounds: Rect, direction: TextDirection) -> Seq<u8> {
        if bounds.width == 0 {
            Seq::empty()
        } else {
            cursor_to(bounds.y as nat, self.start_col(bounds, direction) as nat) + styled_bytes(
                self.style@,
                self.shown(bounds.width),
            )
        }
    }

    /// Draw the text in `bounds`, cut to fit and aligned for the reading
    /// direction; nothing without room.
    pub fn render(&mut self, renderer: &mut Renderer, bounds: Rect, direction: TextDirection)
        ensures
            final(renderer).pending@ == old(renderer).pending@ + old(self).render_bytes(bounds, direction),
            final(renderer).dirty == old(renderer).dirty,
            bounds.width > 0 ==> !final(self).dirty,
            final(self).text == old(self).text,
            final(self).style == old(self).style,
            final(self).align == old(self).align,
            final(self).fixed_width == old(self).fixed_width,
    {
        if bounds.width == 0 {
            return;
        }
        let display: String = if byte_len16(&self.text) > bounds.width {
            let n = self.text.as_str().unicode_len();
            let w = bounds.width as usize;
            let mut k: usize = 0;
            let mut bytes: usize = 0;
            let mut out = String::new();
            let ghost s = self.text@;
            let mut done = false;
            while k < n && !done
                invariant
                    n == s.len(),
                    s == self.text@,
                    k <= n,
                    w == bounds.width,
                    bytes == utf8_len(s.subrange(0, k as int)),
                    bytes <= w,
                    out@ == s.subrange(0, k as int),
                    Self::fit(s, w as nat, 0) == Self::fit(s, w as nat, k as nat),
                    done ==> k < n && utf8_len(s.subrange(0, k + 1)) > w,
                decreases n - k, if done { 0int } else { 1int },
            {
                let c = self.text.as_str().get_char(k);
                let cw: usize = if (c as u32) < 0x80 { 1 } else if (c as u32) < 0x800 { 2 } else if (c as u32) < 0x10000 { 3 } else { 4 };
                proof {
                    assert(s.subrange(0, k + 1).drop_last() =~= s.subrange(0, k as int));
                }
                if bytes + cw <= w {
                    bytes = bytes + cw;
                    string_push(&mut out, c);
                    k = k + 1;
                    assert(out@ =~= s.subrange(0, k as int));
                } else {
                    done = true;
                }
            }
            proof {
                if k < n {
                    assert(s.subrange(0, k + 1).drop_last() =~= s.subrange(0, k as int));
                }
            }
            out
        } else {
            String::from_str(self.text.as_str())
        };
        let len = byte_len16(&display);
        let x = match self.align.resolve(direction) {
            PhysicalAlign::Left => bounds.x,
            PhysicalAlign::Center => bounds.x.saturating_add(bounds.width.saturating_sub(len) / 2),
            PhysicalAlign::Right => bounds.x.saturating_add(bounds.width.saturating_sub(len)),
        };
        renderer.move_cursor(x, bounds.y);
        renderer.write_in_style(display.as_str(), self.style.as_str());
        self.dirty = false;
    }

    /// Text slots may be hidden when space runs out.
    pub fn can_hide(&self) -> (r: bool)
        ensures
            r,
    {
        true
    }

    /// One row as wide as the text.
    pub fn min_size(&self) -> (r: (u16, u16))
        ensures
            r == (len16(self.text@), 1u16),
    {
        (byte_len16(&self.text), 1)
    }
}

/// Padded, styled text.
pub struct Badge {
    pub text: String,
    pub style: String,
    /// Spaces on each side.
    pub padding: u16,
    pub dirty: bool,
}

impl Badge {
    /// Inverse-video text with one space on each side.
    pub fn new(text: &str) -> (r: Self)
        ensures
            r.text@ == text@,
            r.style@ == "\x1b[7m"@,
            r.padding == 1,
            r.dirty,
    {
        Badge { text: String::from_str(text), style: String::from_str("\x1b[7m"), padding: 1, dirty: true }
    }

    /// Set the style.
    pub fn with_style(self, style: &str) -> (r: Self)
        ensures
            r.style@ == style@,
            r.text == self.text,
            r.padding == self.padding,
    {
        let mut s = self;
        s.style = String::from_str(style);
        s
    }

    /// Set the padding.
    pub fn with_padding(self, padding: u16) -> (r: Self)
        ensures
            r.padding == padding,
            r.text == self.text,
            r.style == self.style,
    {
        let mut s = self;
        s.padding = padding;
        s
    }

    /// Cells taken: the text and the padding on both sides.
    pub fn total_width(&self) -> (r: u16)
        requires
            len16(self.text@) + 2 * self.padding <= u16::MAX,
        ensures
            r == len16(self.text@) + 2 * self.padding,
    {
        byte_len16(&self.text) + self.padding * 2
    }

    /// A badge always takes its full width.
    pub fn responsive_sizes(&self) -> (r: Vec<SlotSize>)
        requires
            len16(self.text@) + 2 * self.padding <= u16::MAX,
        ensures
            r@ == seq![SlotSize::Blocks((len16(self.text@) + 2 * self.padding) as u16)],
    {
        let mut v: Vec<SlotSize> = Vec::new();
        v.push(SlotSize::Blocks(self.total_width()));
        assert(v@ =~= seq![SlotSize::Blocks((len16(self.text@) + 2 * self.padding) as u16)]);
        v
    }

    /// The padded text: `padding` spaces on each side.
    pub open spec fn padded(&self) -> Seq<char> {
        Seq::new(self.padding as nat, |i: int| ' ') + self.text@ + Seq::new(self.padding as nat, |i: int| ' ')
    }

    /// Draw the padded text in the badge's style at the corner of `bounds`.
    pub fn render(&mut self, renderer: &mut Renderer, bounds: Rect)
        ensures
            final(renderer).pending@ == old(renderer).pending@ + cursor_to(bounds.y as nat, bounds.x as nat)
                + encode_utf8(old(self).style@) + encode_utf8(old(self).padded()) + reset_style(),
            final(renderer).dirty == old(renderer).dirty,
            !final(self).dirty,
            final(self).text == old(self).text,
            final(self).style == old(self).style,
            final(self).padding == old(self).padding,
    {
        let mut full = String::new();
        let mut i: u16 = 0;
        while i < self.padding
            invariant
                i <= self.padding,
                full@ == Seq::new(i as nat, |k: int| ' '),
            decreases self.padding - i,
        {
            string_push(&mut full, ' ');
            i = i + 1;
            assert(full@ =~= Seq::new(i as nat, |k: int| ' '));
        }
        let mut j: usize = 0;
        let n = self.text.as_str().unicode_len();
        while j < n
            invariant
                n == self.text@.len(),
                j <= n,
                full@ == Seq::new(self.padding as nat, |k: int| ' ') + self.text@.subrange(0, j as int),
            decreases n - j,
        {
            string_push(&mut full, self.text.as_str().get_char(j));
            j = j + 1;
            assert(full@ =~= Seq::new(self.padding as nat, |k: int| ' ') + self.text@.subrange(0, j as int));
        }
        let mut k: u16 = 0;
        while k < self.padding
            invariant
                k <= self.padding,
                n == self.text@.len(),
                full@ == Seq::new(self.padding as nat, |q: int| ' ') + self.text@ + Seq::new(k as nat, |q: int| ' '),
            decreases self.padding - k,
        {
            string_push(&mut full, ' ');
            k = k + 1;
            assert(full@ =~= Seq::new(self.padding as nat, |q: int| ' ') + self.text@ + Seq::new(k as nat, |q: int| ' '));
        }
        assert(self.text@.subrange(0, n as int) =~= self.text@);
        renderer.move_cursor(bounds.x, bounds.y);
        renderer.write_styled(full.as_str(), self.style.as_str());
        self.dirty = false;
    }

    /// Badges are never hidden.
    pub fn can_hide(&self) -> (r: bool)
        ensures
            !r,
    {
        false
    }
}

/// Empty space that takes what is left.
#[derive(Debug, Clone, Copy, PartialEq, Eq, Structural)]
pub struct Spacer;

impl Spacer {
    /// A spacer.
    pub fn new() -> (r: Self)
        ensures
            r == Spacer,
    {
        Spacer
    }

    /// A spacer fills.
    pub fn responsive_sizes(&self) -> (r: Vec<SlotSize>)
        ensures
            r@ == seq![SlotSize::Fill],
    {
        let mut v: Vec<SlotSize> = Vec::new();
        v.push(SlotSize::Fill);
        assert(v@ =~= seq![SlotSize::Fill]);
        v
    }
}

impl Default for Spacer {
    fn default() -> (r: Self)
        ensures
            r == Spacer,
    {
        Spacer
    }
}

/// A styled name badge.
pub struct Logo {
    pub text: String,
    pub dirty: bool,
}

impl Logo {
    /// A logo showing `text`.
    pub fn new(text: &str) -> (r: Self)
        ensures
            r.text@ == text@,
            r.dirty,
    {
        Logo { text: String::from_str(text), dirty: true }
    }
}

impl Logo {
    /// Cells the padded logo takes (its bytes, truncated to 16 bits).
    pub open spec fn padded_len(&self) -> u16 {
        (encode_utf8(seq![' '] + self.text@ + seq![' ']).len() as usize) as u16
    }

    /// Draw ` TEXT ` black on white, right-aligned in `bounds`; nothing
    /// without text or room.
    pub fn render(&mut self, renderer: &mut Renderer, bounds: Rect)
        ensures
            old(self).text@.len() == 0 || bounds.width == 0 ==> final(renderer).pending == old(renderer).pending
                && final(self).dirty == old(self).dirty,
            old(self).text@.len() > 0 && bounds.width > 0 ==> final(renderer).pending@ == old(renderer).pending@
                + cursor_to(bounds.y as nat, sadd(bounds.x as int, if bounds.width >= old(self).padded_len() {
                    bounds.width - old(self).padded_len()
                } else {
                    0
                }) as nat) + encode_utf8("\x1b[47;30m"@) + encode_utf8(seq![' '] + old(self).text@ + seq![' '])
                + reset_style() + encode_utf8("\x1b[0m"@) && !final(self).dirty,
    {
        if self.text.as_str().unicode_len() == 0 || bounds.width == 0 {
            return;
        }
        let mut padded = String::new();
        string_push(&mut padded, ' ');
        padded.append(self.text.as_str());
        string_push(&mut padded, ' ');
        assert(padded@ =~= seq![' '] + self.text@ + seq![' ']);
        let content_len = byte_len16(&padded);
        let x = bounds.x.saturating_add(bounds.width.saturating_sub(content_len));
        renderer.move_cursor(x, bounds.y);
        renderer.write_styled(padded.as_str(), "\x1b[47;30m");
        renderer.write_text("\x1b[0m");
        self.dirty = false;
    }
}

/// The application header: its logo.
pub struct Header {
    pub logo: Logo,
}

impl Header {
    /// A header with the application's logo.
    pub fn new() -> (r: Self)
        ensures
            r.logo.text@ == "PONDER"@,
            r.logo.dirty,
    {
        Header { logo: Logo::new("PONDER") }
    }

    /// Draw the logo.
    pub fn render(&mut self, renderer: &mut Renderer, bounds: Rect)
        ensures
            old(self).logo.text@.len() == 0 || bounds.width == 0 ==> final(renderer).pending == old(renderer).pending,
            old(self).logo.text@.len() > 0 && bounds.width > 0 ==> final(renderer).pending@ == old(renderer).pending@
                + cursor_to(bounds.y as nat, sadd(bounds.x as int, if bounds.width >= old(self).logo.padded_len() {
                    bounds.width - old(self).logo.padded_len()
                } else {
                    0
                }) as nat) + encode_utf8("\x1b[47;30m"@) + encode_utf8(seq![' '] + old(self).logo.text@ + seq![' '])
                + reset_style() + encode_utf8("\x1b[0m"@),
    {
        self.logo.render(renderer, bounds);
    }
}

/// Centered header text.
pub struct Title {
    pub inner: Text,
}

impl Title {
    /// Centered text in the given style.
    pub fn with_style(content: &str, style: &str) -> (r: Self)
        ensures
            r.inner.content@ == content@,
            r.inner.style@ == style@,
            r.inner.align == TextAlign::Center,
    {
        Title { inner: Text::new(content).with_align(TextAlign::Center).with_style(style) }
    }

    /// Draw the centred text.
    pub fn render(&mut self, renderer: &mut Renderer, bounds: Rect, direction: TextDirection)
        ensures
            old(self).inner.content@.len() == 0 ==> final(renderer).pending == old(renderer).pending,
            old(self).inner.content@.len() > 0 ==> final(renderer).pending@ == old(renderer).pending@ + cursor_to(
                bounds.y as nat,
                old(self).inner.start_col(bounds, direction) as nat,
            ) + styled_bytes(old(self).inner.style@, old(self).inner.content@),
    {
        self.inner.render(renderer, bounds, direction);
    }

    /// Replace the text.
    pub fn set_text(&mut self, content: &str)
        ensures
            final(self).inner.content@ == content@,
            final(self).inner.align == old(self).inner.align,
            final(self).inner.style@ == old(self).inner.style@,
    {
        self.inner.set_text(content);
    }

    /// The text.
    pub fn text(&self) -> (r: &str)
        ensures
            r@ == self.inner.content@,
    {
        self.inner.text()
    }
}

/// What the bar knows of one slot's content when sharing out its width.
#[derive(Debug, Clone)]
pub struct SlotSpec {
    /// Higher priorities are served first and hidden last.
    pub priority: u16,
    /// Widths the content can take, preferred first.
    pub sizes: Vec<SlotSize>,
    /// Whether the slot may be hidden when nothing fits.
    pub can_hide: bool,
}

/// Width of a non-filling size on a bar `avail` cells wide.
pub open spec fn fixed_width(size: SlotSize, avail: u16) -> int {
    match size {
        SlotSize::Blocks(b) => b as int,
        SlotSize::Percent(p) => ((avail as int * p as int) / 100) as u16 as int,
        SlotSize::Fill => 0,
    }
}

/// The size slot `vis[k]` takes under the choice of size indices `choice`.
pub open spec fn chosen(specs: Seq<SlotSpec>, vis: Seq<usize>, choice: Seq<usize>, k: int) -> SlotSize {
    specs[vis[k] as int].sizes@[choice[k] as int]
}

/// Cells taken by the non-filling slots among the first `k`, saturating.
pub open spec fn used_width(specs: Seq<SlotSpec>, vis: Seq<usize>, choice: Seq<usize>, k: int, avail: u16) -> int
    decreases k,
{
    if k <= 0 {
        0
    } else {
        let s = chosen(specs, vis, choice, k - 1);
        let prev = used_width(specs, vis, choice, k - 1, avail);
        if s is Fill {
            prev
        } else {
            sadd(prev, fixed_width(s, avail))
        }
    }
}

/// Number of filling slots among the first `k`.
pub open spec fn fill_count(specs: Seq<SlotSpec>, vis: Seq<usize>, choice: Seq<usize>, k: int) -> int
    decreases k,
{
    if k <= 0 {
        0
    } else {
        fill_count(specs, vis, choice, k - 1) + if chosen(specs, vis, choice, k - 1) is Fill {
            1int
        } else {
            0
        }
    }
}

/// Whether the choice fits: the non-filling slots take no more than the bar.
pub open spec fn fits(specs: Seq<SlotSpec>, vis: Seq<usize>, choice: Seq<usize>, avail: u16) -> bool {
    used_width(specs, vis, choice, vis.len() as int, avail) <= avail
}

/// Width of slot `vis[k]` under a fitting choice: its fixed width, or an
/// equal share of what is left, the first filling slot also taking the rest
/// of the division.
pub open spec fn slot_width(specs: Seq<SlotSpec>, vis: Seq<usize>, choice: Seq<usize>, k: int, avail: u16) -> u16 {
    let s = chosen(specs, vis, choice, k);
    if s is Fill {
        let rem = avail - used_width(specs, vis, choice, vis.len() as int, avail);
        let nf = fill_count(specs, vis, choice, vis.len() as int);
        (rem / nf + if fill_count(specs, vis, choice, k) == 0 { rem % nf } else { 0 }) as u16
    } else {
        fixed_width(s, avail) as u16
    }
}

/// Every visible slot is a valid position offering at least one size.
pub open spec fn specs_ok(specs: Seq<SlotSpec>, vis: Seq<usize>) -> bool {
    forall|k: int| 0 <= k < vis.len() ==> #[trigger] vis[k] < specs.len() && specs[vis[k] as int].sizes@.len() > 0
}

/// The first `prefix.len()` entries choose a size of each slot.
pub open spec fn prefix_ok(specs: Seq<SlotSpec>, vis: Seq<usize>, prefix: Seq<usize>) -> bool {
    prefix.len() <= vis.len() && forall|k: int| 0 <= k < prefix.len() ==> #[trigger] prefix[k] < specs[vis[k] as int].sizes@.len()
}

/// The first fitting choice that extends `prefix`, trying each slot's sizes
/// in order of preference: the lexicographically first fitting choice.
pub open spec fn first_fit(specs: Seq<SlotSpec>, vis: Seq<usize>, prefix: Seq<usize>, avail: u16) -> Option<Seq<usize>>
    decreases vis.len() - prefix.len(), 1int, 0int,
{
    if prefix.len() >= vis.len() {
        if fits(specs, vis, prefix, avail) {
            Some(prefix)
        } else {
            None
        }
    } else {
        first_fit_from(specs, vis, prefix, 0, avail)
    }
}

/// `first_fit` with the next slot's size index at least `c`.
pub open spec fn first_fit_from(specs: Seq<SlotSpec>, vis: Seq<usize>, prefix: Seq<usize>, c: int, avail: u16) -> Option<Seq<usize>>
    decreases vis.len() - prefix.len(), 0int, specs[vis[prefix.len() as int] as int].sizes@.len() - c,
{
    if prefix.len() >= vis.len() || c < 0 || c >= specs[vis[prefix.len() as int] as int].sizes@.len() {
        None
    } else {
        match first_fit(specs, vis, prefix.push(c as usize), avail) {
            Some(x) => Some(x),
            None => first_fit_from(specs, vis, prefix, c + 1, avail),
        }
    }
}

/// Position of `i` in `vis`, or -1.
pub open spec fn pos_of(vis: Seq<usize>, i: usize) -> int
    decreases vis.len(),
{
    if vis.len() == 0 {
        -1
    } else if pos_of(vis.drop_last(), i) >= 0 {
        pos_of(vis.drop_last(), i)
    } else if vis.last() == i {
        vis.len() - 1
    } else {
        -1
    }
}

/// `(index, width)` of the visible slots among the first `m` indices, by index.
pub open spec fn widths_by_index(specs: Seq<SlotSpec>, vis: Seq<usize>, choice: Seq<usize>, m: int, avail: u16) -> Seq<(usize, u16)>
    decreases m,
{
    if m <= 0 {
        Seq::empty()
    } else {
        let k = pos_of(vis, (m - 1) as usize);
        widths_by_index(specs, vis, choice, m - 1, avail) + if k >= 0 {
            seq![((m - 1) as usize, slot_width(specs, vis, choice, k, avail))]
        } else {
            Seq::empty()
        }
    }
}

/// Position of the last hideable slot among the first `k`, or -1.
pub open spec fn last_hideable(specs: Seq<SlotSpec>, vis: Seq<usize>, k: int) -> int
    decreases k,
{
    if k <= 0 {
        -1
    } else if specs[vis[k - 1] as int].can_hide {
        k - 1
    } else {
        last_hideable(specs, vis, k - 1)
    }
}

/// Widths for the visible slots `vis` (highest priority first): the first
/// fitting choice of sizes; when none fits, the lowest-priority hideable slot
/// is hidden and the rest tried again; when none can hide, every visible
/// slot gets width 0.
pub open spec fn allocate(specs: Seq<SlotSpec>, vis: Seq<usize>, avail: u16) -> Seq<(usize, u16)>
    decreases vis.len(),
{
    match first_fit(specs, vis, Seq::empty(), avail) {
        Some(choice) => widths_by_index(specs, vis, choice, specs.len() as int, avail),
        None => {
            let p = last_hideable(specs, vis, vis.len() as int);
            if 0 <= p < vis.len() {
                allocate(specs, vis.remove(p), avail)
            } else {
                vis.map_values(|i: usize| (i, 0u16))
            }
        },
    }
}

/// Slot indices `s` with `x` inserted after every slot of at least its priority.
pub open spec fn ins_prio(specs: Seq<SlotSpec>, s: Seq<usize>, x: usize) -> Seq<usize>
    decreases s.len(),
{
    if s.len() == 0 {
        seq![x]
    } else if specs[s.last() as int].priority >= specs[x as int].priority {
        s.push(x)
    } else {
        ins_prio(specs, s.drop_last(), x).push(s.last())
    }
}

/// Slot indices `0..k` by descending priority, equal priorities in order.
pub open spec fn by_priority(specs: Seq<SlotSpec>, k: int) -> Seq<usize>
    decreases k,
{
    if k <= 0 {
        Seq::empty()
    } else {
        ins_prio(specs, by_priority(specs, k - 1), (k - 1) as usize)
    }
}

/// How wide each slot is on a bar `available` cells wide: slots are served
/// by descending priority as `allocate` says; the result lists the shown
/// slots by index, or all the visible ones at width 0 when nothing fits.
pub open spec fn bar_widths(specs: Seq<SlotSpec>, available: u16) -> Seq<(usize, u16)> {
    if specs.len() == 0 {
        Seq::empty()
    } else {
        allocate(specs, by_priority(specs, specs.len() as int), available)
    }
}

proof fn lemma_fill_count_grows(specs: Seq<SlotSpec>, vis: Seq<usize>, choice: Seq<usize>, k: int, n: int)
    requires
        0 <= k < n,
        chosen(specs, vis, choice, k) is Fill,
    ensures
        fill_count(specs, vis, choice, n) >= fill_count(specs, vis, choice, k) + 1,
    decreases n - k,
{
    if n > k + 1 {
        lemma_fill_count_grows(specs, vis, choice, k, n - 1);
    }
}

proof fn lemma_pos_found(vis: Seq<usize>, i: usize, j: int)
    requires
        0 <= j < vis.len(),
        vis[j] == i,
        pos_of(vis.subrange(0, j), i) < 0,
    ensures
        pos_of(vis, i) == j,
    decreases vis.len() - j,
{
    if j + 1 == vis.len() {
        assert(vis.drop_last() =~= vis.subrange(0, j));
    } else {
        assert(vis.subrange(0, j + 1).drop_last() =~= vis.subrange(0, j));
        lemma_pos_keep(vis, i, j + 1);
    }
}

proof fn lemma_pos_keep(vis: Seq<usize>, i: usize, m: int)
    requires
        0 < m <= vis.len(),
        pos_of(vis.subrange(0, m), i) >= 0,
    ensures
        pos_of(vis, i) == pos_of(vis.subrange(0, m), i),
    decreases vis.len() - m,
{
    if m < vis.len() {
        assert(vis.subrange(0, m + 1).drop_last() =~= vis.subrange(0, m));
        lemma_pos_keep(vis, i, m + 1);
    } else {
        assert(vis.subrange(0, m) =~= vis);
    }
}

fn copy_indices(v: &Vec<usize>) -> (r: Vec<usize>)
    ensures
        r@ == v@,
{
    let mut out: Vec<usize> = Vec::new();
    let mut i: usize = 0;
    while i < v.len()
        invariant
            i <= v@.len(),
            out@ == v@.subrange(0, i as int),
        decreases v@.len() - i,
    {
        out.push(v[i]);
        i = i + 1;
        assert(out@ =~= v@.subrange(0, i as int));
    }
    assert(v@.subrange(0, v@.len() as int) =~= v@);
    out
}

fn used_and_fills(specs: &[SlotSpec], vis: &Vec<usize>, choice: &Vec<usize>, avail: u16, k: usize) -> (r: (u16, usize))
    requires
        specs_ok(specs@, vis@),
        prefix_ok(specs@, vis@, choice@),
        k <= choice@.len(),
    ensures
        r.0 == used_width(specs@, vis@, choice@, k as int, avail),
        r.1 == fill_count(specs@, vis@, choice@, k as int),
{
    let mut used: u16 = 0;
    let mut fills: usize = 0;
    let mut j: usize = 0;
    while j < k
        invariant
            j <= k <= choice@.len() <= vis@.len(),
            specs_ok(specs@, vis@),
            prefix_ok(specs@, vis@, choice@),
            used == used_width(specs@, vis@, choice@, j as int, avail),
            fills == fill_count(specs@, vis@, choice@, j as int),
            fills <= j,
        decreases k - j,
    {
        let size = specs[vis[j]].sizes[choice[j]];
        match size {
            SlotSize::Fill => {
                fills = fills + 1;
            },
            SlotSize::Blocks(b) => {
                used = used.saturating_add(b);
            },
            SlotSize::Percent(p) => {
                assert(avail as int * p as int <= 65535 * 255) by (nonlinear_arith)
                    requires
                        avail <= 65535,
                        p <= 255,
                ;
                let w = ((avail as u32 * p as u32) / 100) as u16;
                used = used.saturating_add(w);
            },
        }
        j = j + 1;
    }
    (used, fills)
}

fn search(specs: &[SlotSpec], vis: &Vec<usize>, prefix: Vec<usize>, avail: u16) -> (r: Option<Vec<usize>>)
    requires
        specs_ok(specs@, vis@),
        prefix_ok(specs@, vis@, prefix@),
    ensures
        match r {
            Some(v) => first_fit(specs@, vis@, prefix@, avail) == Some(v@) && v@.len() == vis@.len()
                && prefix_ok(specs@, vis@, v@) && fits(specs@, vis@, v@, avail),
            None => first_fit(specs@, vis@, prefix@, avail) is None,
        },
    decreases vis@.len() - prefix@.len(),
{
    if prefix.len() >= vis.len() {
        let (used, _) = used_and_fills(specs, vis, &prefix, avail, vis.len());
        if used <= avail {
            Some(prefix)
        } else {
            None
        }
    } else {
        let n = specs[vis[prefix.len()]].sizes.len();
        let mut c: usize = 0;
        while c < n
            invariant
                prefix@.len() < vis@.len(),
                specs_ok(specs@, vis@),
                prefix_ok(specs@, vis@, prefix@),
                n == specs@[vis@[prefix@.len() as int] as int].sizes@.len(),
                c <= n,
                first_fit(specs@, vis@, prefix@, avail) == first_fit_from(specs@, vis@, prefix@, c as int, avail),
            decreases n - c,
        {
            let mut next = copy_indices(&prefix);
            next.push(c);
            assert(prefix_ok(specs@, vis@, next@)) by {
                assert forall|k: int| 0 <= k < next@.len() implies #[trigger] next@[k] < specs@[vis@[k] as int].sizes@.len() by {
                    if k < prefix@.len() {
                        assert(next@[k] == prefix@[k]);
                    }
                }
            }
            assert(next@ == prefix@.push(c));
            match search(specs, vis, next, avail) {
                Some(x) => {
                    return Some(x);
                },
                None => {},
            }
            c = c + 1;
        }
        None
    }
}

fn widths_sorted(specs: &[SlotSpec], vis: &Vec<usize>, choice: &Vec<usize>, avail: u16) -> (r: Vec<(usize, u16)>)
    requires
        specs_ok(specs@, vis@),
        prefix_ok(specs@, vis@, choice@),
        choice@.len() == vis@.len(),
        fits(specs@, vis@, choice@, avail),
    ensures
        r@ == widths_by_index(specs@, vis@, choice@, specs@.len() as int, avail),
{
    let (used, nf) = used_and_fills(specs, vis, choice, avail, vis.len());
    let rem: u16 = avail - used;
    let mut out: Vec<(usize, u16)> = Vec::new();
    let mut m: usize = 0;
    while m < specs.len()
        invariant
            m <= specs@.len(),
            specs_ok(specs@, vis@),
            prefix_ok(specs@, vis@, choice@),
            choice@.len() == vis@.len(),
            used == used_width(specs@, vis@, choice@, vis@.len() as int, avail),
            nf == fill_count(specs@, vis@, choice@, vis@.len() as int),
            used <= avail,
            rem == avail - used,
            out@ == widths_by_index(specs@, vis@, choice@, m as int, avail),
        decreases specs@.len() - m,
    {
        let mut j: usize = 0;
        let mut found: Option<usize> = None;
        while j < vis.len() && found.is_none()
            invariant
                j <= vis@.len(),
                match found {
                    Some(k) => k < vis@.len() && pos_of(vis@, m) == k,
                    None => pos_of(vis@.subrange(0, j as int), m) < 0,
                },
            decreases vis@.len() - j,
        {
            proof {
                assert(vis@.subrange(0, j + 1).drop_last() =~= vis@.subrange(0, j as int));
            }
            if vis[j] == m {
                proof {
                    lemma_pos_found(vis@, m, j as int);
                }
                found = Some(j);
            }
            j = j + 1;
        }
        proof {
            if found is None {
                assert(vis@.subrange(0, vis@.len() as int) =~= vis@);
            }
        }
        match found {
            Some(k) => {
                let size = specs[vis[k]].sizes[choice[k]];
                let w: u16 = match size {
                    SlotSize::Fill => {
                        let (_, before) = used_and_fills(specs, vis, choice, avail, k);
                        proof {
                            lemma_fill_count_grows(specs@, vis@, choice@, k as int, vis@.len() as int);
                        }
                        let share: usize = rem as usize / nf;
                        let extra: usize = if before == 0 { rem as usize % nf } else { 0 };
                        assert(share + rem as usize % nf <= rem) by (nonlinear_arith)
                            requires
                                share == rem as usize / nf,
                                nf >= 1,
                        ;
                        (share + extra) as u16
                    },
                    SlotSize::Blocks(b) => b,
                    SlotSize::Percent(p) => {
                        assert(avail as int * p as int <= 65535 * 255) by (nonlinear_arith)
                            requires
                                avail <= 65535,
                                p <= 255,
                        ;
                        ((avail as u32 * p as u32) / 100) as u16
                    },
                };
                out.push((m, w));
            },
            None => {},
        }
        m = m + 1;
        assert(out@ =~= widths_by_index(specs@, vis@, choice@, m as int, avail));
    }
    out
}

/// How wide each slot is on a bar `available` cells wide (see `bar_widths`).
pub fn calculate_widths(slots: &[SlotSpec], available: u16) -> (r: Vec<(usize, u16)>)
    requires
        forall|i: int| 0 <= i < slots@.len() ==> (#[trigger] slots@[i]).sizes@.len() > 0,
    ensures
        r@ == bar_widths(slots@, available),
{
    let n = slots.len();
    if n == 0 {
        return Vec::new();
    }
    let mut order: Vec<usize> = Vec::new();
    let mut k: usize = 0;
    while k < n
        invariant
            n == slots@.len(),
            k <= n,
            order@ == by_priority(slots@, k as int),
            forall|j: int| 0 <= j < order@.len() ==> #[trigger] order@[j] < k,
        decreases n - k,
    {
        let pk = slots[k].priority;
        let mut p: usize = order.len();
        let ghost base = order@;
        assert(base.subrange(0, base.len() as int) =~= base);
        assert(base.subrange(base.len() as int, base.len() as int) =~= Seq::<usize>::empty());
        while p > 0 && slots[order[p - 1]].priority < pk
            invariant
                p <= order@.len(),
                k < n,
                n == slots@.len(),
                pk == slots@[k as int].priority,
                base == order@,
                forall|j: int| 0 <= j < order@.len() ==> #[trigger] order@[j] < k,
                ins_prio(slots@, base, k) == ins_prio(slots@, base.subrange(0, p as int), k) + base.subrange(p as int, base.len() as int),
            decreases p,
        {
            proof {
                let pre = base.subrange(0, p as int);
                assert(pre.drop_last() =~= base.subrange(0, p - 1));
                assert(base.subrange(p - 1, base.len() as int) =~= seq![pre.last()] + base.subrange(p as int, base.len() as int));
            }
            p = p - 1;
        }
        proof {
            let pre = base.subrange(0, p as int);
            assert(ins_prio(slots@, pre, k) =~= pre.push(k));
        }
        order.insert(p, k);
        proof {
            assert(order@ =~= base.subrange(0, p as int).push(k) + base.subrange(p as int, base.len() as int));
        }
        k = k + 1;
    }
    let ghost start = order@;
    let mut vis = order;
    loop
        invariant
            specs_ok(slots@, vis@),
            allocate(slots@, vis@, available) == allocate(slots@, start, available),
            start == by_priority(slots@, n as int),
            n == slots@.len(),
        decreases vis@.len(),
    {
        match search(slots, &vis, Vec::new(), available) {
            Some(choice) => {
                return widths_sorted(slots, &vis, &choice, available);
            },
            None => {
                let mut q: usize = vis.len();
                while q > 0 && !slots[vis[q - 1]].can_hide
                    invariant
                        q <= vis@.len(),
                        specs_ok(slots@, vis@),
                        last_hideable(slots@, vis@, vis@.len() as int) == last_hideable(slots@, vis@, q as int),
                    decreases q,
                {
                    q = q - 1;
                }
                if q == 0 {
                    let mut out: Vec<(usize, u16)> = Vec::new();
                    let mut j: usize = 0;
                    while j < vis.len()
                        invariant
                            j <= vis@.len(),
                            out@ == vis@.subrange(0, j as int).map_values(|i: usize| (i, 0u16)),
                        decreases vis@.len() - j,
                    {
                        out.push((vis[j], 0));
                        j = j + 1;
                        assert(out@ =~= vis@.subrange(0, j as int).map_values(|i: usize| (i, 0u16)));
                    }
                    assert(vis@.subrange(0, vis@.len() as int) =~= vis@);
                    return out;
                }
                let ghost before = vis@;
                vis.remove(q - 1);
                proof {
                    assert forall|j: int| 0 <= j < vis@.len() implies #[trigger] vis@[j] < slots@.len() && slots@[vis@[j] as int].sizes@.len() > 0 by {
                        if j < q - 1 {
                            assert(vis@[j] == before[j]);
                        } else {
                            assert(vis@[j] == before[j + 1]);
                        }
                    }
                }
            },
        }
    }
}

/// Content of a bar slot.
pub enum BarItem {
    Text(TextSlot),
    Badge(Badge),
    Spacer(Spacer),
}

impl BarItem {
    /// The content is drawable: a badge's width fits in 16 bits.
    pub open spec fn wf(&self) -> bool {
        match self {
            BarItem::Badge(b) => len16(b.text@) + 2 * b.padding <= u16::MAX,
            _ => true,
        }
    }

    /// Widths the content can take, preferred first.
    pub open spec fn sizes(&self) -> Seq<SlotSize> {
        match self {
            BarItem::Text(t) => match t.fixed_width {
                Some(w) => seq![SlotSize::Blocks(w)],
                None => seq![SlotSize::Fill, SlotSize::Blocks(len16(t.text@))],
            },
            BarItem::Badge(b) => seq![SlotSize::Blocks((len16(b.text@) + 2 * b.padding) as u16)],
            BarItem::Spacer(_) => seq![SlotSize::Fill],
        }
    }

    /// Whether the content may be hidden.
    pub open spec fn hideable(&self) -> bool {
        !(self is Badge)
    }

    /// Widths the content can take.
    pub fn responsive_sizes(&self) -> (r: Vec<SlotSize>)
        requires
            self.wf(),
        ensures
            r@ == self.sizes(),
    {
        match self {
            BarItem::Text(t) => t.responsive_sizes(),
            BarItem::Badge(b) => b.responsive_sizes(),
            BarItem::Spacer(sp) => sp.responsive_sizes(),
        }
    }

    /// What `render` writes in `bounds`.
    pub open spec fn render_bytes(&self, bounds: Rect, direction: TextDirection) -> Seq<u8> {
        match self {
            BarItem::Text(t) => t.render_bytes(bounds, direction),
            BarItem::Badge(b) => cursor_to(bounds.y as nat, bounds.x as nat) + encode_utf8(b.style@)
                + encode_utf8(b.padded()) + reset_style(),
            BarItem::Spacer(_) => Seq::empty(),
        }
    }

    /// Everything but the dirty flag is the same.
    pub open spec fn same_look(&self, other: BarItem) -> bool {
        match (*self, other) {
            (BarItem::Text(a), BarItem::Text(b)) => a.text == b.text && a.style == b.style && a.align
                == b.align && a.fixed_width == b.fixed_width,
            (BarItem::Badge(a), BarItem::Badge(b)) => a.text == b.text && a.style == b.style && a.padding
                == b.padding,
            (BarItem::Spacer(_), BarItem::Spacer(_)) => true,
            _ => false,
        }
    }

    /// Draw the content in `bounds`.
    pub fn render(&mut self, renderer: &mut Renderer, bounds: Rect, direction: TextDirection)
        ensures
            final(renderer).pending@ == old(renderer).pending@ + old(self).render_bytes(bounds, direction),
            final(renderer).dirty == old(renderer).dirty,
            final(self).same_look(*old(self)),
    {
        let mut item = BarItem::Spacer(Spacer);
        std::mem::swap(&mut item, self);
        let drawn = match item {
            BarItem::Text(mut t) => {
                t.render(renderer, bounds, direction);
                BarItem::Text(t)
            },
            BarItem::Badge(mut b) => {
                b.render(renderer, bounds);
                BarItem::Badge(b)
            },
            BarItem::Spacer(sp) => BarItem::Spacer(sp),
        };
        *self = drawn;
    }

    /// Whether the content may be hidden.
    pub fn can_hide(&self) -> (r: bool)
        ensures
            r == self.hideable(),
    {
        match self {
            BarItem::Text(t) => t.can_hide(),
            BarItem::Badge(b) => b.can_hide(),
            BarItem::Spacer(_) => true,
        }
    }
}

/// Content with a priority.
pub struct Slot {
    pub content: BarItem,
    pub priority: u16,
}

impl Slot {
    /// Content at a priority.
    pub fn new(content: BarItem, priority: u16) -> (r: Self)
        ensures
            r.content == content,
            r.priority == priority,
    {
        Slot { content, priority }
    }

    /// High priority (100).
    pub fn high(content: BarItem) -> (r: Self)
        ensures
            r.content == content,
            r.priority == 100,
    {
        Self::new(content, 100)
    }

    /// Medium priority (50).
    pub fn medium(content: BarItem) -> (r: Self)
        ensures
            r.content == content,
            r.priority == 50,
    {
        Self::new(content, 50)
    }

    /// Low priority (10).
    pub fn low(content: BarItem) -> (r: Self)
        ensures
            r.content == content,
            r.priority == 10,
    {
        Self::new(content, 10)
    }
}

/// A bar of prioritised slots that shares its width among them.
pub struct SlottedBar {
    pub slots: Vec<Slot>,
    pub background_style: String,
    pub dirty: bool,
}

impl SlottedBar {
    /// Every slot's content is drawable.
    pub open spec fn wf(&self) -> bool {
        forall|i: int| 0 <= i < self.slots@.len() ==> (#[trigger] self.slots@[i]).content.wf()
    }

    /// An empty bar in inverse video.
    pub fn new() -> (r: Self)
        ensures
            r.wf(),
            r.slots@.len() == 0,
            r.background_style@ == "\x1b[7m"@,
            r.dirty,
    {
        SlottedBar { slots: Vec::new(), background_style: String::from_str("\x1b[7m"), dirty: true }
    }

    /// Set the background style.
    pub fn with_background(self, style: String) -> (r: Self)
        ensures
            r.background_style == style,
            r.slots == self.slots,
            r.dirty,
    {
        let mut b = self;
        b.background_style = style;
        b.dirty = true;
        b
    }

    /// Add a slot at the end.
    pub fn add_slot(&mut self, slot: Slot)
        ensures
            final(self).slots@ == old(self).slots@.push(slot),
            final(self).dirty,
            old(self).wf() && slot.content.wf() ==> final(self).wf(),
    {
        self.slots.push(slot);
        self.dirty = true;
    }

    /// Add content at a priority.
    pub fn add(&mut self, content: BarItem, priority: u16)
        ensures
            final(self).slots@.len() == old(self).slots@.len() + 1,
            final(self).slots@.drop_last() == old(self).slots@,
            final(self).slots@.last().content == content,
            final(self).slots@.last().priority == priority,
            old(self).wf() && content.wf() ==> final(self).wf(),
    {
        self.add_slot(Slot::new(content, priority));
        assert(self.slots@.drop_last() =~= old(self).slots@);
    }

    /// The content of slot `idx`.
    pub fn get_slot_mut(&mut self, idx: usize) -> (r: Option<&mut BarItem>)
        ensures
            idx >= old(self).slots@.len() ==> r is None && final(self).slots == old(self).slots,
            idx < old(self).slots@.len() ==> r is Some,
    {
        if idx < self.slots.len() {
            Some(&mut self.slots[idx].content)
        } else {
            None
        }
    }

    /// Share `available` cells among the slots as `bar_widths` says.
    pub fn calculate_widths(&self, available: u16) -> (r: Vec<(usize, u16)>)
        requires
            self.wf(),
        ensures
            exists|specs: Seq<SlotSpec>|
                #![trigger specs.len()]
                specs.len() == self.slots@.len() && (forall|i: int| 0 <= i < specs.len() ==> (#[trigger] specs[i]).priority
                    == self.slots@[i].priority && specs[i].sizes@ == self.slots@[i].content.sizes()
                    && specs[i].can_hide == self.slots@[i].content.hideable()) && r@ == bar_widths(specs, available),
    {
        let mut specs: Vec<SlotSpec> = Vec::new();
        let mut i: usize = 0;
        while i < self.slots.len()
            invariant
                self.wf(),
                i <= self.slots@.len(),
                specs@.len() == i,
                forall|j: int| 0 <= j < i ==> (#[trigger] specs@[j]).priority == self.slots@[j].priority
                    && specs@[j].sizes@ == self.slots@[j].content.sizes()
                    && specs@[j].can_hide == self.slots@[j].content.hideable(),
            decreases self.slots@.len() - i,
        {
            let slot = &self.slots[i];
            specs.push(SlotSpec {
                priority: slot.priority,
                sizes: slot.content.responsive_sizes(),
                can_hide: slot.content.can_hide(),
            });
            i = i + 1;
        }
        let r = calculate_widths(specs.as_slice(), available);
        assert(specs@.len() == self.slots@.len());
        r
    }
}

/// What drawing the slots writes: for each allocation with a width, the
/// slot's content in its cells, left to right from column `x`.
pub open spec fn slots_bytes(
    slots: Seq<Slot>,
    widths: Seq<(usize, u16)>,
    k: int,
    x: int,
    bounds: Rect,
    direction: TextDirection,
) -> Seq<u8>
    decreases widths.len() - k,
{
    if k < 0 || k >= widths.len() {
        Seq::empty()
    } else {
        let idx = widths[k].0;
        let w = widths[k].1;
        if w > 0 && idx < slots.len() {
            slots[idx as int].content.render_bytes(
                Rect { x: x as u16, y: bounds.y, width: w, height: bounds.height },
                direction,
            ) + slots_bytes(slots, widths, k + 1, sadd(x, w as int), bounds, direction)
        } else {
            slots_bytes(slots, widths, k + 1, x, bounds, direction)
        }
    }
}

impl SlottedBar {
    /// The background fill: the row of `bounds` as spaces in the background
    /// style, unless that style is empty.
    pub open spec fn background_bytes(&self, bounds: Rect) -> Seq<u8> {
        if self.background_style@.len() == 0 {
            Seq::empty()
        } else {
            cursor_to(bounds.y as nat, bounds.x as nat) + encode_utf8(self.background_style@) + encode_utf8(
                Seq::new(bounds.width as nat, |i: int| ' '),
            ) + reset_style()
        }
    }

    /// Draw the bar: the background, then each shown slot in the width
    /// `calculate_widths` gives it, left to right.
    pub fn render(&mut self, renderer: &mut Renderer, bounds: Rect, direction: TextDirection)
        requires
            old(self).wf(),
        ensures
            final(self).wf(),
            !final(self).dirty,
            exists|specs: Seq<SlotSpec>, widths: Seq<(usize, u16)>|
                #![trigger specs.len(), widths.len()]
                specs.len() == old(self).slots@.len() && (forall|i: int| 0 <= i < specs.len() ==> (#[trigger] specs[i]).priority
                    == old(self).slots@[i].priority && specs[i].sizes@ == old(self).slots@[i].content.sizes()
                    && specs[i].can_hide == old(self).slots@[i].content.hideable()) && widths == bar_widths(specs, bounds.width)
                && final(renderer).pending@ == old(renderer).pending@ + old(self).background_bytes(bounds) + slots_bytes(
                    old(self).slots@,
                    widths,
                    0,
                    bounds.x as int,
                    bounds,
                    direction,
                ),
    {
        if self.background_style.as_str().unicode_len() > 0 {
            let mut fill = String::new();
            let mut i: u16 = 0;
            while i < bounds.width
                invariant
                    i <= bounds.width,
                    fill@ == Seq::new(i as nat, |k: int| ' '),
                decreases bounds.width - i,
            {
                string_push(&mut fill, ' ');
                i = i + 1;
                assert(fill@ =~= Seq::new(i as nat, |k: int| ' '));
            }
            renderer.move_cursor(bounds.x, bounds.y);
            renderer.write_styled(fill.as_str(), self.background_style.as_str());
        }
        let ghost after_bg = renderer.pending@;
        let widths = self.calculate_widths(bounds.width);
        let ghost orig = self.slots@;
        let ghost target = after_bg + slots_bytes(orig, widths@, 0, bounds.x as int, bounds, direction);
        let mut x: u16 = bounds.x;
        let mut k: usize = 0;
        while k < widths.len()
            invariant
                k <= widths@.len(),
                self.slots@.len() == orig.len(),
                forall|j: int| 0 <= j < orig.len() ==> (#[trigger] self.slots@[j]).content.same_look(orig[j].content)
                    && self.slots@[j].priority == orig[j].priority,
                renderer.pending@ + slots_bytes(orig, widths@, k as int, x as int, bounds, direction) == target,
            decreases widths@.len() - k,
        {
            let (idx, w) = widths[k];
            if w > 0 && idx < self.slots.len() {
                let slot_bounds = Rect { x, y: bounds.y, width: w, height: bounds.height };
                let ghost before = self.slots@;
                let ghost pend = renderer.pending@;
                let mut slot = self.slots.remove(idx);
                slot.content.render(renderer, slot_bounds, direction);
                self.slots.insert(idx, slot);
                proof {
                    assert(self.slots@ =~= before.update(idx as int, slot));
                    assert forall|j: int| 0 <= j < orig.len() implies (#[trigger] self.slots@[j]).content.same_look(orig[j].content)
                        && self.slots@[j].priority == orig[j].priority by {
                        if j == idx {
                        }
                    }
                    assert(renderer.pending@ == pend + orig[idx as int].content.render_bytes(slot_bounds, direction));
                }
                x = x.saturating_add(w);
            }
            k = k + 1;
        }
        self.dirty = false;
        proof {
            assert(renderer.pending@ == target);
        }
    }
}

impl Default for SlottedBar {
    fn default() -> (r: Self)
        ensures
            r.wf(),
            r.slots@.len() == 0,
    {
        Self::new()
    }
}

} // verus!
