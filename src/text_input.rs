//! Single-line text input with a cursor, editing and word motions.

use crate::escape::cursor_to;
use crate::event::{Event, Key};
use crate::layout::Rect;
use crate::render::{styled_bytes, Renderer};
use crate::strings::{is_whitespace, is_ws, string_push};
use vstd::prelude::*;
use vstd::string::{StrSliceExecFns, StringExecFns};

verus! {

/// Bytes that the UTF-8 encoding of `c` takes.
pub open spec fn char_width(c: char) -> nat {
    if (c as u32) < 0x80 {
        1
    } else if (c as u32) < 0x800 {
        2
    } else if (c as u32) < 0x10000 {
        3
    } else {
        4
    }
}

/// Bytes that the UTF-8 encoding of `s` takes.
pub open spec fn utf8_len(s: Seq<char>) -> nat
    decreases s.len(),
{
    if s.len() == 0 {
        0
    } else {
        utf8_len(s.drop_last()) + char_width(s.last())
    }
}

/// Start of the word left of position `i`: back over whitespace from the
/// character before `i`, then back to the start of the word.
pub open spec fn word_left(s: Seq<char>, i: int) -> int {
    skip_word_back(s, skip_ws_back(s, i - 1))
}

/// Back from `i` while the character at `i` is whitespace (stops at 0).
pub open spec fn skip_ws_back(s: Seq<char>, i: int) -> int
    decreases i,
{
    if i > 0 && is_ws(s[i]) {
        skip_ws_back(s, i - 1)
    } else {
        i
    }
}

/// Back from `i` while the character before `i` is not whitespace.
pub open spec fn skip_word_back(s: Seq<char>, i: int) -> int
    decreases i,
{
    if i > 0 && !is_ws(s[i - 1]) {
        skip_word_back(s, i - 1)
    } else {
        i
    }
}

/// Forward from `i` while the character at `i` is not whitespace.
pub open spec fn skip_word_fwd(s: Seq<char>, i: int) -> int
    decreases s.len() - i,
{
    if 0 <= i < s.len() && !is_ws(s[i]) {
        skip_word_fwd(s, i + 1)
    } else {
        i
    }
}

/// Forward from `i` while the character at `i` is whitespace.
pub open spec fn skip_ws_fwd(s: Seq<char>, i: int) -> int
    decreases s.len() - i,
{
    if 0 <= i < s.len() && is_ws(s[i]) {
        skip_ws_fwd(s, i + 1)
    } else {
        i
    }
}

/// Start of the next word: over the rest of this word, then over whitespace.
pub open spec fn word_right(s: Seq<char>, i: int) -> int {
    skip_ws_fwd(s, skip_word_fwd(s, i))
}

/// `s` without line feeds and carriage returns.
pub open spec fn single_line(s: Seq<char>) -> Seq<char> {
    s.filter(|c: char| c != '\n' && c != '\r')
}

/// A single-line text input.
pub struct TextInput {
    /// The text, one entry per character.
    pub chars: Vec<char>,
    /// The same text as a string.
    pub buffer: String,
    /// Cursor, as a character index into the text.
    pub cursor: usize,
    pub prompt: String,
    pub prompt_style: String,
    pub input_style: String,
    pub cursor_style: String,
    pub focused: bool,
    pub dirty: bool,
}

fn chars_of(s: &str) -> (r: Vec<char>)
    ensures
        r@ == s@,
{
    let n = s.unicode_len();
    let mut v: Vec<char> = Vec::new();
    let mut i: usize = 0;
    while i < n
        invariant
            n == s@.len(),
            i <= n,
            v@ == s@.subrange(0, i as int),
        decreases n - i,
    {
        v.push(s.get_char(i));
        i = i + 1;
        assert(v@ =~= s@.subrange(0, i as int));
    }
    assert(s@.subrange(0, n as int) =~= s@);
    v
}

fn string_of(v: &Vec<char>) -> (r: String)
    ensures
        r@ == v@,
{
    let mut s = String::new();
    let mut i: usize = 0;
    while i < v.len()
        invariant
            i <= v@.len(),
            s@ == v@.subrange(0, i as int),
        decreases v@.len() - i,
    {
        string_push(&mut s, v[i]);
        i = i + 1;
        assert(s@ =~= v@.subrange(0, i as int));
    }
    assert(v@.subrange(0, v@.len() as int) =~= v@);
    s
}

fn string_range(v: &Vec<char>, start: usize, end: usize) -> (r: String)
    requires
        start <= end <= v@.len(),
    ensures
        r@ == v@.subrange(start as int, end as int),
{
    let mut s = String::new();
    let mut i: usize = start;
    while i < end
        invariant
            start <= i <= end,
            end <= v@.len(),
            s@ == v@.subrange(start as int, i as int),
        decreases end - i,
    {
        string_push(&mut s, v[i]);
        i = i + 1;
        assert(s@ =~= v@.subrange(start as int, i as int));
    }
    s
}

impl TextInput {
    /// The string mirrors the characters and the cursor is within the text.
    pub open spec fn wf(&self) -> bool {
        self.buffer@ == self.chars@ && self.cursor <= self.chars@.len()
    }

    fn sync(&mut self)
        ensures
            final(self).buffer@ == old(self).chars@,
            final(self).chars == old(self).chars,
            final(self).cursor == old(self).cursor,
            final(self).focused == old(self).focused,
            final(self).dirty == old(self).dirty,
    {
        self.buffer = string_of(&self.chars);
    }

    /// An empty input after `prompt`, with an inverse-video cursor.
    pub fn new(prompt: &str) -> (r: Self)
        ensures
            r.wf(),
            r.chars@.len() == 0,
            r.cursor == 0,
            r.prompt@ == prompt@,
            r.cursor_style@ == "\x1b[7m"@,
            !r.focused,
            r.dirty,
    {
        TextInput {
            chars: Vec::new(),
            buffer: String::new(),
            cursor: 0,
            prompt: String::from_str(prompt),
            prompt_style: String::new(),
            input_style: String::new(),
            cursor_style: String::from_str("\x1b[7m"),
            focused: false,
            dirty: true,
        }
    }

    /// Set the prompt's style.
    pub fn with_prompt_style(self, style: &str) -> (r: Self)
        ensures
            r.prompt_style@ == style@,
            r.chars == self.chars && r.buffer == self.buffer && r.cursor == self.cursor,
    {
        let mut t = self;
        t.prompt_style = String::from_str(style);
        t
    }

    /// Set the text's style.
    pub fn with_input_style(self, style: &str) -> (r: Self)
        ensures
            r.input_style@ == style@,
            r.chars == self.chars && r.buffer == self.buffer && r.cursor == self.cursor,
    {
        let mut t = self;
        t.input_style = String::from_str(style);
        t
    }

    /// Set the cursor's style.
    pub fn with_cursor_style(self, style: &str) -> (r: Self)
        ensures
            r.cursor_style@ == style@,
            r.chars == self.chars && r.buffer == self.buffer && r.cursor == self.cursor,
    {
        let mut t = self;
        t.cursor_style = String::from_str(style);
        t
    }

    /// The text.
    pub fn value(&self) -> (r: &str)
        requires
            self.wf(),
        ensures
            r@ == self.chars@,
    {
        self.buffer.as_str()
    }

    /// Replace the text; the cursor goes to its end.
    pub fn set_value(&mut self, value: &str)
        ensures
            final(self).wf(),
            final(self).chars@ == value@,
            final(self).cursor == value@.len(),
            final(self).dirty,
            final(self).focused == old(self).focused,
    {
        self.chars = chars_of(value);
        self.buffer = String::from_str(value);
        self.cursor = self.chars.len();
        self.dirty = true;
    }

    /// Empty the text.
    pub fn clear(&mut self)
        ensures
            final(self).wf(),
            final(self).chars@.len() == 0,
            final(self).cursor == 0,
            final(self).dirty,
            final(self).focused == old(self).focused,
    {
        self.chars = Vec::new();
        self.buffer = String::new();
        self.cursor = 0;
        self.dirty = true;
    }

    /// Cursor position in bytes of the text's UTF-8 encoding (saturating).
    pub fn cursor_position(&self) -> (r: usize)
        requires
            self.wf(),
        ensures
            r == if utf8_len(self.chars@.subrange(0, self.cursor as int)) <= usize::MAX {
                utf8_len(self.chars@.subrange(0, self.cursor as int))
            } else {
                usize::MAX as nat
            },
    {
        let mut total: usize = 0;
        let mut i: usize = 0;
        let ghost mut exact: nat = 0;
        while i < self.cursor
            invariant
                self.wf(),
                i <= self.cursor,
                exact == utf8_len(self.chars@.subrange(0, i as int)),
                total == if exact <= usize::MAX { exact } else { usize::MAX as nat },
            decreases self.cursor - i,
        {
            let c = self.chars[i];
            let w: usize = if (c as u32) < 0x80 { 1 } else if (c as u32) < 0x800 { 2 } else if (c as u32) < 0x10000 { 3 } else { 4 };
            proof {
                assert(self.chars@.subrange(0, i + 1).drop_last() =~= self.chars@.subrange(0, i as int));
                exact = exact + w as nat;
            }
            total = total.saturating_add(w);
            i = i + 1;
        }
        total
    }

    /// Whether the text is empty.
    pub fn is_empty(&self) -> (r: bool)
        ensures
            r == (self.chars@.len() == 0),
    {
        self.chars.len() == 0
    }

    /// Insert a character at the cursor and move past it.
    pub fn insert_char(&mut self, c: char)
        requires
            old(self).wf(),
        ensures
            final(self).wf(),
            final(self).chars@ == old(self).chars@.insert(old(self).cursor as int, c),
            final(self).cursor == old(self).cursor + 1,
            final(self).dirty,
            final(self).focused == old(self).focused,
    {
        self.chars.insert(self.cursor, c);
        let n = self.chars.len();
        assert(self.cursor < n);
        self.cursor = self.cursor + 1;
        self.sync();
        self.dirty = true;
    }

    /// Delete the character before the cursor.
    pub fn delete_char_before(&mut self)
        requires
            old(self).wf(),
        ensures
            final(self).wf(),
            old(self).cursor > 0 ==> final(self).chars@ == old(self).chars@.remove(old(self).cursor - 1)
                && final(self).cursor == old(self).cursor - 1 && final(self).dirty,
            old(self).cursor == 0 ==> final(self).chars == old(self).chars && final(self).cursor == 0
                && final(self).dirty == old(self).dirty,
            final(self).focused == old(self).focused,
    {
        if self.cursor > 0 {
            self.chars.remove(self.cursor - 1);
            self.cursor = self.cursor - 1;
            self.sync();
            self.dirty = true;
        }
    }

    /// Delete the character at the cursor.
    pub fn delete_char_at(&mut self)
        requires
            old(self).wf(),
        ensures
            final(self).wf(),
            old(self).cursor < old(self).chars@.len() ==> final(self).chars@ == old(self).chars@.remove(old(self).cursor as int) && final(self).dirty,
            old(self).cursor == old(self).chars@.len() ==> final(self).chars == old(self).chars && final(self).dirty == old(self).dirty,
            final(self).cursor == old(self).cursor,
            final(self).focused == old(self).focused,
    {
        if self.cursor < self.chars.len() {
            self.chars.remove(self.cursor);
            self.sync();
            self.dirty = true;
        }
    }

    /// Move one character left.
    pub fn move_left(&mut self)
        requires
            old(self).wf(),
        ensures
            final(self).wf(),
            final(self).chars == old(self).chars,
            final(self).cursor == if old(self).cursor > 0 { old(self).cursor - 1 } else { 0 },
            final(self).dirty == (old(self).dirty || old(self).cursor > 0),
            final(self).focused == old(self).focused,
    {
        if self.cursor > 0 {
            self.cursor = self.cursor - 1;
            self.dirty = true;
        }
    }

    /// Move one character right.
    pub fn move_right(&mut self)
        requires
            old(self).wf(),
        ensures
            final(self).wf(),
            final(self).chars == old(self).chars,
            final(self).cursor == if old(self).cursor < old(self).chars@.len() { old(self).cursor + 1 } else { old(self).cursor as int },
            final(self).dirty == (old(self).dirty || old(self).cursor < old(self).chars@.len()),
            final(self).focused == old(self).focused,
    {
        if self.cursor < self.chars.len() {
            self.cursor = self.cursor + 1;
            self.dirty = true;
        }
    }

    /// Move to the start of the text.
    pub fn move_to_start(&mut self)
        requires
            old(self).wf(),
        ensures
            final(self).wf(),
            final(self).chars == old(self).chars,
            final(self).cursor == 0,
            final(self).dirty == (old(self).dirty || old(self).cursor != 0),
            final(self).focused == old(self).focused,
    {
        if self.cursor != 0 {
            self.cursor = 0;
            self.dirty = true;
        }
    }

    /// Move to the end of the text.
    pub fn move_to_end(&mut self)
        requires
            old(self).wf(),
        ensures
            final(self).wf(),
            final(self).chars == old(self).chars,
            final(self).cursor == old(self).chars@.len(),
            final(self).dirty == (old(self).dirty || old(self).cursor != old(self).chars@.len()),
            final(self).focused == old(self).focused,
    {
        if self.cursor != self.chars.len() {
            self.cursor = self.chars.len();
            self.dirty = true;
        }
    }

    /// Move to the start of the word before the cursor.
    pub fn move_word_left(&mut self)
        requires
            old(self).wf(),
        ensures
            final(self).wf(),
            final(self).chars == old(self).chars,
            old(self).cursor > 0 ==> final(self).cursor == word_left(old(self).chars@, old(self).cursor as int) && final(self).dirty,
            old(self).cursor == 0 ==> final(self).cursor == 0 && final(self).dirty == old(self).dirty,
            final(self).cursor <= old(self).cursor,
            final(self).focused == old(self).focused,
    {
        if self.cursor == 0 {
            return;
        }
        let mut i: usize = self.cursor - 1;
        while i > 0 && is_whitespace(self.chars[i])
            invariant
                self.wf(),
                i < self.cursor,
                skip_ws_back(self.chars@, i as int) == skip_ws_back(self.chars@, self.cursor - 1),
            decreases i,
        {
            i = i - 1;
        }
        let ghost mid = i as int;
        while i > 0 && !is_whitespace(self.chars[i - 1])
            invariant
                self.wf(),
                i < self.cursor,
                mid == skip_ws_back(self.chars@, self.cursor - 1),
                skip_word_back(self.chars@, i as int) == skip_word_back(self.chars@, mid),
            decreases i,
        {
            i = i - 1;
        }
        self.cursor = i;
        self.dirty = true;
    }

    /// Move to the start of the next word.
    pub fn move_word_right(&mut self)
        requires
            old(self).wf(),
        ensures
            final(self).wf(),
            final(self).chars == old(self).chars,
            old(self).cursor < old(self).chars@.len() ==> final(self).cursor == word_right(old(self).chars@, old(self).cursor as int) && final(self).dirty,
            old(self).cursor >= old(self).chars@.len() ==> final(self).cursor == old(self).cursor && final(self).dirty == old(self).dirty,
            final(self).focused == old(self).focused,
    {
        let n = self.chars.len();
        if self.cursor >= n {
            return;
        }
        let mut i: usize = self.cursor;
        while i < n && !is_whitespace(self.chars[i])
            invariant
                self.wf(),
                n == self.chars@.len(),
                old(self).cursor <= i <= n,
                self.cursor == old(self).cursor,
                skip_word_fwd(self.chars@, i as int) == skip_word_fwd(self.chars@, self.cursor as int),
            decreases n - i,
        {
            i = i + 1;
        }
        let ghost mid = i as int;
        while i < n && is_whitespace(self.chars[i])
            invariant
                self.wf(),
                n == self.chars@.len(),
                i <= n,
                mid == skip_word_fwd(self.chars@, self.cursor as int),
                skip_ws_fwd(self.chars@, i as int) == skip_ws_fwd(self.chars@, mid),
            decreases n - i,
        {
            i = i + 1;
        }
        self.cursor = i;
        self.dirty = true;
    }

    /// Delete from the start of the word before the cursor up to the cursor.
    pub fn delete_word_before(&mut self)
        requires
            old(self).wf(),
        ensures
            final(self).wf(),
            old(self).cursor > 0 ==> final(self).cursor == word_left(old(self).chars@, old(self).cursor as int)
                && final(self).chars@ == old(self).chars@.subrange(0, final(self).cursor as int) + old(self).chars@.subrange(old(self).cursor as int, old(self).chars@.len() as int)
                && final(self).dirty,
            old(self).cursor == 0 ==> final(self).chars == old(self).chars && final(self).cursor == 0,
            final(self).focused == old(self).focused,
    {
        if self.cursor == 0 {
            return;
        }
        let old_cursor = self.cursor;
        self.move_word_left();
        let start = self.cursor;
        let mut kept: Vec<char> = Vec::new();
        let mut i: usize = 0;
        while i < self.chars.len()
            invariant
                self.wf(),
                start <= old_cursor <= self.chars@.len(),
                i <= self.chars@.len(),
                kept@ == self.chars@.subrange(0, if i < start { i as int } else { start as int })
                    + if i > old_cursor { self.chars@.subrange(old_cursor as int, i as int) } else { Seq::empty() },
            decreases self.chars@.len() - i,
        {
            if i < start || i >= old_cursor {
                kept.push(self.chars[i]);
            }
            i = i + 1;
            assert(kept@ =~= self.chars@.subrange(0, if i < start { i as int } else { start as int })
                + if i > old_cursor { self.chars@.subrange(old_cursor as int, i as int) } else { Seq::empty() });
        }
        self.chars = kept;
        self.sync();
        self.dirty = true;
    }

    /// Delete from the cursor to the end.
    pub fn delete_to_end(&mut self)
        requires
            old(self).wf(),
        ensures
            final(self).wf(),
            final(self).chars@ == old(self).chars@.subrange(0, old(self).cursor as int),
            final(self).cursor == old(self).cursor,
            final(self).dirty == (old(self).dirty || old(self).cursor < old(self).chars@.len()),
            final(self).focused == old(self).focused,
    {
        if self.cursor < self.chars.len() {
            self.chars.truncate(self.cursor);
            self.sync();
            self.dirty = true;
        } else {
            assert(self.chars@.subrange(0, self.cursor as int) =~= self.chars@);
        }
    }

    /// Delete from the start to the cursor.
    pub fn delete_to_start(&mut self)
        requires
            old(self).wf(),
        ensures
            final(self).wf(),
            final(self).chars@ == old(self).chars@.subrange(old(self).cursor as int, old(self).chars@.len() as int),
            final(self).cursor == 0,
            final(self).dirty == (old(self).dirty || old(self).cursor > 0),
            final(self).focused == old(self).focused,
    {
        if self.cursor > 0 {
            let mut kept: Vec<char> = Vec::new();
            let mut i: usize = self.cursor;
            while i < self.chars.len()
                invariant
                    self.wf(),
                    self.cursor <= i <= self.chars@.len(),
                    kept@ == self.chars@.subrange(self.cursor as int, i as int),
                decreases self.chars@.len() - i,
            {
                kept.push(self.chars[i]);
                i = i + 1;
                assert(kept@ =~= self.chars@.subrange(self.cursor as int, i as int));
            }
            self.chars = kept;
            self.cursor = 0;
            self.sync();
            self.dirty = true;
        } else {
            assert(self.chars@.subrange(0, self.chars@.len() as int) =~= self.chars@);
        }
    }

    /// Insert pasted text at the cursor, without its line breaks.
    pub fn handle_paste(&mut self, text: &str)
        requires
            old(self).wf(),
        ensures
            final(self).wf(),
            final(self).chars@ == old(self).chars@.subrange(0, old(self).cursor as int) + single_line(text@)
                + old(self).chars@.subrange(old(self).cursor as int, old(self).chars@.len() as int),
            final(self).cursor == old(self).cursor + single_line(text@).len(),
            final(self).dirty,
            final(self).focused == old(self).focused,
    {
        let src = chars_of(text);
        let mut clean: Vec<char> = Vec::new();
        let mut i: usize = 0;
        while i < src.len()
            invariant
                i <= src@.len(),
                src@ == text@,
                clean@ == single_line(src@.subrange(0, i as int)),
            decreases src@.len() - i,
        {
            let c = src[i];
            proof {
                let s = src@.subrange(0, i + 1);
                assert(s.drop_last() =~= src@.subrange(0, i as int));
                reveal_with_fuel(Seq::filter, 1);
                assert(s.filter(|c: char| c != '\n' && c != '\r') == s.drop_last().filter(|c: char| c != '\n' && c != '\r') + if c != '\n' && c != '\r' { seq![c] } else { Seq::empty() }) by {
                    reveal(Seq::filter);
                }
            }
            if c != '\n' && c != '\r' {
                clean.push(c);
            }
            i = i + 1;
            assert(clean@ =~= single_line(src@.subrange(0, i as int)));
        }
        assert(src@.subrange(0, src@.len() as int) =~= src@);
        let mut out: Vec<char> = Vec::new();
        let mut k: usize = 0;
        while k < self.cursor
            invariant
                self.wf(),
                k <= self.cursor,
                out@ == self.chars@.subrange(0, k as int),
            decreases self.cursor - k,
        {
            out.push(self.chars[k]);
            k = k + 1;
            assert(out@ =~= self.chars@.subrange(0, k as int));
        }
        let mut j: usize = 0;
        while j < clean.len()
            invariant
                j <= clean@.len(),
                out@ == self.chars@.subrange(0, self.cursor as int) + clean@.subrange(0, j as int),
            decreases clean@.len() - j,
        {
            out.push(clean[j]);
            j = j + 1;
            assert(out@ =~= self.chars@.subrange(0, self.cursor as int) + clean@.subrange(0, j as int));
        }
        assert(clean@.subrange(0, clean@.len() as int) =~= clean@);
        let mut m: usize = self.cursor;
        while m < self.chars.len()
            invariant
                self.wf(),
                self.cursor <= m <= self.chars@.len(),
                out@ == self.chars@.subrange(0, self.cursor as int) + clean@ + self.chars@.subrange(self.cursor as int, m as int),
            decreases self.chars@.len() - m,
        {
            out.push(self.chars[m]);
            m = m + 1;
            assert(out@ =~= self.chars@.subrange(0, self.cursor as int) + clean@ + self.chars@.subrange(self.cursor as int, m as int));
        }
        let total = out.len();
        assert(self.cursor + clean@.len() <= total);
        let new_cursor = self.cursor + clean.len();
        self.chars = out;
        self.cursor = new_cursor;
        self.sync();
        self.dirty = true;
    }

    /// Whether `key` is one of the editing keys: backspace, delete,
    /// Ctrl-W, Ctrl-K, Ctrl-U.
    pub open spec fn is_editing_key(key: Key) -> bool {
        key == Key::Backspace || key == Key::Delete || key == Key::Ctrl('w') || key == Key::Ctrl('k')
            || key == Key::Ctrl('u')
    }

    /// Whether `key` is one of the motion keys: arrows, Home, End, Ctrl-A,
    /// Ctrl-E, Alt-B, Alt-F.
    pub open spec fn is_motion_key(key: Key) -> bool {
        key == Key::Left || key == Key::Right || key == Key::Home || key == Key::Ctrl('a') || key
            == Key::End || key == Key::Ctrl('e') || key == Key::Alt('b') || key == Key::Alt('f')
    }

    /// Apply an editing key; false for any other key, which changes nothing.
    pub fn handle_editing_key(&mut self, key: &Key) -> (r: bool)
        requires
            old(self).wf(),
        ensures
            final(self).wf(),
            r == Self::is_editing_key(*key),
            !r ==> final(self).chars == old(self).chars && final(self).cursor == old(self).cursor,
            final(self).focused == old(self).focused,
    {
        match key {
            Key::Backspace => self.delete_char_before(),
            Key::Delete => self.delete_char_at(),
            Key::Ctrl('w') => self.delete_word_before(),
            Key::Ctrl('k') => self.delete_to_end(),
            Key::Ctrl('u') => self.delete_to_start(),
            _ => return false,
        }
        true
    }

    /// Apply a motion key; false for any other key, which changes nothing.
    pub fn handle_navigation_key(&mut self, key: &Key) -> (r: bool)
        requires
            old(self).wf(),
        ensures
            final(self).wf(),
            final(self).chars == old(self).chars,
            r == Self::is_motion_key(*key),
            !r ==> final(self).cursor == old(self).cursor,
            final(self).focused == old(self).focused,
    {
        match key {
            Key::Left => self.move_left(),
            Key::Right => self.move_right(),
            Key::Home | Key::Ctrl('a') => self.move_to_start(),
            Key::End | Key::Ctrl('e') => self.move_to_end(),
            Key::Alt('b') => self.move_word_left(),
            Key::Alt('f') => self.move_word_right(),
            _ => return false,
        }
        true
    }

    /// Apply a key: a character is inserted, Enter is taken, Escape is not,
    /// editing and motion keys act.
    pub fn handle_key(&mut self, key: &Key) -> (r: bool)
        requires
            old(self).wf(),
        ensures
            final(self).wf(),
            r == (*key is Char || *key == Key::Enter || Self::is_editing_key(*key) || Self::is_motion_key(*key)),
            match *key {
                Key::Char(c) => final(self).chars@ == old(self).chars@.insert(old(self).cursor as int, c)
                    && final(self).cursor == old(self).cursor + 1,
                _ => true,
            },
            !r ==> final(self).chars == old(self).chars && final(self).cursor == old(self).cursor,
            final(self).focused == old(self).focused,
    {
        match key {
            Key::Char(c) => {
                self.insert_char(*c);
                true
            },
            Key::Enter => true,
            Key::Esc => false,
            _ => self.handle_editing_key(key) || self.handle_navigation_key(key),
        }
    }

    /// Handle an event when focused: keys as `handle_key`, pasted text inserted.
    pub fn handle_event(&mut self, event: &Event) -> (r: bool)
        requires
            old(self).wf(),
        ensures
            final(self).wf(),
            !old(self).focused ==> !r && final(self).chars == old(self).chars && final(self).cursor == old(self).cursor,
            old(self).focused && event is Paste ==> r,
            !r ==> final(self).chars == old(self).chars && final(self).cursor == old(self).cursor,
    {
        if !self.focused {
            return false;
        }
        match event {
            Event::Key(key) => self.handle_key(key),
            Event::Paste(text) => {
                self.handle_paste(text.as_str());
                true
            },
            _ => false,
        }
    }

    /// Take focus.
    pub fn on_focus(&mut self)
        ensures
            final(self).focused,
            final(self).dirty,
            final(self).chars == old(self).chars,
            final(self).buffer == old(self).buffer,
            final(self).cursor == old(self).cursor,
    {
        self.focused = true;
        self.dirty = true;
    }

    /// Lose focus.
    pub fn on_blur(&mut self)
        ensures
            !final(self).focused,
            final(self).dirty,
            final(self).chars == old(self).chars,
            final(self).buffer == old(self).buffer,
            final(self).cursor == old(self).cursor,
    {
        self.focused = false;
        self.dirty = true;
    }

    /// First character shown when `avail` cells are free: the text scrolls
    /// so that the cursor stays in view.
    pub open spec fn scroll_for(&self, avail: int) -> int {
        if self.cursor >= avail {
            self.cursor - (avail - 1)
        } else {
            0
        }
    }

    /// Cells left for the text after the prompt.
    pub open spec fn text_cells(&self, bounds: Rect) -> int {
        let p = (self.prompt@.len() as u16) as int;
        if bounds.width >= p {
            bounds.width - p
        } else {
            0
        }
    }

    /// The visible part of the text in `avail` cells, the cursor drawn in
    /// its style when focused.
    pub open spec fn body_bytes(&self, avail: int) -> Seq<u8> {
        let scroll = self.scroll_for(avail);
        let end = if scroll + avail <= self.chars@.len() { scroll + avail } else { self.chars@.len() as int };
        let visible = self.chars@.subrange(scroll, end);
        let vcur = self.cursor - scroll;
        if self.focused && vcur < visible.len() {
            styled_bytes(self.input_style@, visible.subrange(0, vcur)) + styled_bytes(
                self.cursor_style@,
                seq![visible[vcur]],
            ) + styled_bytes(self.input_style@, visible.subrange(vcur + 1, visible.len() as int))
        } else if self.focused {
            styled_bytes(self.input_style@, visible) + styled_bytes(self.cursor_style@, seq![' '])
        } else {
            styled_bytes(self.input_style@, visible)
        }
    }

    /// What `render` writes into `bounds`: a move to its corner, the prompt,
    /// then the visible text.
    pub open spec fn render_bytes(&self, bounds: Rect) -> Seq<u8> {
        let avail = self.text_cells(bounds);
        let prompt = if self.prompt@.len() == 0 {
            Seq::empty()
        } else {
            styled_bytes(self.prompt_style@, self.prompt@)
        };
        cursor_to(bounds.y as nat, bounds.x as nat) + prompt + if avail == 0 {
            Seq::empty()
        } else {
            self.body_bytes(avail)
        }
    }

    fn write_input_text(&self, renderer: &mut Renderer, text: &String)
        ensures
            final(renderer).pending@ == old(renderer).pending@ + styled_bytes(self.input_style@, text@),
            final(renderer).dirty == old(renderer).dirty,
    {
        renderer.write_in_style(text.as_str(), self.input_style.as_str());
    }

    fn render_body(&self, renderer: &mut Renderer, avail: usize)
        requires
            self.wf(),
            avail > 0,
        ensures
            final(renderer).pending@ == old(renderer).pending@ + self.body_bytes(avail as int),
            final(renderer).dirty == old(renderer).dirty,
    {
        let scroll: usize = if self.cursor >= avail { self.cursor - (avail - 1) } else { 0 };
        let n = self.chars.len();
        let end: usize = if scroll <= n && n - scroll >= avail { scroll + avail } else { n };
        let vcur = self.cursor - scroll;
        let vlen = end - scroll;
        if self.focused && vcur < vlen {
            let before = string_range(&self.chars, scroll, scroll + vcur);
            let at = string_range(&self.chars, scroll + vcur, scroll + vcur + 1);
            let after = string_range(&self.chars, scroll + vcur + 1, end);
            self.write_input_text(renderer, &before);
            renderer.write_in_style(at.as_str(), self.cursor_style.as_str());
            self.write_input_text(renderer, &after);
            proof {
                let visible = self.chars@.subrange(scroll as int, end as int);
                assert(before@ =~= visible.subrange(0, vcur as int));
                assert(at@ =~= seq![visible[vcur as int]]);
                assert(after@ =~= visible.subrange(vcur + 1, visible.len() as int));
            }
        } else {
            let visible = string_range(&self.chars, scroll, end);
            self.write_input_text(renderer, &visible);
            if self.focused {
                let mut space = String::new();
                string_push(&mut space, ' ');
                assert(space@ =~= seq![' ']);
                renderer.write_in_style(space.as_str(), self.cursor_style.as_str());
            }
        }
    }

    /// Draw the input into `bounds`; clean afterwards.
    pub fn render(&mut self, renderer: &mut Renderer, bounds: Rect)
        requires
            old(self).wf(),
        ensures
            final(renderer).pending@ == old(renderer).pending@ + old(self).render_bytes(bounds),
            final(renderer).dirty == old(renderer).dirty,
            !final(self).dirty,
            final(self).chars == old(self).chars,
            final(self).cursor == old(self).cursor,
            final(self).focused == old(self).focused,
            final(self).wf(),
    {
        renderer.move_cursor(bounds.x, bounds.y);
        if self.prompt.as_str().unicode_len() > 0 {
            renderer.write_in_style(self.prompt.as_str(), self.prompt_style.as_str());
        }
        let prompt_len = self.prompt.as_str().unicode_len() as u16;
        let avail: usize = bounds.width.saturating_sub(prompt_len) as usize;
        if avail == 0 {
            self.dirty = false;
            return;
        }
        self.render_body(renderer, avail);
        self.dirty = false;
    }
}

} // verus!
