//! Parsing of tmux pane geometry as printed by `tmux display-message -p`.

use crate::graphics::TmuxPaneOffset;
use crate::terminal::TmuxPaneInfo;
use crate::strings::{is_whitespace, is_ws};
use vstd::prelude::*;
use vstd::string::StrSliceExecFns;

verus! {

/// The whitespace-separated words of `s`, in order.
pub open spec fn split_ws(s: Seq<char>) -> Seq<Seq<char>>
    decreases s.len(),
{
    if s.len() == 0 {
        Seq::empty()
    } else {
        let rest = split_ws(s.drop_last());
        let c = s.last();
        if is_ws(c) {
            rest
        } else if s.len() >= 2 && !is_ws(s[s.len() - 2]) && rest.len() > 0 {
            rest.update(rest.len() - 1, rest.last().push(c))
        } else {
            rest.push(seq![c])
        }
    }
}

/// Value of a run of decimal digits.
pub open spec fn digits_value(d: Seq<char>) -> nat
    decreases d.len(),
{
    if d.len() == 0 {
        0
    } else {
        (digits_value(d.drop_last()) * 10 + (d.last() as nat - '0' as nat)) as nat
    }
}

/// All characters are ASCII digits.
pub open spec fn all_digits(d: Seq<char>) -> bool {
    forall|i: int| 0 <= i < d.len() ==> '0' <= #[trigger] d[i] <= '9'
}

/// How `str::parse::<u16>` reads a word: an optional `+`, then one or more
/// digits whose value fits in 16 bits.
pub open spec fn parse_u16(w: Seq<char>) -> Option<u16> {
    let d = if w.len() > 0 && w[0] == '+' {
        w.drop_first()
    } else {
        w
    };
    if d.len() > 0 && all_digits(d) && digits_value(d) <= u16::MAX {
        Some(digits_value(d) as u16)
    } else {
        None
    }
}

fn split_words(s: &str) -> (r: Vec<Vec<char>>)
    ensures
        r@.len() == split_ws(s@).len(),
        forall|i: int| 0 <= i < r@.len() ==> #[trigger] r@[i]@ == split_ws(s@)[i],
{
    let n = s.unicode_len();
    let mut words: Vec<Vec<char>> = Vec::new();
    let mut prev_ws = true;
    let mut i: usize = 0;
    while i < n
        invariant
            n == s@.len(),
            i <= n,
            words@.len() == split_ws(s@.subrange(0, i as int)).len(),
            forall|k: int| 0 <= k < words@.len() ==> #[trigger] words@[k]@ == split_ws(s@.subrange(0, i as int))[k],
            i == 0 ==> prev_ws,
            i > 0 ==> prev_ws == is_ws(s@[i - 1]),
            i > 0 && !prev_ws ==> words@.len() > 0,
        decreases n - i,
    {
        let c = s.get_char(i);
        let ws = is_whitespace(c);
        let ghost pre = s@.subrange(0, i as int);
        let ghost cur = s@.subrange(0, i + 1);
        assert(cur.drop_last() =~= pre);
        assert(cur.last() == c);
        if ws {
        } else if !prev_ws {
            assert(cur[cur.len() - 2] == s@[i - 1]);
            let last = words.len() - 1;
            let mut w = words.remove(last);
            w.push(c);
            words.push(w);
        } else {
            let mut w: Vec<char> = Vec::new();
            w.push(c);
            assert(w@ =~= seq![c]);
            words.push(w);
        }
        prev_ws = ws;
        i = i + 1;
        assert forall|k: int| 0 <= k < words@.len() implies #[trigger] words@[k]@ == split_ws(cur)[k] by {}
    }
    assert(s@.subrange(0, n as int) =~= s@);
    words
}

fn parse_word_u16(w: &Vec<char>) -> (r: Option<u16>)
    ensures
        r == parse_u16(w@),
{
    let start: usize = if w.len() > 0 && w[0] == '+' { 1 } else { 0 };
    let ghost d = if w@.len() > 0 && w@[0] == '+' { w@.drop_first() } else { w@ };
    assert(d =~= w@.subrange(start as int, w@.len() as int));
    assert(parse_u16(w@) == (if d.len() > 0 && all_digits(d) && digits_value(d) <= u16::MAX {
        Some(digits_value(d) as u16)
    } else {
        None
    }));
    if start >= w.len() {
        return None;
    }
    let mut v: u32 = 0;
    let mut i: usize = start;
    while i < w.len()
        invariant
            start <= i <= w@.len(),
            d =~= w@.subrange(start as int, w@.len() as int),
            d.len() > 0,
            parse_u16(w@) == (if all_digits(d) && digits_value(d) <= u16::MAX {
                Some(digits_value(d) as u16)
            } else {
                None
            }),
            all_digits(w@.subrange(start as int, i as int)),
            v == digits_value(w@.subrange(start as int, i as int)),
            v <= u16::MAX,
        decreases w@.len() - i,
    {
        let c = w[i];
        if c < '0' || c > '9' {
            assert(d[i - start] == c);
            assert(!all_digits(d));
            return None;
        }
        let ghost pre = w@.subrange(start as int, i as int);
        let ghost cur = w@.subrange(start as int, i + 1);
        assert(cur.drop_last() =~= pre);
        v = v * 10 + (c as u32 - '0' as u32);
        i = i + 1;
        assert(all_digits(cur));
        assert(v == digits_value(cur));
        if v > 65535 {
            proof {
                assert(d.subrange(0, (i - start) as int) =~= cur);
                lemma_prefix_bound(d, (i - start) as nat);
            }
            return None;
        }
    }
    assert(w@.subrange(start as int, i as int) =~= d);
    Some(v as u16)
}

proof fn lemma_prefix_bound(d: Seq<char>, k: nat)
    requires
        k <= d.len(),
        all_digits(d.subrange(0, k as int)),
    ensures
        all_digits(d) ==> digits_value(d) >= digits_value(d.subrange(0, k as int)),
    decreases d.len() - k,
{
    if k < d.len() && all_digits(d) {
        let e = d.subrange(0, k + 1 as int);
        assert(e.drop_last() =~= d.subrange(0, k as int));
        assert(all_digits(e));
        assert(digits_value(e) >= digits_value(d.subrange(0, k as int)));
        lemma_prefix_bound(d, k + 1);
    } else if all_digits(d) {
        assert(d.subrange(0, k as int) =~= d);
    }
}

impl TmuxPaneOffset {
    /// Reads `<top> <left> ...`: the first two words as 16-bit numbers;
    /// `None` with fewer words or when either does not parse.
    pub fn parse(output: &str) -> (r: Option<Self>)
        ensures
            r == if split_ws(output@).len() >= 2 {
                match (parse_u16(split_ws(output@)[0]), parse_u16(split_ws(output@)[1])) {
                    (Some(top), Some(left)) => Some(TmuxPaneOffset { top, left }),
                    _ => None,
                }
            } else {
                None
            },
    {
        let words = split_words(output);
        if words.len() < 2 {
            return None;
        }
        let top = match parse_word_u16(&words[0]) {
            Some(t) => t,
            None => return None,
        };
        let left = match parse_word_u16(&words[1]) {
            Some(l) => l,
            None => return None,
        };
        Some(TmuxPaneOffset { top, left })
    }
}

impl TmuxPaneInfo {
    /// Reads `<top> <left> <width> <height>`: exactly four words, each a
    /// 16-bit number; `None` otherwise.
    pub fn parse(output: &str) -> (r: Option<Self>)
        ensures
            r == if split_ws(output@).len() == 4 {
                match (
                    parse_u16(split_ws(output@)[0]),
                    parse_u16(split_ws(output@)[1]),
                    parse_u16(split_ws(output@)[2]),
                    parse_u16(split_ws(output@)[3]),
                ) {
                    (Some(top), Some(left), Some(width), Some(height)) => Some(
                        TmuxPaneInfo { top, left, width, height },
                    ),
                    _ => None,
                }
            } else {
                None
            },
    {
        let words = split_words(output);
        if words.len() != 4 {
            return None;
        }
        let top = match parse_word_u16(&words[0]) {
            Some(t) => t,
            None => return None,
        };
        let left = match parse_word_u16(&words[1]) {
            Some(l) => l,
            None => return None,
        };
        let width = match parse_word_u16(&words[2]) {
            Some(w) => w,
            None => return None,
        };
        let height = match parse_word_u16(&words[3]) {
            Some(h) => h,
            None => return None,
        };
        Some(TmuxPaneInfo { top, left, width, height })
    }
}

} // verus!
