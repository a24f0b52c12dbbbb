//! Byte-level building blocks of terminal escape sequences: decimal numbers,
//! cursor positioning, UTF-8 encoding and tmux passthrough escaping.

use vstd::prelude::*;

verus! {

/// The escape byte that starts every control sequence.
pub const ESC: u8 = 0x1b;

/// Decimal digits of `n`, most significant first, without leading zeros.
pub open spec fn dec(n: nat) -> Seq<u8>
    decreases n,
{
    if n < 10 {
        seq![(48 + n) as u8]
    } else {
        dec(n / 10) + seq![(48 + n % 10) as u8]
    }
}

/// Appends the decimal digits of `n`.
pub fn push_dec(out: &mut Vec<u8>, n: u64)
    ensures
        final(out)@ == old(out)@ + dec(n as nat),
    decreases n,
{
    if n >= 10 {
        push_dec(out, n / 10);
    }
    out.push((48 + n % 10) as u8);
}

/// Appends every byte of `s`.
pub fn push_bytes(out: &mut Vec<u8>, s: &[u8])
    ensures
        final(out)@ == old(out)@ + s@,
{
    let ghost start = out@;
    let mut i: usize = 0;
    while i < s.len()
        invariant
            i <= s@.len(),
            out@ == start + s@.subrange(0, i as int),
        decreases s@.len() - i,
    {
        out.push(s[i]);
        i = i + 1;
        assert(out@ =~= start + s@.subrange(0, i as int));
    }
    assert(s@.subrange(0, s@.len() as int) =~= s@);
}

/// Appends `s[start..end]`.
pub fn push_range(out: &mut Vec<u8>, s: &[u8], start: usize, end: usize)
    requires
        start <= end <= s@.len(),
    ensures
        final(out)@ == old(out)@ + s@.subrange(start as int, end as int),
{
    let ghost begin = out@;
    let mut i: usize = start;
    while i < end
        invariant
            start <= i <= end,
            end <= s@.len(),
            out@ == begin + s@.subrange(start as int, i as int),
        decreases end - i,
    {
        out.push(s[i]);
        i = i + 1;
        assert(out@ =~= begin + s@.subrange(start as int, i as int));
    }
}

/// `ESC [ row+1 ; col+1 H`: moves the cursor to a 0-indexed cell.
pub open spec fn cursor_to(row: nat, col: nat) -> Seq<u8> {
    seq![ESC, 0x5b] + dec(row + 1) + seq![0x3bu8] + dec(col + 1) + seq![0x48u8]
}

/// Appends the cursor movement to the 0-indexed cell `(col, row)`.
pub fn push_cursor_to(out: &mut Vec<u8>, row: u64, col: u64)
    requires
        row < u64::MAX,
        col < u64::MAX,
    ensures
        final(out)@ == old(out)@ + cursor_to(row as nat, col as nat),
{
    out.push(ESC);
    out.push(0x5b);
    push_dec(out, row + 1);
    out.push(0x3b);
    push_dec(out, col + 1);
    out.push(0x48);
    assert(out@ =~= old(out)@ + cursor_to(row as nat, col as nat));
}

/// Every escape byte of `s` doubled, all other bytes kept in order.
pub open spec fn tmux_escape(s: Seq<u8>) -> Seq<u8>
    decreases s.len(),
{
    if s.len() == 0 {
        Seq::empty()
    } else if s[0] == ESC {
        seq![ESC, ESC] + tmux_escape(s.drop_first())
    } else {
        seq![s[0]] + tmux_escape(s.drop_first())
    }
}

/// Undoes `tmux_escape`: a doubled escape byte becomes a single one.
pub open spec fn tmux_unescape(s: Seq<u8>) -> Seq<u8>
    decreases s.len(),
{
    if s.len() == 0 {
        Seq::empty()
    } else if s.len() >= 2 && s[0] == ESC && s[1] == ESC {
        seq![ESC] + tmux_unescape(s.subrange(2, s.len() as int))
    } else {
        seq![s[0]] + tmux_unescape(s.drop_first())
    }
}

/// Number of escape bytes in `s`.
pub open spec fn count_esc(s: Seq<u8>) -> nat
    decreases s.len(),
{
    if s.len() == 0 {
        0
    } else {
        (if s[0] == ESC { 1nat } else { 0nat }) + count_esc(s.drop_first())
    }
}

/// The tmux DCS passthrough of `s`: `ESC P tmux;`, the escaped bytes, `ESC \`.
pub open spec fn tmux_wrap(s: Seq<u8>) -> Seq<u8> {
    seq![ESC, 0x50, 0x74, 0x6d, 0x75, 0x78, 0x3b] + tmux_escape(s) + seq![ESC, 0x5c]
}

proof fn lemma_escape_push(s: Seq<u8>, b: u8)
    ensures
        tmux_escape(s.push(b)) == tmux_escape(s) + (if b == ESC {
            seq![ESC, ESC]
        } else {
            seq![b]
        }),
    decreases s.len(),
{
    if s.len() == 0 {
        assert(s.push(b).drop_first() =~= Seq::<u8>::empty());
        assert(tmux_escape(s.push(b).drop_first()) == Seq::<u8>::empty());
    } else {
        lemma_escape_push(s.drop_first(), b);
        assert(s.push(b).drop_first() =~= s.drop_first().push(b));
    }
    let e = tmux_escape(s.push(b));
    let t = if b == ESC { seq![ESC, ESC] } else { seq![b] };
    assert(e =~= tmux_escape(s) + t);
}

/// Appends `tmux_escape(s)`.
pub fn push_tmux_escaped(out: &mut Vec<u8>, s: &[u8])
    ensures
        final(out)@ == old(out)@ + tmux_escape(s@),
{
    let ghost start = out@;
    let mut i: usize = 0;
    while i < s.len()
        invariant
            i <= s@.len(),
            out@ == start + tmux_escape(s@.subrange(0, i as int)),
        decreases s@.len() - i,
    {
        proof {
            lemma_escape_push(s@.subrange(0, i as int), s@[i as int]);
            assert(s@.subrange(0, i as int).push(s@[i as int]) =~= s@.subrange(0, i + 1));
        }
        if s[i] == ESC {
            out.push(ESC);
            out.push(ESC);
        } else {
            out.push(s[i]);
        }
        i = i + 1;
        assert(out@ =~= start + tmux_escape(s@.subrange(0, i as int)));
    }
    assert(s@.subrange(0, s@.len() as int) =~= s@);
}

/// Appends `tmux_wrap(s)`.
pub fn push_tmux_wrapped(out: &mut Vec<u8>, s: &[u8])
    ensures
        final(out)@ == old(out)@ + tmux_wrap(s@),
{
    push_bytes(out, &[ESC, 0x50, 0x74, 0x6d, 0x75, 0x78, 0x3b]);
    push_tmux_escaped(out, s);
    out.push(ESC);
    out.push(0x5c);
    assert(out@ =~= old(out)@ + tmux_wrap(s@));
}

/// Escaping doubles the escape bytes: the result holds exactly twice as many
/// as the input, and removing the doubling gives the input back.
pub proof fn tmux_escape_round_trip(s: Seq<u8>)
    ensures
        count_esc(tmux_escape(s)) == 2 * count_esc(s),
        tmux_unescape(tmux_escape(s)) == s,
    decreases s.len(),
{
    if s.len() > 0 {
        let rest = s.drop_first();
        tmux_escape_round_trip(rest);
        let e = tmux_escape(s);
        if s[0] == ESC {
            assert(e.drop_first().drop_first() =~= tmux_escape(rest));
            assert(e.subrange(2, e.len() as int) =~= tmux_escape(rest));
            assert(e.drop_first()[0] == ESC);
            assert(count_esc(e.drop_first()) == 1 + count_esc(tmux_escape(rest)));
            assert(count_esc(e) == 1 + count_esc(e.drop_first()));
        } else {
            assert(e.drop_first() =~= tmux_escape(rest));
            assert(count_esc(e) == count_esc(e.drop_first()));
        }
        assert(tmux_unescape(e) =~= s);
    }
}

} // verus!
