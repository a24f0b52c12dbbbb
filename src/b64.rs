//! Standard base64 (RFC 4648 alphabet, `=` padding) as a specification, and
//! the decoding that inverts it.

use vstd::prelude::*;

verus! {

/// The alphabet: A-Z, a-z, 0-9, `+`, `/`.
pub open spec fn b64_char(v: int) -> u8 {
    if v < 26 {
        (65 + v) as u8
    } else if v < 52 {
        (97 + v - 26) as u8
    } else if v < 62 {
        (48 + v - 52) as u8
    } else if v == 62 {
        0x2b
    } else {
        0x2f
    }
}

/// The 6-bit value of an alphabet character (0 for any other byte).
pub open spec fn b64_value(c: u8) -> int {
    if 65 <= c <= 90 {
        c - 65
    } else if 97 <= c <= 122 {
        c - 97 + 26
    } else if 48 <= c <= 57 {
        c - 48 + 52
    } else if c == 0x2b {
        62
    } else if c == 0x2f {
        63
    } else {
        0
    }
}

/// Base64 of `d`: each group of three bytes as four characters, a final
/// group of one or two bytes padded with `=` to four.
pub open spec fn base64_of(d: Seq<u8>) -> Seq<u8>
    decreases d.len(),
{
    if d.len() == 0 {
        Seq::empty()
    } else {
        let a = d[0] as int;
        let b = if d.len() > 1 { d[1] as int } else { 0 };
        let c = if d.len() > 2 { d[2] as int } else { 0 };
        if d.len() == 1 {
            seq![b64_char(a / 4), b64_char((a % 4) * 16), 0x3du8, 0x3du8]
        } else if d.len() == 2 {
            seq![b64_char(a / 4), b64_char((a % 4) * 16 + b / 16), b64_char((b % 16) * 4), 0x3du8]
        } else {
            seq![
                b64_char(a / 4),
                b64_char((a % 4) * 16 + b / 16),
                b64_char((b % 16) * 4 + c / 64),
                b64_char(c % 64),
            ] + base64_of(d.subrange(3, d.len() as int))
        }
    }
}

/// Decoding: every four characters give three bytes, fewer where the group
/// ends in `=` padding.
pub open spec fn base64_decode(s: Seq<u8>) -> Seq<u8>
    decreases s.len(),
{
    if s.len() < 4 {
        Seq::empty()
    } else {
        let v0 = b64_value(s[0]);
        let v1 = b64_value(s[1]);
        let v2 = b64_value(s[2]);
        let v3 = b64_value(s[3]);
        let b0 = (v0 * 4 + v1 / 16) as u8;
        let b1 = ((v1 % 16) * 16 + v2 / 4) as u8;
        let b2 = ((v2 % 4) * 64 + v3) as u8;
        let group = if s[2] == 0x3d {
            seq![b0]
        } else if s[3] == 0x3d {
            seq![b0, b1]
        } else {
            seq![b0, b1, b2]
        };
        group + base64_decode(s.subrange(4, s.len() as int))
    }
}

proof fn lemma_char_value(v: int)
    requires
        0 <= v < 64,
    ensures
        b64_value(b64_char(v)) == v,
        b64_char(v) != 0x3d,
{
}

/// Decoding undoes encoding: the base64 of any bytes decodes to them.
pub proof fn base64_round_trip(d: Seq<u8>)
    ensures
        base64_decode(base64_of(d)) == d,
    decreases d.len(),
{
    if d.len() == 0 {
        assert(base64_decode(base64_of(d)) =~= d);
    } else {
        let a = d[0] as int;
        lemma_char_value(a / 4);
        if d.len() == 1 {
            lemma_char_value((a % 4) * 16);
            let e = base64_of(d);
            assert(e.subrange(4, e.len() as int) =~= Seq::<u8>::empty());
            assert(e[2] == 0x3d);
            assert((a / 4) * 4 + ((a % 4) * 16) / 16 == a);
            assert(base64_decode(e) == seq![((a / 4) * 4 + ((a % 4) * 16) / 16) as u8] + base64_decode(Seq::<u8>::empty()));
            assert(base64_decode(e) =~= d);
        } else {
            let b = d[1] as int;
            lemma_char_value((a % 4) * 16 + b / 16);
            if d.len() == 2 {
                lemma_char_value((b % 16) * 4);
                let e = base64_of(d);
                assert(e.subrange(4, e.len() as int) =~= Seq::<u8>::empty());
                assert(e[2] != 0x3d && e[3] == 0x3d);
                let v1 = (a % 4) * 16 + b / 16;
                assert((a / 4) * 4 + v1 / 16 == a);
                assert((v1 % 16) * 16 + ((b % 16) * 4) / 4 == b);
                assert(base64_decode(e) == seq![((a / 4) * 4 + v1 / 16) as u8, ((v1 % 16) * 16 + ((b % 16) * 4) / 4) as u8] + base64_decode(Seq::<u8>::empty()));
                assert(base64_decode(e) =~= d);
            } else {
                let c = d[2] as int;
                lemma_char_value((b % 16) * 4 + c / 64);
                lemma_char_value(c % 64);
                let rest = d.subrange(3, d.len() as int);
                base64_round_trip(rest);
                let e = base64_of(d);
                assert(e.subrange(4, e.len() as int) =~= base64_of(rest));
                assert(base64_decode(e) =~= seq![d[0], d[1], d[2]] + rest);
                assert(seq![d[0], d[1], d[2]] + rest =~= d);
            }
        }
    }
}

} // verus!
