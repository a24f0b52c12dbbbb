//! Kitty graphics protocol encoding: chunked transmission commands, tmux
//! passthrough framing and the Unicode placeholder grid used for virtual
//! placements.

use crate::escape::{
    cursor_to, dec, push_bytes, push_cursor_to, push_dec, push_range, push_tmux_wrapped, tmux_wrap,
    ESC,
};
use vstd::prelude::*;

verus! {

/// Largest number of base64 bytes carried by one transmission command.
pub const CHUNK_SIZE: usize = 4096;

/// The image slot that every transmission reuses.
pub const IMAGE_ID: u32 = 1;

/// The Unicode placeholder character U+10EEEE.
pub const PLACEHOLDER_CHAR: u32 = 0x10EEEE;

/// Placed images may span at most this many rows and columns in placeholder mode.
pub const MAX_PLACEHOLDER_CELLS: u16 = 256;

/// UTF-8 encoding of the code point `cp`.
pub open spec fn utf8(cp: nat) -> Seq<u8> {
    if cp < 0x80 {
        seq![cp as u8]
    } else if cp < 0x800 {
        seq![(0xC0 + cp / 64) as u8, (0x80 + cp % 64) as u8]
    } else if cp < 0x10000 {
        seq![(0xE0 + cp / 4096) as u8, (0x80 + (cp / 64) % 64) as u8, (0x80 + cp % 64) as u8]
    } else {
        seq![
            (0xF0 + cp / 262144) as u8,
            (0x80 + (cp / 4096) % 64) as u8,
            (0x80 + (cp / 64) % 64) as u8,
            (0x80 + cp % 64) as u8,
        ]
    }
}

/// Appends the UTF-8 encoding of a Unicode scalar value.
pub fn push_utf8(out: &mut Vec<u8>, cp: u32)
    ensures
        final(out)@ == old(out)@ + utf8(cp as nat),
{
    if cp < 0x80 {
        out.push(cp as u8);
    } else if cp < 0x800 {
        out.push((0xC0 + cp / 64) as u8);
        out.push((0x80 + cp % 64) as u8);
    } else if cp < 0x10000 {
        out.push((0xE0 + cp / 4096) as u8);
        out.push((0x80 + (cp / 64) % 64) as u8);
        out.push((0x80 + cp % 64) as u8);
    } else {
        out.push((0xF0 + cp / 262144) as u8);
        out.push((0x80 + (cp / 4096) % 64) as u8);
        out.push((0x80 + (cp / 64) % 64) as u8);
        out.push((0x80 + cp % 64) as u8);
    }
    assert(out@ =~= old(out)@ + utf8(cp as nat));
}

/// Combining diacritics (class 230) that encode a row or column index 0..=255.
pub open spec fn diacritics() -> Seq<u32> {
    seq![
        0x0305, 0x030D, 0x030E, 0x0310, 0x0312, 0x033D, 0x033E, 0x033F, 0x0346, 0x034A, 0x034B, 0x034C,
        0x0350, 0x0351, 0x0352, 0x0357, 0x035B, 0x0363, 0x0364, 0x0365, 0x0366, 0x0367, 0x0368, 0x0369,
        0x036A, 0x036B, 0x036C, 0x036D, 0x036E, 0x036F, 0x0483, 0x0484, 0x0485, 0x0486, 0x0487, 0x0592,
        0x0593, 0x0594, 0x0595, 0x0597, 0x0598, 0x0599, 0x059C, 0x059D, 0x059E, 0x059F, 0x05A0, 0x05A1,
        0x05A8, 0x05A9, 0x05AB, 0x05AC, 0x05AF, 0x05C4, 0x0610, 0x0611, 0x0612, 0x0613, 0x0614, 0x0615,
        0x0616, 0x0617, 0x0657, 0x0658, 0x0659, 0x065A, 0x065B, 0x065D, 0x065E, 0x06D6, 0x06D7, 0x06D8,
        0x06D9, 0x06DA, 0x06DB, 0x06DC, 0x06DF, 0x06E0, 0x06E1, 0x06E2, 0x06E4, 0x06E7, 0x06E8, 0x06EB,
        0x06EC, 0x0730, 0x0732, 0x0733, 0x0735, 0x0736, 0x073A, 0x073D, 0x073F, 0x0740, 0x0741, 0x0743,
        0x0745, 0x0747, 0x0749, 0x074A, 0x07EB, 0x07EC, 0x07ED, 0x07EE, 0x07EF, 0x07F0, 0x07F1, 0x07F3,
        0x0816, 0x0817, 0x0818, 0x0819, 0x081B, 0x081C, 0x081D, 0x081E, 0x081F, 0x0820, 0x0821, 0x0822,
        0x0823, 0x0825, 0x0826, 0x0827, 0x0829, 0x082A, 0x082B, 0x082C, 0x082D, 0x0951, 0x0953, 0x0954,
        0x0F82, 0x0F83, 0x0F86, 0x0F87, 0x135D, 0x135E, 0x135F, 0x17DD, 0x193A, 0x1A17, 0x1A75, 0x1A76,
        0x1A77, 0x1A78, 0x1A79, 0x1A7A, 0x1A7B, 0x1A7C, 0x1B6B, 0x1B6D, 0x1B6E, 0x1B6F, 0x1B70, 0x1B71,
        0x1B72, 0x1B73, 0x1CD0, 0x1CD1, 0x1CD2, 0x1CDA, 0x1CDB, 0x1CE0, 0x1DC0, 0x1DC1, 0x1DC3, 0x1DC4,
        0x1DC5, 0x1DC6, 0x1DC7, 0x1DC8, 0x1DC9, 0x1DCB, 0x1DCC, 0x1DD1, 0x1DD2, 0x1DD3, 0x1DD4, 0x1DD5,
        0x1DD6, 0x1DD7, 0x1DD8, 0x1DD9, 0x1DDA, 0x1DDB, 0x1DDC, 0x1DDD, 0x1DDE, 0x1DDF, 0x1DE0, 0x1DE1,
        0x1DE2, 0x1DE3, 0x1DE4, 0x1DE5, 0x1DE6, 0x1DFE, 0x20D0, 0x20D1, 0x20D4, 0x20D5, 0x20D6, 0x20D7,
        0x20DB, 0x20DC, 0x20E1, 0x20E7, 0x20E9, 0x20F0, 0x2CEF, 0x2CF0, 0x2CF1, 0x2DE0, 0x2DE1, 0x2DE2,
        0x2DE3, 0x2DE4, 0x2DE5, 0x2DE6, 0x2DE7, 0x2DE8, 0x2DE9, 0x2DEA, 0x2DEB, 0x2DEC, 0x2DED, 0x2DEE,
        0x2DEF, 0x2DF0, 0x2DF1, 0x2DF2, 0x2DF3, 0x2DF4, 0x2DF5, 0x2DF6, 0x2DF7, 0x2DF8, 0x2DF9, 0x2DFA,
        0x2DFB, 0x2DFC, 0x2DFD, 0x2DFE, 0x2DFF, 0xA66F, 0xA67C, 0xA67D, 0xA6F0, 0xA6F1, 0xA8E0, 0xA8E1,
        0xA8E2, 0xA8E3, 0xA8E4, 0xA8E5,
    ]
}

/// The diacritics table as a vector.
pub fn diacritic_table() -> (t: Vec<u32>)
    ensures
        t@ == diacritics(),
{
    let t: Vec<u32> = vec![
        0x0305, 0x030D, 0x030E, 0x0310, 0x0312, 0x033D, 0x033E, 0x033F, 0x0346, 0x034A, 0x034B, 0x034C,
        0x0350, 0x0351, 0x0352, 0x0357, 0x035B, 0x0363, 0x0364, 0x0365, 0x0366, 0x0367, 0x0368, 0x0369,
        0x036A, 0x036B, 0x036C, 0x036D, 0x036E, 0x036F, 0x0483, 0x0484, 0x0485, 0x0486, 0x0487, 0x0592,
        0x0593, 0x0594, 0x0595, 0x0597, 0x0598, 0x0599, 0x059C, 0x059D, 0x059E, 0x059F, 0x05A0, 0x05A1,
        0x05A8, 0x05A9, 0x05AB, 0x05AC, 0x05AF, 0x05C4, 0x0610, 0x0611, 0x0612, 0x0613, 0x0614, 0x0615,
        0x0616, 0x0617, 0x0657, 0x0658, 0x0659, 0x065A, 0x065B, 0x065D, 0x065E, 0x06D6, 0x06D7, 0x06D8,
        0x06D9, 0x06DA, 0x06DB, 0x06DC, 0x06DF, 0x06E0, 0x06E1, 0x06E2, 0x06E4, 0x06E7, 0x06E8, 0x06EB,
        0x06EC, 0x0730, 0x0732, 0x0733, 0x0735, 0x0736, 0x073A, 0x073D, 0x073F, 0x0740, 0x0741, 0x0743,
        0x0745, 0x0747, 0x0749, 0x074A, 0x07EB, 0x07EC, 0x07ED, 0x07EE, 0x07EF, 0x07F0, 0x07F1, 0x07F3,
        0x0816, 0x0817, 0x0818, 0x0819, 0x081B, 0x081C, 0x081D, 0x081E, 0x081F, 0x0820, 0x0821, 0x0822,
        0x0823, 0x0825, 0x0826, 0x0827, 0x0829, 0x082A, 0x082B, 0x082C, 0x082D, 0x0951, 0x0953, 0x0954,
        0x0F82, 0x0F83, 0x0F86, 0x0F87, 0x135D, 0x135E, 0x135F, 0x17DD, 0x193A, 0x1A17, 0x1A75, 0x1A76,
        0x1A77, 0x1A78, 0x1A79, 0x1A7A, 0x1A7B, 0x1A7C, 0x1B6B, 0x1B6D, 0x1B6E, 0x1B6F, 0x1B70, 0x1B71,
        0x1B72, 0x1B73, 0x1CD0, 0x1CD1, 0x1CD2, 0x1CDA, 0x1CDB, 0x1CE0, 0x1DC0, 0x1DC1, 0x1DC3, 0x1DC4,
        0x1DC5, 0x1DC6, 0x1DC7, 0x1DC8, 0x1DC9, 0x1DCB, 0x1DCC, 0x1DD1, 0x1DD2, 0x1DD3, 0x1DD4, 0x1DD5,
        0x1DD6, 0x1DD7, 0x1DD8, 0x1DD9, 0x1DDA, 0x1DDB, 0x1DDC, 0x1DDD, 0x1DDE, 0x1DDF, 0x1DE0, 0x1DE1,
        0x1DE2, 0x1DE3, 0x1DE4, 0x1DE5, 0x1DE6, 0x1DFE, 0x20D0, 0x20D1, 0x20D4, 0x20D5, 0x20D6, 0x20D7,
        0x20DB, 0x20DC, 0x20E1, 0x20E7, 0x20E9, 0x20F0, 0x2CEF, 0x2CF0, 0x2CF1, 0x2DE0, 0x2DE1, 0x2DE2,
        0x2DE3, 0x2DE4, 0x2DE5, 0x2DE6, 0x2DE7, 0x2DE8, 0x2DE9, 0x2DEA, 0x2DEB, 0x2DEC, 0x2DED, 0x2DEE,
        0x2DEF, 0x2DF0, 0x2DF1, 0x2DF2, 0x2DF3, 0x2DF4, 0x2DF5, 0x2DF6, 0x2DF7, 0x2DF8, 0x2DF9, 0x2DFA,
        0x2DFB, 0x2DFC, 0x2DFD, 0x2DFE, 0x2DFF, 0xA66F, 0xA67C, 0xA67D, 0xA6F0, 0xA6F1, 0xA8E0, 0xA8E1,
        0xA8E2, 0xA8E3, 0xA8E4, 0xA8E5,
    ];
    assert(t@ =~= diacritics());
    t
}


/// Number of chunks a payload of `len` bytes is split into.
pub open spec fn chunk_count(len: nat) -> nat {
    len / 4096 + if len % 4096 == 0 {
        0nat
    } else {
        1nat
    }
}

/// The `i`-th chunk of the payload `p`: at most 4096 bytes starting at `i * 4096`.
pub open spec fn chunk(p: Seq<u8>, i: nat) -> Seq<u8> {
    let end: int = if (i + 1) * 4096 <= p.len() {
        ((i + 1) * 4096) as int
    } else {
        p.len() as int
    };
    p.subrange((i * 4096) as int, end)
}

/// The continuation flag of chunk `i` out of `n`: `1` while more follow, `0` on the last.
pub open spec fn more_flag(i: nat, n: nat) -> u8 {
    if i + 1 < n {
        0x31
    } else {
        0x30
    }
}

/// Transmit-and-display parameters: PNG data sent directly, responses
/// suppressed; a virtual placement (`U=1`) or a direct one that leaves the
/// cursor in place (`C=1`).
pub open spec fn transmit_params(id: nat, cols: nat, rows: nat, virtual_placement: bool) -> Seq<u8> {
    seq![0x61, 0x3d, 0x54, 0x2c, 0x66, 0x3d, 0x31, 0x30, 0x30, 0x2c, 0x74, 0x3d, 0x64, 0x2c, 0x69, 0x3d] + dec(id) + seq![0x2c, 0x63, 0x3d] + dec(cols) + seq![0x2c, 0x72, 0x3d] + dec(rows) + if virtual_placement {
        seq![0x2c, 0x55, 0x3d, 0x31, 0x2c, 0x71, 0x3d, 0x32]
    } else {
        seq![0x2c, 0x43, 0x3d, 0x31, 0x2c, 0x71, 0x3d, 0x32]
    }
}

/// Appends `transmit_params(id, cols, rows, virtual_placement)`.
pub fn push_transmit_params(out: &mut Vec<u8>, id: u32, cols: u32, rows: u32, virtual_placement: bool)
    ensures
        final(out)@ == old(out)@ + transmit_params(id as nat, cols as nat, rows as nat, virtual_placement),
{
    push_bytes(out, &[0x61, 0x3d, 0x54, 0x2c, 0x66, 0x3d, 0x31, 0x30, 0x30, 0x2c, 0x74, 0x3d, 0x64, 0x2c, 0x69, 0x3d]);
    push_dec(out, id as u64);
    push_bytes(out, &[0x2c, 0x63, 0x3d]);
    push_dec(out, cols as u64);
    push_bytes(out, &[0x2c, 0x72, 0x3d]);
    push_dec(out, rows as u64);
    if virtual_placement {
        push_bytes(out, &[0x2c, 0x55, 0x3d, 0x31, 0x2c, 0x71, 0x3d, 0x32]);
    } else {
        push_bytes(out, &[0x2c, 0x43, 0x3d, 0x31, 0x2c, 0x71, 0x3d, 0x32]);
    }
    assert(out@ =~= old(out)@ + transmit_params(id as nat, cols as nat, rows as nat, virtual_placement));
}

/// Graphics command `i` of the transmission of payload `p`:
/// `ESC _G`, the parameters and a comma on the first chunk only, `m=<flag>;`,
/// the chunk, `ESC \`.
pub open spec fn chunk_command(params: Seq<u8>, p: Seq<u8>, i: nat) -> Seq<u8> {
    seq![ESC, 0x5f, 0x47] + (if i == 0 {
        params + seq![0x2cu8]
    } else {
        Seq::empty()
    }) + seq![0x6d, 0x3d, more_flag(i, chunk_count(p.len())), 0x3b] + chunk(p, i) + seq![ESC, 0x5c]
}

/// The first `k` commands, each wrapped for tmux passthrough when `tmux` holds.
pub open spec fn chunk_commands(params: Seq<u8>, p: Seq<u8>, k: nat, tmux: bool) -> Seq<u8>
    decreases k,
{
    if k == 0 {
        Seq::empty()
    } else {
        let c = chunk_command(params, p, (k - 1) as nat);
        chunk_commands(params, p, (k - 1) as nat, tmux) + if tmux {
            tmux_wrap(c)
        } else {
            c
        }
    }
}

/// The full chunked transmission of payload `p`.
pub open spec fn transmission(params: Seq<u8>, p: Seq<u8>, tmux: bool) -> Seq<u8> {
    chunk_commands(params, p, chunk_count(p.len()), tmux)
}

/// The chunks of `p` from the first up to (not including) chunk `k`, concatenated.
pub open spec fn chunks_joined(p: Seq<u8>, k: nat) -> Seq<u8>
    decreases k,
{
    if k == 0 {
        Seq::empty()
    } else {
        chunks_joined(p, (k - 1) as nat) + chunk(p, (k - 1) as nat)
    }
}

/// Number of chunks of a payload of `len` bytes, computed without overflow.
pub fn count_chunks(len: usize) -> (n: usize)
    ensures
        n == chunk_count(len as nat),
{
    if len % CHUNK_SIZE == 0 {
        len / CHUNK_SIZE
    } else {
        len / CHUNK_SIZE + 1
    }
}

/// Appends `chunk_command(params, p, i)`.
pub fn push_chunk_command(out: &mut Vec<u8>, params: &[u8], p: &[u8], i: usize)
    requires
        i < chunk_count(p@.len() as nat),
    ensures
        final(out)@ == old(out)@ + chunk_command(params@, p@, i as nat),
{
    let n = count_chunks(p.len());
    out.push(ESC);
    out.push(0x5f);
    out.push(0x47);
    if i == 0 {
        push_bytes(out, params);
        out.push(0x2c);
    }
    out.push(0x6d);
    out.push(0x3d);
    if i + 1 < n {
        out.push(0x31);
    } else {
        out.push(0x30);
    }
    out.push(0x3b);
    let start = i * CHUNK_SIZE;
    let end = if p.len() / CHUNK_SIZE > i {
        start + CHUNK_SIZE
    } else {
        p.len()
    };
    assert(end as int == if (i + 1) * 4096 <= p@.len() {
        (i + 1) * 4096
    } else {
        p@.len() as int
    });
    push_range(out, p, start, end);
    out.push(ESC);
    out.push(0x5c);
    assert(out@ =~= old(out)@ + chunk_command(params@, p@, i as nat));
}

/// Appends `transmission(params, p, tmux)`.
pub fn push_transmission(out: &mut Vec<u8>, params: &[u8], p: &[u8], tmux: bool)
    ensures
        final(out)@ == old(out)@ + transmission(params@, p@, tmux),
{
    let ghost start = out@;
    let n = count_chunks(p.len());
    let mut i: usize = 0;
    while i < n
        invariant
            i <= n,
            n == chunk_count(p@.len() as nat),
            out@ == start + chunk_commands(params@, p@, i as nat, tmux),
        decreases n - i,
    {
        let mut cmd: Vec<u8> = Vec::new();
        push_chunk_command(&mut cmd, params, p, i);
        if tmux {
            push_tmux_wrapped(out, cmd.as_slice());
        } else {
            push_bytes(out, cmd.as_slice());
        }
        i = i + 1;
        assert(out@ =~= start + chunk_commands(params@, p@, i as nat, tmux));
    }
}

/// SGR foreground colour that encodes an image id: a 256-colour index below
/// 256, otherwise the id's three low bytes as 24-bit red, green and blue.
pub open spec fn id_color(id: nat) -> Seq<u8> {
    if id < 256 {
        seq![ESC, 0x5b, 0x33, 0x38, 0x3b, 0x35, 0x3b] + dec(id) + seq![0x6du8]
    } else {
        seq![ESC, 0x5b, 0x33, 0x38, 0x3b, 0x32, 0x3b] + dec((id / 65536) % 256) + seq![0x3bu8]
            + dec((id / 256) % 256) + seq![0x3bu8] + dec(id % 256) + seq![0x6du8]
    }
}

/// Appends `id_color(id)`.
pub fn push_id_color(out: &mut Vec<u8>, id: u32)
    ensures
        final(out)@ == old(out)@ + id_color(id as nat),
{
    if id < 256 {
        push_bytes(out, &[ESC, 0x5b, 0x33, 0x38, 0x3b, 0x35, 0x3b]);
        push_dec(out, id as u64);
        out.push(0x6d);
    } else {
        push_bytes(out, &[ESC, 0x5b, 0x33, 0x38, 0x3b, 0x32, 0x3b]);
        push_dec(out, ((id / 65536) % 256) as u64);
        out.push(0x3b);
        push_dec(out, ((id / 256) % 256) as u64);
        out.push(0x3b);
        push_dec(out, (id % 256) as u64);
        out.push(0x6d);
    }
    assert(out@ =~= old(out)@ + id_color(id as nat));
}

/// `ESC [39m`: back to the default foreground colour.
pub open spec fn reset_foreground() -> Seq<u8> {
    seq![ESC, 0x5b, 0x33, 0x39, 0x6d]
}

/// One placeholder cell: U+10EEEE, the row diacritic, the column diacritic.
pub open spec fn placeholder_cell(r: nat, c: nat) -> Seq<u8> {
    utf8(PLACEHOLDER_CHAR as nat) + utf8(diacritics()[r as int] as nat) + utf8(
        diacritics()[c as int] as nat,
    )
}

/// The first `k` cells of placeholder row `r`.
pub open spec fn placeholder_row(r: nat, k: nat) -> Seq<u8>
    decreases k,
{
    if k == 0 {
        Seq::empty()
    } else {
        placeholder_row(r, (k - 1) as nat) + placeholder_cell(r, (k - 1) as nat)
    }
}

/// The first `k` rows of a placeholder grid `cols` wide whose top-left cell is
/// `(col, row)`; every row after the first starts with a cursor move.
pub open spec fn placeholder_rows(k: nat, cols: nat, row: nat, col: nat) -> Seq<u8>
    decreases k,
{
    if k == 0 {
        Seq::empty()
    } else {
        let r = (k - 1) as nat;
        placeholder_rows(r, cols, row, col) + (if r > 0 {
            cursor_to(row + r, col)
        } else {
            Seq::empty()
        }) + placeholder_row(r, cols)
    }
}

/// Appends the placeholder grid `rows` by `cols` at `(col, row)`.
pub fn push_placeholder_grid(out: &mut Vec<u8>, rows: u16, cols: u16, row: u16, col: u16)
    requires
        rows <= MAX_PLACEHOLDER_CELLS,
        cols <= MAX_PLACEHOLDER_CELLS,
    ensures
        final(out)@ == old(out)@ + placeholder_rows(rows as nat, cols as nat, row as nat, col as nat),
{
    let t = diacritic_table();
    assert(t@.len() == 256);
    let ghost start = out@;
    let mut r: u16 = 0;
    while r < rows
        invariant
            r <= rows <= 256,
            cols <= 256,
            t@ == diacritics(),
            t@.len() == 256,
            out@ == start + placeholder_rows(r as nat, cols as nat, row as nat, col as nat),
        decreases rows - r,
    {
        let ghost before_row = out@;
        if r > 0 {
            push_cursor_to(out, row as u64 + r as u64, col as u64);
        }
        let ghost row_start = out@;
        let mut c: u16 = 0;
        while c < cols
            invariant
                c <= cols <= 256,
                r < rows <= 256,
                t@ == diacritics(),
                t@.len() == 256,
                out@ == row_start + placeholder_row(r as nat, c as nat),
            decreases cols - c,
        {
            push_utf8(out, PLACEHOLDER_CHAR);
            push_utf8(out, t[r as usize]);
            push_utf8(out, t[c as usize]);
            c = c + 1;
            assert(out@ =~= row_start + placeholder_row(r as nat, c as nat));
        }
        r = r + 1;
        assert(out@ =~= start + placeholder_rows(r as nat, cols as nat, row as nat, col as nat));
    }
}


/// Direct placement: move to `(col, row)`, then the transmission of `encoded`
/// with `C=1` so that the cursor stays put.
pub open spec fn direct_stream(encoded: Seq<u8>, cols: nat, rows: nat, col: nat, row: nat) -> Seq<u8> {
    cursor_to(row, col) + transmission(transmit_params(IMAGE_ID as nat, cols, rows, false), encoded, false)
}

/// Virtual placement under tmux: the transmission with `U=1`, every command
/// wrapped for passthrough, then the placeholder grid in the colour that
/// names the image, then the default colour again.
pub open spec fn placeholder_stream(encoded: Seq<u8>, cols: nat, rows: nat, col: nat, row: nat) -> Seq<u8> {
    transmission(transmit_params(IMAGE_ID as nat, cols, rows, true), encoded, true) + cursor_to(row, col)
        + id_color(IMAGE_ID as nat) + placeholder_rows(rows, cols, row, col) + reset_foreground()
}

/// Appends the direct-mode transmission of the base64 payload `encoded`.
pub fn push_kitty_direct(out: &mut Vec<u8>, encoded: &[u8], cols: u32, rows: u32, col: u16, row: u16)
    ensures
        final(out)@ == old(out)@ + direct_stream(encoded@, cols as nat, rows as nat, col as nat, row as nat),
{
    let mut params: Vec<u8> = Vec::new();
    push_transmit_params(&mut params, IMAGE_ID, cols, rows, false);
    push_cursor_to(out, row as u64, col as u64);
    push_transmission(out, params.as_slice(), encoded, false);
    assert(out@ =~= old(out)@ + direct_stream(encoded@, cols as nat, rows as nat, col as nat, row as nat));
}

/// Appends the placeholder-mode transmission of the base64 payload `encoded`
/// and its placeholder grid.
pub fn push_kitty_placeholder(
    out: &mut Vec<u8>,
    encoded: &[u8],
    cols: u32,
    rows: u32,
    col: u16,
    row: u16,
)
    requires
        cols <= MAX_PLACEHOLDER_CELLS,
        rows <= MAX_PLACEHOLDER_CELLS,
    ensures
        final(out)@ == old(out)@ + placeholder_stream(encoded@, cols as nat, rows as nat, col as nat, row as nat),
{
    let mut params: Vec<u8> = Vec::new();
    push_transmit_params(&mut params, IMAGE_ID, cols, rows, true);
    push_transmission(out, params.as_slice(), encoded, true);
    push_cursor_to(out, row as u64, col as u64);
    push_id_color(out, IMAGE_ID);
    push_placeholder_grid(out, rows as u16, cols as u16, row, col);
    push_bytes(out, &[ESC, 0x5b, 0x33, 0x39, 0x6d]);
    assert(out@ =~= old(out)@ + placeholder_stream(encoded@, cols as nat, rows as nat, col as nat, row as nat));
}


proof fn lemma_chunks_prefix(p: Seq<u8>, k: nat)
    requires
        k <= chunk_count(p.len()),
    ensures
        chunks_joined(p, k) == p.subrange(
            0,
            if k * 4096 <= p.len() {
                (k * 4096) as int
            } else {
                p.len() as int
            },
        ),
    decreases k,
{
    if k == 0 {
        assert(chunks_joined(p, 0) =~= p.subrange(0, 0));
    } else {
        let j = (k - 1) as nat;
        lemma_chunks_prefix(p, j);
        assert(j * 4096 < p.len());
        let end: int = if k * 4096 <= p.len() {
            (k * 4096) as int
        } else {
            p.len() as int
        };
        assert(p.subrange(0, (j * 4096) as int) + p.subrange((j * 4096) as int, end) =~= p.subrange(
            0,
            end,
        ));
    }
}

/// Splitting loses nothing: the chunks of a transmission, joined in order,
/// are the payload.
pub proof fn chunks_rejoin(p: Seq<u8>)
    ensures
        chunks_joined(p, chunk_count(p.len())) == p,
{
    lemma_chunks_prefix(p, chunk_count(p.len()));
    assert(p.subrange(0, p.len() as int) =~= p);
}

/// A payload of `L` bytes travels in `ceil(L / 4096)` chunks; every chunk but
/// the last is full and flagged `m=1`, the last holds the rest and is
/// flagged `m=0`.
pub proof fn chunk_framing(p: Seq<u8>)
    ensures
        chunk_count(p.len()) * 4096 >= p.len(),
        p.len() > 0 ==> (chunk_count(p.len()) - 1) * 4096 < p.len(),
        forall|i: nat|
            i + 1 < chunk_count(p.len()) ==> more_flag(i, chunk_count(p.len())) == 0x31 && (#[trigger] chunk(
                p,
                i,
            )).len() == 4096,
        chunk_count(p.len()) > 0 ==> more_flag(
            (chunk_count(p.len()) - 1) as nat,
            chunk_count(p.len()),
        ) == 0x30 && 0 < chunk(p, (chunk_count(p.len()) - 1) as nat).len() <= 4096,
{
    let n = chunk_count(p.len());
    assert forall|i: nat| i + 1 < n implies more_flag(i, n) == 0x31 && (#[trigger] chunk(p, i)).len()
        == 4096 by {
        assert((i + 1) * 4096 <= p.len());
    }
}

/// The first `k` commands of the legacy tmux passthrough transmission: each
/// command wrapped on its own, the first one preceded, inside its wrapper,
/// by the cursor move to `(col, row)`.
pub open spec fn legacy_commands(params: Seq<u8>, p: Seq<u8>, k: nat, row: nat, col: nat) -> Seq<u8>
    decreases k,
{
    if k == 0 {
        Seq::empty()
    } else {
        let i = (k - 1) as nat;
        let c = chunk_command(params, p, i);
        legacy_commands(params, p, i, row, col) + tmux_wrap(
            if i == 0 {
                cursor_to(row, col) + c
            } else {
                c
            },
        )
    }
}

/// Legacy placement under tmux without placeholders: the direct-mode
/// command stream sent through passthrough. The dispatcher does not use it;
/// placeholder mode is the supported path inside tmux.
pub open spec fn legacy_tmux_stream(encoded: Seq<u8>, cols: nat, rows: nat, col: nat, row: nat) -> Seq<u8> {
    legacy_commands(
        transmit_params(IMAGE_ID as nat, cols, rows, false),
        encoded,
        chunk_count(encoded.len()),
        row,
        col,
    )
}

/// Appends the legacy tmux passthrough transmission of the base64 payload `encoded`.
pub fn push_kitty_tmux_legacy(out: &mut Vec<u8>, encoded: &[u8], cols: u32, rows: u32, col: u16, row: u16)
    ensures
        final(out)@ == old(out)@ + legacy_tmux_stream(encoded@, cols as nat, rows as nat, col as nat, row as nat),
{
    let mut params: Vec<u8> = Vec::new();
    push_transmit_params(&mut params, IMAGE_ID, cols, rows, false);
    let ghost start = out@;
    let n = count_chunks(encoded.len());
    let mut i: usize = 0;
    while i < n
        invariant
            i <= n,
            n == chunk_count(encoded@.len() as nat),
            out@ == start + legacy_commands(params@, encoded@, i as nat, row as nat, col as nat),
        decreases n - i,
    {
        let mut cmd: Vec<u8> = Vec::new();
        if i == 0 {
            push_cursor_to(&mut cmd, row as u64, col as u64);
        }
        push_chunk_command(&mut cmd, params.as_slice(), encoded, i);
        push_tmux_wrapped(out, cmd.as_slice());
        i = i + 1;
        assert(out@ =~= start + legacy_commands(params@, encoded@, i as nat, row as nat, col as nat));
    }
}

} // verus!
