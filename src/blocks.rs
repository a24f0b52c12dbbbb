//! Unicode block rendering: every cell shows one sampled pixel as a shade glyph.

use crate::escape::{cursor_to, push_bytes, push_cursor_to};
use vstd::prelude::*;

verus! {

/// Shade glyph of a brightness level 0..=7: space, light shade twice,
/// medium shade twice, dark shade twice, full block.
pub open spec fn block_glyph(level: nat) -> Seq<u8> {
    if level == 0 {
        seq![0x20u8]
    } else if level <= 2 {
        seq![0xe2u8, 0x96, 0x91]
    } else if level <= 4 {
        seq![0xe2u8, 0x96, 0x92]
    } else if level <= 6 {
        seq![0xe2u8, 0x96, 0x93]
    } else {
        seq![0xe2u8, 0x96, 0x88]
    }
}

/// Brightness level of a pixel: its channel mean divided into steps of 32, at most 7.
pub open spec fn brightness_level(r: u8, g: u8, b: u8) -> nat {
    let mean = (r as nat + g as nat + b as nat) / 3;
    if mean / 32 < 7 {
        mean / 32
    } else {
        7
    }
}

/// Cells across: the requested count, else the pixel width over the block
/// cell width of 8 pixels.
pub open spec fn block_cols(width: u32, width_cells: Option<u16>) -> nat {
    match width_cells {
        Some(w) => w as nat,
        None => (width / 8) as nat,
    }
}

/// Cells down: the requested count, else the pixel height over the block
/// cell height of 16 pixels.
pub open spec fn block_rows(height: u32, height_cells: Option<u16>) -> nat {
    match height_cells {
        Some(h) => h as nat,
        None => (height / 16) as nat,
    }
}

/// The glyph for source pixel `(px, py)` of an RGB buffer, a space outside the image.
pub open spec fn block_sample(data: Seq<u8>, width: nat, height: nat, px: nat, py: nat) -> Seq<u8> {
    if px < width && py < height {
        let idx = (py * width + px) * 3;
        if idx + 2 < data.len() {
            block_glyph(brightness_level(data[idx as int], data[idx + 1 as int], data[idx + 2 as int]))
        } else {
            seq![0x20u8]
        }
    } else {
        seq![0x20u8]
    }
}

/// The first `k` glyphs of cell row `cy`, for a grid of `cols` by `rows` cells.
pub open spec fn block_line(
    data: Seq<u8>,
    width: nat,
    height: nat,
    cols: nat,
    rows: nat,
    cy: nat,
    k: nat,
) -> Seq<u8>
    decreases k,
{
    if k == 0 || cols == 0 || rows == 0 {
        Seq::empty()
    } else {
        block_line(data, width, height, cols, rows, cy, (k - 1) as nat) + block_sample(
            data,
            width,
            height,
            ((k - 1) * (width / cols)) as nat,
            cy * (height / rows),
        )
    }
}

/// The first `k` lines of the grid, each preceded by a move to its first cell.
pub open spec fn block_lines(
    data: Seq<u8>,
    width: nat,
    height: nat,
    cols: nat,
    rows: nat,
    row: nat,
    col: nat,
    k: nat,
) -> Seq<u8>
    decreases k,
{
    if k == 0 {
        Seq::empty()
    } else {
        let cy = (k - 1) as nat;
        block_lines(data, width, height, cols, rows, row, col, cy) + cursor_to(row + cy, col)
            + block_line(data, width, height, cols, rows, cy, cols)
    }
}

/// Output of the block renderer; nothing when the grid has no cells.
pub open spec fn blocks_output(
    data: Seq<u8>,
    width: u32,
    height: u32,
    col: u16,
    row: u16,
    width_cells: Option<u16>,
    height_cells: Option<u16>,
) -> Seq<u8> {
    let cols = block_cols(width, width_cells);
    let rows = block_rows(height, height_cells);
    if cols == 0 || rows == 0 {
        Seq::empty()
    } else {
        block_lines(data, width as nat, height as nat, cols, rows, row as nat, col as nat, rows)
    }
}

/// Appends the shade glyph of a pixel.
pub fn push_block_glyph(out: &mut Vec<u8>, r: u8, g: u8, b: u8)
    ensures
        final(out)@ == old(out)@ + block_glyph(brightness_level(r, g, b)),
{
    let mean: u32 = (r as u32 + g as u32 + b as u32) / 3;
    let level: u32 = if mean / 32 < 7 {
        mean / 32
    } else {
        7
    };
    if level == 0 {
        out.push(0x20);
    } else if level <= 2 {
        push_bytes(out, &[0xe2, 0x96, 0x91]);
    } else if level <= 4 {
        push_bytes(out, &[0xe2, 0x96, 0x92]);
    } else if level <= 6 {
        push_bytes(out, &[0xe2, 0x96, 0x93]);
    } else {
        push_bytes(out, &[0xe2, 0x96, 0x88]);
    }
    assert(out@ =~= old(out)@ + block_glyph(brightness_level(r, g, b)));
}

/// Appends the block rendering of an RGB buffer at cell `(col, row)`.
pub fn push_blocks(
    out: &mut Vec<u8>,
    data: &[u8],
    width: u32,
    height: u32,
    col: u16,
    row: u16,
    width_cells: Option<u16>,
    height_cells: Option<u16>,
)
    ensures
        final(out)@ == old(out)@ + blocks_output(data@, width, height, col, row, width_cells, height_cells),
{
    let cols: u64 = match width_cells {
        Some(w) => w as u64,
        None => (width / 8) as u64,
    };
    let rows: u64 = match height_cells {
        Some(h) => h as u64,
        None => (height / 16) as u64,
    };
    if cols == 0 || rows == 0 {
        assert(out@ =~= old(out)@ + blocks_output(data@, width, height, col, row, width_cells, height_cells));
        return;
    }
    let step_x: u64 = width as u64 / cols;
    let step_y: u64 = height as u64 / rows;
    let ghost start = out@;
    let mut cy: u64 = 0;
    while cy < rows
        invariant
            0 < cols <= 4294967295,
            0 < rows <= 4294967295,
            cols == block_cols(width, width_cells),
            rows == block_rows(height, height_cells),
            step_x == width as nat / cols as nat,
            step_y == height as nat / rows as nat,
            step_x <= u32::MAX,
            step_y <= u32::MAX,
            cy <= rows,
            out@ == start + block_lines(data@, width as nat, height as nat, cols as nat, rows as nat, row as nat, col as nat, cy as nat),
        decreases rows - cy,
    {
        push_cursor_to(out, row as u64 + cy, col as u64);
        let ghost line_start = out@;
        assert(cy * step_y <= 4294967295 * 4294967295) by (nonlinear_arith)
            requires
                cy <= 4294967295,
                step_y <= 4294967295,
        ;
        let py: u64 = cy * step_y;
        let mut cx: u64 = 0;
        while cx < cols
            invariant
                0 < cols <= 4294967295,
                0 < rows <= 4294967295,
                step_x == width as nat / cols as nat,
                step_y == height as nat / rows as nat,
                step_x <= u32::MAX,
                cx <= cols,
                cy < rows,
                py == cy * step_y,
                out@ == line_start + block_line(data@, width as nat, height as nat, cols as nat, rows as nat, cy as nat, cx as nat),
            decreases cols - cx,
        {
            assert(cx * step_x <= 4294967295 * 4294967295) by (nonlinear_arith)
                requires
                    cx <= 4294967295,
                    step_x <= 4294967295,
            ;
            let px: u64 = cx * step_x;
            if px < width as u64 && py < height as u64 {
                assert(py * width <= 4294967295 * 4294967295) by (nonlinear_arith)
                    requires
                        py <= 4294967295,
                        width <= 4294967295,
                ;
                let idx: u128 = (py as u128 * width as u128 + px as u128) * 3;
                if idx + 2 < data.len() as u128 {
                    let i = idx as usize;
                    push_block_glyph(out, data[i], data[i + 1], data[i + 2]);
                } else {
                    out.push(0x20);
                }
            } else {
                out.push(0x20);
            }
            cx = cx + 1;
            assert(out@ =~= line_start + block_line(data@, width as nat, height as nat, cols as nat, rows as nat, cy as nat, cx as nat));
        }
        cy = cy + 1;
        assert(out@ =~= start + block_lines(data@, width as nat, height as nat, cols as nat, rows as nat, row as nat, col as nat, cy as nat));
    }
}

} // verus!
