//! Simplified sixel encoding: one band per six pixel rows, one colour
//! register definition and one sixel per pixel of the band's top row.

use crate::escape::{dec, push_bytes, push_dec, ESC};
use vstd::prelude::*;

verus! {

/// A channel value as a percentage, rounded down.
pub open spec fn percent(v: u8) -> nat {
    (v as nat) * 100 / 255
}

/// Number of six-row bands that cover `height` pixel rows.
pub open spec fn band_count(height: nat) -> nat {
    height / 6 + if height % 6 == 0 {
        0nat
    } else {
        1nat
    }
}

/// `#1;2;<r%>;<g%>;<b%>#1?`: colour register 1 set to pixel `(x, y)`, then one sixel in it.
pub open spec fn sixel_pixel(data: Seq<u8>, width: nat, x: nat, y: nat) -> Seq<u8> {
    let i = (y * width + x) * 3;
    seq![0x23u8, 0x31, 0x3b, 0x32, 0x3b] + dec(percent(data[i as int])) + seq![0x3bu8] + dec(
        percent(data[i + 1 as int]),
    ) + seq![0x3bu8] + dec(percent(data[i + 2 as int])) + seq![0x23u8, 0x31, 0x3f]
}

/// The first `k` pixels of the band whose top row is `y`.
pub open spec fn sixel_band(data: Seq<u8>, width: nat, y: nat, k: nat) -> Seq<u8>
    decreases k,
{
    if k == 0 {
        Seq::empty()
    } else {
        sixel_band(data, width, y, (k - 1) as nat) + sixel_pixel(data, width, (k - 1) as nat, y)
    }
}

/// The first `k` bands, each closed by `$-` (carriage return, next band).
pub open spec fn sixel_bands(data: Seq<u8>, width: nat, k: nat) -> Seq<u8>
    decreases k,
{
    if k == 0 {
        Seq::empty()
    } else {
        sixel_bands(data, width, (k - 1) as nat) + sixel_band(data, width, 6 * (k - 1) as nat, width)
            + seq![0x24u8, 0x2d]
    }
}

/// The sixel image: `ESC P q`, the bands, `ESC \`.
pub open spec fn sixel_image(data: Seq<u8>, width: nat, height: nat) -> Seq<u8> {
    seq![ESC, 0x50, 0x71] + sixel_bands(data, width, band_count(height)) + seq![ESC, 0x5c]
}

proof fn lemma_pixel_in_buffer(x: nat, y: nat, width: nat, height: nat)
    requires
        x < width,
        y < height,
    ensures
        (y * width + x) * 3 + 2 < width * height * 3,
{
    assert(y * width + x < width * height) by (nonlinear_arith)
        requires
            x < width,
            y < height,
    ;
}

/// Appends `sixel_pixel(data, width, x, y)`.
pub fn push_sixel_pixel(out: &mut Vec<u8>, data: &[u8], width: u32, height: u32, x: u32, y: u32)
    requires
        data@.len() == width as nat * height as nat * 3,
        x < width,
        y < height,
    ensures
        final(out)@ == old(out)@ + sixel_pixel(data@, width as nat, x as nat, y as nat),
{
    proof {
        lemma_pixel_in_buffer(x as nat, y as nat, width as nat, height as nat);
    }
    assert(y * width <= 4294967295 * 4294967295) by (nonlinear_arith)
        requires
            y <= 4294967295,
            width <= 4294967295,
    ;
    let i: usize = ((y as u128 * width as u128 + x as u128) * 3) as usize;
    push_bytes(out, &[0x23, 0x31, 0x3b, 0x32, 0x3b]);
    push_dec(out, data[i] as u64 * 100 / 255);
    out.push(0x3b);
    push_dec(out, data[i + 1] as u64 * 100 / 255);
    out.push(0x3b);
    push_dec(out, data[i + 2] as u64 * 100 / 255);
    push_bytes(out, &[0x23, 0x31, 0x3f]);
    assert(out@ =~= old(out)@ + sixel_pixel(data@, width as nat, x as nat, y as nat));
}

/// Appends the sixel image of a `width` by `height` RGB buffer.
pub fn push_sixel_image(out: &mut Vec<u8>, data: &[u8], width: u32, height: u32)
    requires
        data@.len() == width as nat * height as nat * 3,
    ensures
        final(out)@ == old(out)@ + sixel_image(data@, width as nat, height as nat),
{
    push_bytes(out, &[ESC, 0x50, 0x71]);
    let ghost start = out@;
    let bands: u64 = if height % 6 == 0 {
        height as u64 / 6
    } else {
        height as u64 / 6 + 1
    };
    let mut k: u64 = 0;
    while k < bands
        invariant
            bands == band_count(height as nat),
            k <= bands,
            data@.len() == width as nat * height as nat * 3,
            out@ == start + sixel_bands(data@, width as nat, k as nat),
        decreases bands - k,
    {
        let y: u64 = 6 * k;
        let ghost band_start = out@;
        let mut x: u64 = 0;
        while x < width as u64
            invariant
                x <= width,
                y == 6 * k,
                k < bands,
                bands == band_count(height as nat),
                data@.len() == width as nat * height as nat * 3,
                out@ == band_start + sixel_band(data@, width as nat, y as nat, x as nat),
            decreases width - x,
        {
            assert(y < height);
            push_sixel_pixel(out, data, width, height, x as u32, y as u32);
            x = x + 1;
            assert(out@ =~= band_start + sixel_band(data@, width as nat, y as nat, x as nat));
        }
        out.push(0x24);
        out.push(0x2d);
        k = k + 1;
        assert(out@ =~= start + sixel_bands(data@, width as nat, k as nat));
    }
    out.push(ESC);
    out.push(0x5c);
    assert(out@ =~= old(out)@ + sixel_image(data@, width as nat, height as nat));
}

} // verus!
