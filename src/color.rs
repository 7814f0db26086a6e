//! Colour mapping of escape counts: hue from the count, full saturation,
//! lightness 0 inside the set and 1/2 outside, converted from HSL to packed RGB.
use vstd::prelude::*;

verus! {

/// `|a - b|` over the integers.
pub open spec fn dist(a: int, b: int) -> nat {
    if a >= b {
        (a - b) as nat
    } else {
        (b - a) as nat
    }
}

/// The 60-degree sector of the hue `360 * iter / max_iter`, that is
/// `floor(hue / 60)`.
pub open spec fn hue_sector(iter: nat, max_iter: nat) -> nat
    recommends
        max_iter > 0,
{
    6 * iter / max_iter
}

/// The secondary HSL component `x = 1 - |((hue / 60) mod 2) - 1|` at full
/// saturation and lightness 1/2, scaled by 255 and truncated.
///
/// With `hue / 60 = 6 * iter / max_iter`, `(hue / 60) mod 2` is
/// `((6 * iter) mod (2 * max_iter)) / max_iter`, so
/// `x = (max_iter - |(6 * iter) mod (2 * max_iter) - max_iter|) / max_iter`.
pub open spec fn secondary(iter: nat, max_iter: nat) -> nat
    recommends
        max_iter > 0,
{
    let w = ((6 * iter) % (2 * max_iter)) as int;
    ((255 * (max_iter - dist(w, max_iter as int))) / max_iter as int) as nat
}

/// Three 8-bit channels packed as `0xRRGGBB`.
pub open spec fn pack(r: nat, g: nat, b: nat) -> nat {
    r * 65536 + g * 256 + b
}

/// The packed colour of `iter` for the cap `max_iter`.
///
/// At `iter == max_iter` the lightness is 0: chroma, secondary component and
/// offset are all 0, and the colour is black. Otherwise the lightness is 1/2:
/// chroma 1 (channel 255), offset 0, and the secondary component sits in the
/// channel that the hue sector selects.
pub open spec fn color_of(iter: nat, max_iter: nat) -> nat
    recommends
        0 < max_iter,
        iter <= max_iter,
{
    if iter == max_iter {
        0
    } else {
        let x = secondary(iter, max_iter);
        let s = hue_sector(iter, max_iter);
        if s == 0 {
            pack(255, x, 0)
        } else if s == 1 {
            pack(x, 255, 0)
        } else if s == 2 {
            pack(0, 255, x)
        } else if s == 3 {
            pack(0, x, 255)
        } else if s == 4 {
            pack(x, 0, 255)
        } else {
            pack(255, 0, x)
        }
    }
}

/// The red, green and blue channels for a hue sector, with 255 for the
/// chroma and `x` for the secondary component.
fn sector_channels(sector: u64, x: u32) -> (r: (u32, u32, u32))
    requires
        x <= 255,
    ensures
        r.0 <= 255,
        r.1 <= 255,
        r.2 <= 255,
        sector == 0 ==> r == (255u32, x, 0u32),
        sector == 1 ==> r == (x, 255u32, 0u32),
        sector == 2 ==> r == (0u32, 255u32, x),
        sector == 3 ==> r == (0u32, x, 255u32),
        sector == 4 ==> r == (x, 0u32, 255u32),
        sector >= 5 ==> r == (255u32, 0u32, x),
{
    if sector == 0 {
        (255, x, 0)
    } else if sector == 1 {
        (x, 255, 0)
    } else if sector == 2 {
        (0, 255, x)
    } else if sector == 3 {
        (0, x, 255)
    } else if sector == 4 {
        (x, 0, 255)
    } else {
        (255, 0, x)
    }
}

/// Packs three 8-bit channels as `(r << 16) | (g << 8) | b`.
fn pack_channels(r: u32, g: u32, b: u32) -> (p: u32)
    requires
        r <= 255,
        g <= 255,
        b <= 255,
    ensures
        p as nat == pack(r as nat, g as nat, b as nat),
{
    assert((r << 16u32) | (g << 8u32) | b == r * 65536 + g * 256 + b) by (bit_vector)
        requires
            r <= 255,
            g <= 255,
            b <= 255,
    ;
    (r << 16u32) | (g << 8u32) | b
}

/// Maps the escape count `iter` (at most `max_iter`) to a packed `0xRRGGBB`
/// colour: hue `360 * iter / max_iter`, saturation 1, lightness 0 when
/// `iter == max_iter` and 1/2 otherwise, each channel scaled by 255 and
/// truncated. The hue and the HSL components are taken as exact rationals.
pub fn color_map(iter: u32, max_iter: u32) -> (c: u32)
    requires
        0 < max_iter,
        iter <= max_iter,
    ensures
        c as nat == color_of(iter as nat, max_iter as nat),
{
    if iter == max_iter {
        return 0;
    }
    let m: u64 = max_iter as u64;
    let six: u64 = 6 * (iter as u64);
    let w: u64 = six % (2 * m);
    let d: u64 = if w >= m {
        w - m
    } else {
        m - w
    };
    assert(d <= m);
    assert(255 * (m - d) <= 255 * m) by (nonlinear_arith)
        requires
            d <= m,
    ;
    let num: u64 = 255 * (m - d);
    let x: u64 = num / m;
    assert(x <= 255) by (nonlinear_arith)
        requires
            x == num / m,
            num <= 255 * m,
            m > 0,
    ;
    let sector: u64 = six / m;
    let (r, g, b) = sector_channels(sector, x as u32);
    assert(sector < 6) by (nonlinear_arith)
        requires
            sector == six / m,
            six == 6 * (iter as u64),
            iter < m,
    ;
    pack_channels(r, g, b)
}

} // verus!
