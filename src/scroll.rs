//! Loopy scroll arithmetic on the 15-bit VRAM address
//! `yyy NN YYYYY XXXXX` (fine y, nametable, coarse y, coarse x).
use vstd::prelude::*;

verus! {

/// Next tile to the right, wrapping into the horizontally adjacent
/// nametable after column 31.
pub open spec fn coarse_x_next(v: u16) -> u16 {
    if v & 0x001f == 31 {
        (v & 0xffe0) ^ 0x0400
    } else {
        (v + 1) as u16
    }
}

/// Next tile row, keeping the fine y bits: row 29 wraps to 0 in the
/// vertically adjacent nametable, row 31 wraps to 0 in the same one.
pub open spec fn coarse_y_next(v: u16) -> u16 {
    let y = (v & 0x03e0) >> 5u16;
    if y == 29 {
        (v & 0xfc1f) ^ 0x0800
    } else if y == 31 {
        v & 0xfc1f
    } else {
        (v & 0xfc1f) | (((y + 1) as u16) << 5u16)
    }
}

/// Next pixel row: fine y counts up to 7, then wraps to 0 and the tile row
/// advances.
pub open spec fn fine_y_next(v: u16) -> u16 {
    if v & 0x7000 != 0x7000 {
        (v + 0x1000) as u16
    } else {
        coarse_y_next(v & 0x8fff)
    }
}

/// `f` applied `n` times to `v`, for `f` the fine y step.
pub open spec fn fine_y_steps(v: u16, n: nat) -> u16
    decreases n,
{
    if n == 0 {
        v
    } else {
        fine_y_next(fine_y_steps(v, (n - 1) as nat))
    }
}

pub fn increment_coarse_x(v: u16) -> (r: u16)
    requires
        v < 0x8000,
    ensures
        r == coarse_x_next(v),
        r < 0x8000,
{
    assert(((v & 0x001f) == 31 ==> ((v & 0xffe0) ^ 0x0400) < 0x8000) && ((v & 0x001f) != 31 ==> v
        + 1 < 0x8000)) by (bit_vector)
        requires
            v < 0x8000,
    ;
    if v & 0x001f == 31 {
        (v & 0xffe0) ^ 0x0400
    } else {
        v + 1
    }
}

pub fn increment_fine_y(v: u16) -> (r: u16)
    requires
        v < 0x8000,
    ensures
        r == fine_y_next(v),
        r < 0x8000,
{
    let y = ((v & 0x8fff) & 0x03e0) >> 5u16;
    assert(((v & 0x7000) != 0x7000 ==> v + 0x1000 < 0x8000) && y <= 31 && (((v & 0x8fff)
        & 0xfc1f) ^ 0x0800) < 0x8000 && ((v & 0x8fff) & 0xfc1f) < 0x8000 && (y < 31 ==> (((v
        & 0x8fff) & 0xfc1f) | (((y + 1) as u16) << 5u16)) < 0x8000)) by (bit_vector)
        requires
            v < 0x8000,
            y == ((v & 0x8fff) & 0x03e0) >> 5u16,
    ;
    if v & 0x7000 != 0x7000 {
        v + 0x1000
    } else {
        let w = v & 0x8fff;
        if y == 29 {
            (w & 0xfc1f) ^ 0x0800
        } else if y == 31 {
            w & 0xfc1f
        } else {
            (w & 0xfc1f) | ((y + 1) << 5u16)
        }
    }
}

/// Horizontal scroll bits (coarse x, nametable x) copied from `t`.
pub open spec fn copy_x(v: u16, t: u16) -> u16 {
    (v & 0xfbe0) | (t & 0x041f)
}

/// Vertical scroll bits (fine y, nametable y, coarse y) copied from `t`.
pub open spec fn copy_y(v: u16, t: u16) -> u16 {
    (v & 0x841f) | (t & 0x7be0)
}

pub proof fn lemma_copies_15(v: u16, t: u16)
    requires
        v < 0x8000,
        t < 0x8000,
    ensures
        copy_x(v, t) < 0x8000,
        copy_y(v, t) < 0x8000,
{
    assert((v & 0xfbe0) | (t & 0x041f) < 0x8000 && (v & 0x841f) | (t & 0x7be0) < 0x8000)
        by (bit_vector)
        requires
            v < 0x8000,
            t < 0x8000,
    ;
}

/// Eight fine y steps from fine y 0 land on the same pixel row of the next
/// tile row, nametable switching included.
pub proof fn lemma_eight_fine_steps(v: u16)
    requires
        v < 0x8000,
        v & 0x7000 == 0,
    ensures
        fine_y_steps(v, 8) == coarse_y_next(v),
{
    assert(((v + 0x1000) as u16) & 0x7000 == 0x1000 && ((v + 0x2000) as u16) & 0x7000 == 0x2000 && ((v + 0x3000) as u16)
        & 0x7000 == 0x3000 && ((v + 0x4000) as u16) & 0x7000 == 0x4000 && ((v + 0x5000) as u16) & 0x7000 == 0x5000
        && ((v + 0x6000) as u16) & 0x7000 == 0x6000 && ((v + 0x7000) as u16) & 0x7000 == 0x7000 && (((v + 0x7000) as u16)
        & 0x8fff) == v) by (bit_vector)
        requires
            v < 0x8000,
            v & 0x7000 == 0,
    ;
    reveal_with_fuel(fine_y_steps, 9);
    assert(fine_y_steps(v, 1) == (v + 0x1000) as u16);
    assert(fine_y_steps(v, 2) == (v + 0x2000) as u16);
    assert(fine_y_steps(v, 3) == (v + 0x3000) as u16);
    assert(fine_y_steps(v, 4) == (v + 0x4000) as u16);
    assert(fine_y_steps(v, 5) == (v + 0x5000) as u16);
    assert(fine_y_steps(v, 6) == (v + 0x6000) as u16);
    assert(fine_y_steps(v, 7) == (v + 0x7000) as u16);
}

} // verus!
