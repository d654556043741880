//! Fixed-point arithmetic for coordinates and framebuffer pixels.

use vstd::prelude::*;

verus! {

/// Raw steps in one logical unit: coordinates and scale factors are
/// fixed-point numbers with sixteen fractional bits.
pub const UNIT: i64 = 65536;

/// Raw steps in one framebuffer pixel. A pixel-space length is the product of
/// a coordinate and a scale factor, so it carries thirty-two fractional bits.
pub const PIXEL: i128 = 4294967296;

/// The whole number of pixels in `v`, rounded towards zero.
pub open spec fn whole_pixels(v: int) -> int {
    if v >= 0 {
        v / (PIXEL as int)
    } else {
        -((-v) / (PIXEL as int))
    }
}

/// `v` limited to the range of `i32`.
pub open spec fn saturate(v: int) -> int {
    if v < i32::MIN {
        i32::MIN as int
    } else if v > i32::MAX {
        i32::MAX as int
    } else {
        v
    }
}

/// Rounds a pixel-space length towards zero to whole pixels and limits the
/// result to the range of `i32`.
pub fn to_whole_pixels(v: i128) -> (r: i32)
    ensures
        r == saturate(whole_pixels(v as int)),
{
    if v >= 0 {
        let q: i128 = v / PIXEL;
        if q > 2147483647 {
            2147483647
        } else {
            q as i32
        }
    } else if v == i128::MIN {
        -2147483648
    } else {
        let q: i128 = (-v) / PIXEL;
        if q > 2147483648 {
            -2147483648
        } else {
            (-q) as i32
        }
    }
}

/// The least whole number of pixels that covers the distance `v`, whatever
/// its sign.
pub open spec fn covering_pixels(v: int) -> int {
    if v >= 0 {
        (v + PIXEL - 1) / (PIXEL as int)
    } else {
        (-v + PIXEL - 1) / (PIXEL as int)
    }
}

/// Rounds the distance `v` up to whole pixels and limits the result to the
/// range of `i32`.
pub fn to_covering_pixels(v: i128) -> (r: i32)
    ensures
        r == saturate(covering_pixels(v as int)),
{
    if v == i128::MIN {
        return 2147483647;
    }
    let d: i128 = if v >= 0 { v } else { -v };
    let q: i128 = d / PIXEL;
    let whole: bool = d % PIXEL == 0;
    if q >= 2147483647 {
        2147483647
    } else if whole {
        q as i32
    } else {
        (q + 1) as i32
    }
}

} // verus!
