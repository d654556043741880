//! From logical coordinates to framebuffer pixels: the framebuffer's size, the
//! clip rectangle of a command in pixel space, the cull test and the scissor
//! region.
//!
//! Pixel-space lengths are exact products of a coordinate and a scale factor,
//! counted in steps of which [`PIXEL`] make one pixel. Nothing is rounded
//! before the scissor region is cut to whole pixels.

use vstd::prelude::*;
use crate::frame::{ClipRect, Extent, Position, Scale};
use crate::units::{covering_pixels, saturate, to_covering_pixels, to_whole_pixels, whole_pixels, PIXEL};

verus! {

/// The size of the framebuffer, in pixel steps.
#[derive(Clone, Copy, Debug, PartialEq, Eq)]
pub struct FramebufferSize {
    pub width: i128,
    pub height: i128,
}

/// A rectangle of the framebuffer, in pixel steps, with the origin in the
/// upper left corner and y growing downwards.
#[derive(Clone, Copy, Debug, PartialEq, Eq)]
pub struct PixelRect {
    pub left: i128,
    pub top: i128,
    pub right: i128,
    pub bottom: i128,
}

/// A region of whole pixels with the origin in the lower left corner, as the
/// graphics API takes a scissor rectangle.
#[derive(Clone, Copy, Debug, PartialEq, Eq)]
pub struct Region {
    pub x: i32,
    pub y: i32,
    pub w: i32,
    pub h: i32,
}

/// The distance from `from` to `to`, scaled: a length in pixel steps.
pub open spec fn pixel_steps(from: int, to: int, scale: int) -> int {
    (to - from) * scale
}

/// A scaled distance between two coordinates always fits in 128 bits.
pub proof fn pixel_steps_bounded(from: i64, to: i64, scale: i32)
    ensures
        -0x8000_0000_0000_0000_0000_0000 <= pixel_steps(from as int, to as int, scale as int)
            <= 0x8000_0000_0000_0000_0000_0000,
{
    let d = to - from;
    let s = scale as int;
    assert(-0x8000_0000_0000_0000_0000_0000 <= d * s <= 0x8000_0000_0000_0000_0000_0000)
        by (nonlinear_arith)
        requires
            -0x1_0000_0000_0000_0000 < d < 0x1_0000_0000_0000_0000,
            -0x8000_0000 <= s < 0x8000_0000,
    ;
}

/// Computes the scaled distance from `from` to `to`.
pub fn scaled_distance(from: i64, to: i64, scale: i32) -> (steps: i128)
    ensures
        steps == pixel_steps(from as int, to as int, scale as int),
{
    proof {
        pixel_steps_bounded(from, to, scale);
    }
    let d: i128 = to as i128 - from as i128;
    d * (scale as i128)
}

/// The framebuffer size that belongs to a display size and a scale.
pub open spec fn framebuffer_size_of(size: Extent, scale: Scale) -> FramebufferSize {
    FramebufferSize {
        width: pixel_steps(0, size.width as int, scale.x as int) as i128,
        height: pixel_steps(0, size.height as int, scale.y as int) as i128,
    }
}

/// Computes the framebuffer size: the display size times the framebuffer
/// scale, axis by axis.
pub fn framebuffer_size(size: Extent, scale: Scale) -> (fb: FramebufferSize)
    ensures
        fb == framebuffer_size_of(size, scale),
        fb.width == size.width * scale.x,
        fb.height == size.height * scale.y,
{
    FramebufferSize {
        width: scaled_distance(0, size.width, scale.x),
        height: scaled_distance(0, size.height, scale.y),
    }
}

/// A frame with nothing to draw into: the framebuffer has no width or no
/// height.
pub open spec fn degenerate(fb: FramebufferSize) -> bool {
    fb.width <= 0 || fb.height <= 0
}

/// A display without width or without height has a degenerate framebuffer
/// at every scale, and so has a display of negative width or height at every
/// scale that is not itself negative.
pub proof fn empty_display_is_degenerate(size: Extent, scale: Scale)
    requires
        size.width == 0 || size.height == 0 || (size.width < 0 && scale.x >= 0) || (size.height
            < 0 && scale.y >= 0),
    ensures
        degenerate(framebuffer_size_of(size, scale)),
{
    pixel_steps_bounded(0, size.width, scale.x);
    pixel_steps_bounded(0, size.height, scale.y);
    let w = size.width as int;
    let h = size.height as int;
    let x = scale.x as int;
    let y = scale.y as int;
    assert(w == 0 || (w < 0 && x >= 0) ==> w * x <= 0) by (nonlinear_arith);
    assert(h == 0 || (h < 0 && y >= 0) ==> h * y <= 0) by (nonlinear_arith);
}

/// Tells whether the framebuffer has no width or no height.
pub fn is_degenerate(fb: FramebufferSize) -> (none: bool)
    ensures
        none == degenerate(fb),
{
    fb.width <= 0 || fb.height <= 0
}

/// A clip rectangle in pixel space: each corner less the display origin,
/// times the framebuffer scale, axis by axis.
pub open spec fn pixel_rect_of(clip: ClipRect, origin: Position, scale: Scale) -> PixelRect {
    PixelRect {
        left: pixel_steps(origin.x as int, clip.left as int, scale.x as int) as i128,
        top: pixel_steps(origin.y as int, clip.top as int, scale.y as int) as i128,
        right: pixel_steps(origin.x as int, clip.right as int, scale.x as int) as i128,
        bottom: pixel_steps(origin.y as int, clip.bottom as int, scale.y as int) as i128,
    }
}

/// Transforms a clip rectangle from logical space into pixel space.
pub fn to_pixel_rect(clip: ClipRect, origin: Position, scale: Scale) -> (rect: PixelRect)
    ensures
        rect == pixel_rect_of(clip, origin, scale),
        rect.left == (clip.left - origin.x) * scale.x,
        rect.top == (clip.top - origin.y) * scale.y,
        rect.right == (clip.right - origin.x) * scale.x,
        rect.bottom == (clip.bottom - origin.y) * scale.y,
{
    PixelRect {
        left: scaled_distance(origin.x, clip.left, scale.x),
        top: scaled_distance(origin.y, clip.top, scale.y),
        right: scaled_distance(origin.x, clip.right, scale.x),
        bottom: scaled_distance(origin.y, clip.bottom, scale.y),
    }
}

/// A rectangle that lies wholly outside the framebuffer: it begins at or
/// beyond the right or lower edge, or ends before the left or upper edge.
pub open spec fn culled(rect: PixelRect, fb: FramebufferSize) -> bool {
    rect.left >= fb.width || rect.top >= fb.height || rect.right < 0 || rect.bottom < 0
}

/// The cull test.
pub fn is_culled(rect: PixelRect, fb: FramebufferSize) -> (skip: bool)
    ensures
        skip == culled(rect, fb),
{
    rect.left >= fb.width || rect.top >= fb.height || rect.right < 0 || rect.bottom < 0
}

/// The cull test is exact at the framebuffer's edges. A rectangle whose left
/// edge lies on the framebuffer's right edge is culled, and so is one whose
/// upper edge lies on the framebuffer's lower edge. A rectangle is kept
/// exactly where it begins before the right and the lower edge and does not
/// end before the left or the upper one, however little of it is inside.
pub proof fn cull_test_is_exact(rect: PixelRect, fb: FramebufferSize)
    ensures
        rect.left == fb.width ==> culled(rect, fb),
        rect.top == fb.height ==> culled(rect, fb),
        !culled(rect, fb) <==> rect.left < fb.width && rect.top < fb.height && rect.right >= 0
            && rect.bottom >= 0,
{
}

/// The scissor region of a pixel-space rectangle. The left edge is cut to
/// whole pixels towards zero; y is the distance from the rectangle's lower
/// edge up to the framebuffer's, cut the same way; width and height are the
/// distances between the edges, rounded up. Each is limited to the range of
/// `i32`.
pub open spec fn scissor_of(rect: PixelRect, fb: FramebufferSize) -> Region {
    Region {
        x: saturate(whole_pixels(rect.left as int)) as i32,
        y: saturate(whole_pixels(fb.height - rect.bottom)) as i32,
        w: saturate(covering_pixels(rect.right - rect.left)) as i32,
        h: saturate(covering_pixels(rect.bottom - rect.top)) as i32,
    }
}

/// `a - b` in whole pixels, towards zero.
fn whole_pixels_between(a: i128, b: i128) -> (r: i32)
    ensures
        r == saturate(whole_pixels(a - b)),
{
    match a.checked_sub(b) {
        Some(d) => to_whole_pixels(d),
        None => {
            if a >= 0 {
                2147483647
            } else {
                -2147483648
            }
        },
    }
}

/// The distance between `a` and `b` in whole pixels, rounded up.
fn covering_pixels_between(a: i128, b: i128) -> (r: i32)
    ensures
        r == saturate(covering_pixels(a - b)),
{
    match a.checked_sub(b) {
        Some(d) => to_covering_pixels(d),
        None => 2147483647,
    }
}

/// Computes the scissor region of a pixel-space rectangle.
pub fn scissor(rect: PixelRect, fb: FramebufferSize) -> (region: Region)
    ensures
        region == scissor_of(rect, fb),
        region.x == saturate(whole_pixels(rect.left as int)),
        region.y == saturate(whole_pixels(fb.height - rect.bottom)),
        region.w == saturate(covering_pixels(rect.right - rect.left)),
        region.h == saturate(covering_pixels(rect.bottom - rect.top)),
{
    Region {
        x: to_whole_pixels(rect.left),
        y: whole_pixels_between(fb.height, rect.bottom),
        w: covering_pixels_between(rect.right, rect.left),
        h: covering_pixels_between(rect.bottom, rect.top),
    }
}

/// The distance between two numbers.
pub open spec fn distance(a: int, b: int) -> int {
    if a >= b {
        a - b
    } else {
        b - a
    }
}

/// For a rectangle on whole pixels in a framebuffer of a whole number of
/// rows, the scissor region is the rectangle counted from the lower left
/// corner: x is the left edge, y is the framebuffer's height less the
/// rectangle's lower edge, and width and height are the distances between
/// the edges. This holds as far as `i32` can hold the numbers.
pub proof fn scissor_of_whole_pixels(
    rect: PixelRect,
    fb: FramebufferSize,
    left: int,
    top: int,
    right: int,
    bottom: int,
    rows: int,
)
    requires
        rect.left == left * PIXEL,
        rect.top == top * PIXEL,
        rect.right == right * PIXEL,
        rect.bottom == bottom * PIXEL,
        fb.height == rows * PIXEL,
        i32::MIN <= left <= i32::MAX,
        i32::MIN <= rows - bottom <= i32::MAX,
        distance(right, left) <= i32::MAX,
        distance(bottom, top) <= i32::MAX,
    ensures
        scissor_of(rect, fb) == (Region {
            x: left as i32,
            y: (rows - bottom) as i32,
            w: distance(right, left) as i32,
            h: distance(bottom, top) as i32,
        }),
{
}

} // verus!
