//! The orthographic projection from the display rectangle to clip space.

use vstd::prelude::*;
use crate::frame::{Extent, Position};
use crate::units::UNIT;

verus! {

/// An exact fraction. It is a number only where `den` is not zero.
#[derive(Clone, Copy, Debug, PartialEq, Eq)]
pub struct Ratio {
    pub num: i128,
    pub den: i64,
}

/// The projection of a frame: on each axis a factor for a logical coordinate
/// and an offset. It sends the display rectangle to the clip-space square
/// from -1 to 1 and turns y over, since y grows downwards on the display and
/// upwards in clip space.
#[derive(Clone, Copy, Debug, PartialEq, Eq)]
pub struct Projection {
    pub x_scale: Ratio,
    pub y_scale: Ratio,
    pub x_offset: Ratio,
    pub y_offset: Ratio,
}

/// The projection that belongs to a display rectangle: on x the factor
/// `2 / width` and the offset `-(left + right) / width`, on y the factor
/// `-2 / height` and the offset `(top + bottom) / height`.
pub open spec fn projection_of(pos: Position, size: Extent) -> Projection {
    Projection {
        x_scale: Ratio { num: (2 * UNIT) as i128, den: size.width },
        y_scale: Ratio { num: (-2 * UNIT) as i128, den: size.height },
        x_offset: Ratio { num: (-(2 * pos.x + size.width)) as i128, den: size.width },
        y_offset: Ratio { num: (2 * pos.y + size.height) as i128, den: size.height },
    }
}

/// Computes the projection of a display rectangle.
pub fn projection(pos: Position, size: Extent) -> (p: Projection)
    ensures
        p == projection_of(pos, size),
        p.x_offset.num == -(2 * pos.x + size.width),
        p.y_offset.num == 2 * pos.y + size.height,
{
    let x_sum: i128 = 2 * (pos.x as i128) + (size.width as i128);
    let y_sum: i128 = 2 * (pos.y as i128) + (size.height as i128);
    Projection {
        x_scale: Ratio { num: 2 * (UNIT as i128), den: size.width },
        y_scale: Ratio { num: -2 * (UNIT as i128), den: size.height },
        x_offset: Ratio { num: -x_sum, den: size.width },
        y_offset: Ratio { num: y_sum, den: size.height },
    }
}

/// Whether `scale * (coordinate / UNIT) + offset` is the whole number `clip`,
/// for a raw coordinate: both fractions are numbers, and the equation holds
/// once it is multiplied by the denominators.
pub open spec fn sends(scale: Ratio, offset: Ratio, coordinate: int, clip: int) -> bool {
    &&& scale.den != 0
    &&& offset.den != 0
    &&& scale.num * coordinate * offset.den + offset.num * scale.den * UNIT == clip * (scale.den
        * offset.den * UNIT)
}

impl Projection {
    /// Whether the projection sends the logical point `(x, y)` to the
    /// clip-space point `(clip_x, clip_y)`.
    pub open spec fn maps(self, x: int, y: int, clip_x: int, clip_y: int) -> bool {
        sends(self.x_scale, self.x_offset, x, clip_x) && sends(
            self.y_scale,
            self.y_offset,
            y,
            clip_y,
        )
    }

    /// The rows and columns of a matrix given as an array of columns.
    pub open spec fn columns_of(matrix: [[Ratio; 4]; 4]) -> Seq<Seq<Ratio>> {
        Seq::new(4, |c: int| matrix[c]@)
    }

    /// The projection as a 4 by 4 matrix, column by column: the factors on the
    /// diagonal, the offsets in the last column, z negated and w kept.
    pub open spec fn matrix_of(self) -> Seq<Seq<Ratio>> {
        let zero = Ratio { num: 0, den: 1 };
        let one = Ratio { num: 1, den: 1 };
        let minus_one = Ratio { num: (-1) as i128, den: 1 };
        seq![
            seq![self.x_scale, zero, zero, zero],
            seq![zero, self.y_scale, zero, zero],
            seq![zero, zero, minus_one, zero],
            seq![self.x_offset, self.y_offset, zero, one],
        ]
    }

    /// Lays the projection out as the matrix that the vertex shader multiplies
    /// a position with.
    pub fn matrix(&self) -> (m: [[Ratio; 4]; 4])
        ensures
            Self::columns_of(m) == self.matrix_of(),
    {
        let zero = Ratio { num: 0, den: 1 };
        let one = Ratio { num: 1, den: 1 };
        let minus_one = Ratio { num: -1, den: 1 };
        let m = [
            [self.x_scale, zero, zero, zero],
            [zero, self.y_scale, zero, zero],
            [zero, zero, minus_one, zero],
            [self.x_offset, self.y_offset, zero, one],
        ];
        assert(Self::columns_of(m) =~~= self.matrix_of());
        m
    }
}

/// The projection of a display rectangle that has a width and a height sends
/// the rectangle's upper left corner to the clip-space point (-1, 1) and its
/// lower right corner to (1, -1).
pub proof fn projection_maps_corners(pos: Position, size: Extent)
    requires
        size.width != 0,
        size.height != 0,
    ensures
        projection_of(pos, size).maps(pos.x as int, pos.y as int, -1, 1),
        projection_of(pos, size).maps(pos.x + size.width, pos.y + size.height, 1, -1),
{
    let p = projection_of(pos, size);
    let u = UNIT as int;
    let w = size.width as int;
    let h = size.height as int;
    let x = pos.x as int;
    let y = pos.y as int;
    assert(p.x_offset.num == -(2 * x + w));
    assert(p.y_offset.num == 2 * y + h);
    assert((2 * u) * x * w + (-(2 * x + w)) * w * u == -1 * (w * w * u)) by (nonlinear_arith);
    assert((2 * u) * (x + w) * w + (-(2 * x + w)) * w * u == 1 * (w * w * u)) by (nonlinear_arith);
    assert((-2 * u) * y * h + (2 * y + h) * h * u == 1 * (h * h * u)) by (nonlinear_arith);
    assert((-2 * u) * (y + h) * h + (2 * y + h) * h * u == -1 * (h * h * u)) by (nonlinear_arith);
}

} // verus!
