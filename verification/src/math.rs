//! Numbers and small vectors as the graphics device stores them.
//!
//! A number is kept as the 32 bits of its IEEE 754 single-precision encoding, so
//! that values can be compared, copied and laid out in buffers exactly. The
//! few questions the renderer has to ask of a number (is it finite, is it above
//! zero, what is its negation) are answered on the encoding itself.

use vstd::prelude::*;

verus! {

/// The bit that holds the sign in a single-precision encoding.
pub const SIGN_BIT: u32 = 0x8000_0000;

/// The encoding of positive infinity; every larger magnitude is a NaN.
pub const INFINITY_BITS: u32 = 0x7F80_0000;

/// The encoding of 1.
pub const ONE_BITS: u32 = 0x3F80_0000;

/// The encoding of 2 to the power of 56, the largest magnitude that a
/// number of a curve can have.
pub const MAX_CURVE_BITS: u32 = 0x5B80_0000;

/// The encoding of 2 to the power of -74, the smallest magnitude that the
/// radius of a filled circle can have unless it is zero.
pub const MIN_RADIUS_BITS: u32 = 0x1A80_0000;

/// A single-precision floating-point number, held as its bit pattern.
///
/// Two numbers are equal when their bit patterns are: a NaN equals itself,
/// and positive zero does not equal negative zero.
#[derive(Copy, Clone, Debug, PartialEq, Eq, Structural)]
pub struct Float {
    pub bits: u32,
}

impl Float {
    /// The encoding of the magnitude: the bit pattern without its sign.
    pub open spec fn magnitude(self) -> int {
        self.bits as int % (SIGN_BIT as int)
    }

    /// Whether the sign bit is set.
    pub open spec fn is_sign_negative(self) -> bool {
        self.bits >= SIGN_BIT
    }

    /// Whether the number is neither an infinity nor a NaN.
    pub open spec fn is_finite(self) -> bool {
        self.magnitude() < INFINITY_BITS
    }

    /// Whether the number is a NaN.
    pub open spec fn is_nan(self) -> bool {
        self.magnitude() > INFINITY_BITS
    }

    /// Whether the number is positive or negative zero.
    pub open spec fn is_zero(self) -> bool {
        self.magnitude() == 0
    }

    /// Whether the number compares greater than zero: its sign is clear, it
    /// is not zero and it is not a NaN.
    pub open spec fn is_positive(self) -> bool {
        0 < self.bits <= INFINITY_BITS
    }

    /// Whether the number can be a co-ordinate, a size or a radius of a
    /// curve that is stroked: its magnitude is at most 2 to the power of 56.
    pub open spec fn is_curve_size(self) -> bool {
        self.magnitude() <= MAX_CURVE_BITS
    }

    /// Whether the number can be the radius of a filled circle: it is zero,
    /// or its magnitude is at least 2 to the power of -74 and at most 2 to
    /// the power of 56.
    pub open spec fn is_fill_radius(self) -> bool {
        self.is_zero() || MIN_RADIUS_BITS <= self.magnitude() <= MAX_CURVE_BITS
    }

    /// Whether the number can be the width of a stroke: it is above zero
    /// and finite.
    pub open spec fn is_stroke_width(self) -> bool {
        0 < self.bits < INFINITY_BITS
    }

    /// The sum of positive zero and the number: the number itself, but for
    /// negative zero, which positive zero turns into positive zero. The
    /// number must not be a NaN.
    pub open spec fn added_to_zero(self) -> Float {
        if self.bits == SIGN_BIT {
            Float { bits: 0 }
        } else {
            self
        }
    }

    /// The number with its sign flipped and its magnitude kept.
    pub open spec fn negated(self) -> Float {
        if self.bits >= SIGN_BIT {
            Float { bits: (self.bits - SIGN_BIT) as u32 }
        } else {
            Float { bits: (self.bits + SIGN_BIT) as u32 }
        }
    }

    /// Wraps a bit pattern.
    pub fn from_bits(bits: u32) -> (f: Float)
        ensures
            f.bits == bits,
    {
        Float { bits }
    }

    /// The bit pattern of the number.
    pub fn to_bits(self) -> (bits: u32)
        ensures
            bits == self.bits,
    {
        self.bits
    }

    /// Positive zero.
    pub fn zero() -> (f: Float)
        ensures
            f.bits == 0,
            f.is_zero(),
    {
        Float { bits: 0 }
    }

    /// The number one.
    pub fn one() -> (f: Float)
        ensures
            f.bits == ONE_BITS,
    {
        Float { bits: ONE_BITS }
    }

    fn magnitude_bits(self) -> (m: u32)
        ensures
            m == self.magnitude(),
    {
        if self.bits >= SIGN_BIT {
            self.bits - SIGN_BIT
        } else {
            self.bits
        }
    }

    /// Tells whether the number is neither an infinity nor a NaN.
    pub fn finite(self) -> (b: bool)
        ensures
            b == self.is_finite(),
    {
        self.magnitude_bits() < INFINITY_BITS
    }

    /// Tells whether the number is a NaN.
    pub fn nan(self) -> (b: bool)
        ensures
            b == self.is_nan(),
    {
        self.magnitude_bits() > INFINITY_BITS
    }

    /// Tells whether the number compares greater than zero.
    pub fn positive(self) -> (b: bool)
        ensures
            b == self.is_positive(),
    {
        0 < self.bits && self.bits <= INFINITY_BITS
    }

    /// Tells whether the number can be a number of a curve that is stroked.
    pub fn curve_size(self) -> (b: bool)
        ensures
            b == self.is_curve_size(),
    {
        self.magnitude_bits() <= MAX_CURVE_BITS
    }

    /// Tells whether the number can be the radius of a filled circle.
    pub fn fill_radius(self) -> (b: bool)
        ensures
            b == self.is_fill_radius(),
    {
        let magnitude = self.magnitude_bits();
        magnitude == 0 || (MIN_RADIUS_BITS <= magnitude && magnitude <= MAX_CURVE_BITS)
    }

    /// Tells whether the number can be the width of a stroke.
    pub fn stroke_width(self) -> (b: bool)
        ensures
            b == self.is_stroke_width(),
    {
        0 < self.bits && self.bits < INFINITY_BITS
    }

    /// Flips the sign of the number. Zero, infinities and NaNs have their sign
    /// flipped like any other value.
    pub fn neg(self) -> (f: Float)
        ensures
            f == self.negated(),
    {
        if self.bits >= SIGN_BIT {
            Float { bits: self.bits - SIGN_BIT }
        } else {
            Float { bits: self.bits + SIGN_BIT }
        }
    }
}

/// Negating twice gives the number back, bit for bit.
pub proof fn lemma_negated_twice(f: Float)
    ensures
        f.negated().negated() == f,
{
}

/// Negation keeps the magnitude and flips the sign.
pub proof fn lemma_negated_magnitude(f: Float)
    ensures
        f.negated().magnitude() == f.magnitude(),
        f.negated().is_sign_negative() != f.is_sign_negative(),
{
}

/// A number of a curve is finite, the radius of a filled circle is a number
/// of a curve, and a positive number is not a NaN.
pub proof fn lemma_float_classes(f: Float)
    ensures
        f.is_curve_size() ==> f.is_finite(),
        f.is_fill_radius() ==> f.is_curve_size(),
        f.is_stroke_width() <==> f.is_positive() && f.is_finite(),
        f.is_positive() ==> !f.is_nan() && !f.is_zero() && !f.is_sign_negative(),
        f.is_nan() ==> !f.is_finite(),
{
}

/// A point or a direction in the plane.
#[derive(Copy, Clone, Debug, PartialEq, Eq, Structural)]
pub struct Vec2 {
    pub x: Float,
    pub y: Float,
}

impl Vec2 {
    /// Whether both components are finite.
    pub open spec fn is_finite(self) -> bool {
        self.x.is_finite() && self.y.is_finite()
    }

    /// Whether both components can be numbers of a curve that is stroked.
    pub open spec fn is_curve_size(self) -> bool {
        self.x.is_curve_size() && self.y.is_curve_size()
    }

    /// The vector with both components negated.
    pub open spec fn negated(self) -> Vec2 {
        Vec2 { x: self.x.negated(), y: self.y.negated() }
    }

    /// The vector whose components are both positive zero.
    pub open spec fn spec_zero() -> Vec2 {
        Vec2 { x: Float { bits: 0 }, y: Float { bits: 0 } }
    }

    /// Creates a vector from its components.
    pub fn new(x: Float, y: Float) -> (v: Vec2)
        ensures
            v.x == x,
            v.y == y,
    {
        Vec2 { x, y }
    }

    /// Creates a vector from the bit patterns of its components.
    pub fn from_bits(x: u32, y: u32) -> (v: Vec2)
        ensures
            v.x.bits == x,
            v.y.bits == y,
    {
        Vec2 { x: Float { bits: x }, y: Float { bits: y } }
    }

    /// Creates a vector from the bit patterns of its components, `x` first.
    pub fn from_array(bits: [u32; 2]) -> (v: Vec2)
        ensures
            v.x.bits == bits[0],
            v.y.bits == bits[1],
    {
        Vec2 { x: Float { bits: bits[0] }, y: Float { bits: bits[1] } }
    }

    /// The bit patterns of the components, `x` first.
    pub fn to_bits(self) -> (bits: [u32; 2])
        ensures
            bits[0] == self.x.bits,
            bits[1] == self.y.bits,
    {
        [self.x.bits, self.y.bits]
    }

    /// The zero vector.
    pub fn zero() -> (v: Vec2)
        ensures
            v == Vec2::spec_zero(),
    {
        Vec2 { x: Float::zero(), y: Float::zero() }
    }

    /// The vector `(1, 1)`.
    pub fn one() -> (v: Vec2)
        ensures
            v.x.bits == ONE_BITS,
            v.y.bits == ONE_BITS,
    {
        Vec2 { x: Float::one(), y: Float::one() }
    }

    /// Tells whether both components are finite.
    pub fn finite(self) -> (b: bool)
        ensures
            b == self.is_finite(),
    {
        self.x.finite() && self.y.finite()
    }

    /// Tells whether both components can be numbers of a curve that is
    /// stroked.
    pub fn curve_size(self) -> (b: bool)
        ensures
            b == self.is_curve_size(),
    {
        self.x.curve_size() && self.y.curve_size()
    }

    /// Negates both components.
    pub fn neg(self) -> (v: Vec2)
        ensures
            v == self.negated(),
    {
        Vec2 { x: self.x.neg(), y: self.y.neg() }
    }
}

/// A 4 x 4 matrix in column-major order. The renderer carries matrices to the
/// device without looking inside.
#[derive(Copy, Clone, Debug, PartialEq, Eq)]
pub struct Mat4 {
    pub cols: [[Float; 4]; 4],
}

impl Mat4 {
    /// The entry in column `col` and row `row`.
    pub open spec fn entry(self, col: int, row: int) -> Float {
        self.cols[col][row]
    }

    /// Whether the matrix has ones on its diagonal and zeros elsewhere.
    pub open spec fn is_identity(self) -> bool {
        forall|col: int, row: int|
            0 <= col < 4 && 0 <= row < 4 ==> (#[trigger] self.entry(col, row)).bits == (if col
                == row {
                ONE_BITS
            } else {
                0u32
            })
    }

    /// Creates a matrix from its four columns.
    pub fn from_cols(cols: [[Float; 4]; 4]) -> (m: Mat4)
        ensures
            m.cols == cols,
    {
        Mat4 { cols }
    }

    /// The identity matrix.
    pub fn identity() -> (m: Mat4)
        ensures
            m.is_identity(),
    {
        let o = Float::zero();
        let i = Float::one();
        Mat4 { cols: [[i, o, o, o], [o, i, o, o], [o, o, i, o], [o, o, o, i]] }
    }
}

} // verus!
