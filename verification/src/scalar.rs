use rustc_apfloat::ieee::Double;
use rustc_apfloat::Float;
use vstd::prelude::*;

verus! {

// Numbers are IEEE 754 binary64 values, carried as their 64-bit encodings.
// Tests on an encoding (sign, zero, NaN) and the absolute value are plain
// integer work and are proved. The four arithmetic operations are done in
// software by `rustc_apfloat`; each result has a name below, and contracts
// built on them say which operations were applied to which operands.

/// The sign bit of a binary64 encoding.
pub const SIGN_MASK: u64 = 0x8000_0000_0000_0000;

/// The encoding of positive infinity; every magnitude above it is a NaN.
pub const INFINITY_BITS: u64 = 0x7FF0_0000_0000_0000;

/// The encoding with its sign bit cleared.
pub open spec fn magnitude_bits(b: u64) -> u64 {
    if b >= SIGN_MASK {
        (b - SIGN_MASK) as u64
    } else {
        b
    }
}

/// True when the sign bit is set.
pub open spec fn sign_bit(b: u64) -> bool {
    b >= SIGN_MASK
}

/// True when the encoding is a NaN.
pub open spec fn nan_bits(b: u64) -> bool {
    magnitude_bits(b) > INFINITY_BITS
}

/// True when the encoding is positive or negative zero.
pub open spec fn zero_bits(b: u64) -> bool {
    magnitude_bits(b) == 0
}

/// The binary64 sum of two encodings, rounded to nearest, ties to even.
pub uninterp spec fn ieee_add(a: u64, b: u64) -> u64;

/// The binary64 difference of two encodings, rounded to nearest, ties to even.
pub uninterp spec fn ieee_sub(a: u64, b: u64) -> u64;

/// The binary64 product of two encodings, rounded to nearest, ties to even.
pub uninterp spec fn ieee_mul(a: u64, b: u64) -> u64;

/// The binary64 quotient of two encodings, rounded to nearest, ties to even.
pub uninterp spec fn ieee_div(a: u64, b: u64) -> u64;

/// Decodes `a` and `b` with `rustc_apfloat::Float::from_bits` as
/// `rustc_apfloat::ieee::Double`, applies that type's `+` operator (its
/// `Float::add_r` with `Round::NearestTiesToEven`) and encodes the value of
/// the result with `Float::to_bits`. Not proved here, but assumed of that
/// code: what comes back is `ieee_add(a, b)`, the sum that IEEE 754 defines.
#[verifier::external_body]
fn soft_add(a: u64, b: u64) -> (r: u64)
    ensures
        r == ieee_add(a, b),
{
    (Double::from_bits(u128::from(a)) + Double::from_bits(u128::from(b))).value.to_bits() as u64
}

/// Decodes `a` and `b` with `rustc_apfloat::Float::from_bits` as
/// `rustc_apfloat::ieee::Double`, applies that type's `-` operator (its
/// `Float::sub_r` with `Round::NearestTiesToEven`) and encodes the value of
/// the result with `Float::to_bits`. Not proved here, but assumed of that
/// code: what comes back is `ieee_sub(a, b)`, the difference that IEEE 754 defines.
#[verifier::external_body]
fn soft_sub(a: u64, b: u64) -> (r: u64)
    ensures
        r == ieee_sub(a, b),
{
    (Double::from_bits(u128::from(a)) - Double::from_bits(u128::from(b))).value.to_bits() as u64
}

/// Decodes `a` and `b` with `rustc_apfloat::Float::from_bits` as
/// `rustc_apfloat::ieee::Double`, applies that type's `*` operator (its
/// `Float::mul_r` with `Round::NearestTiesToEven`) and encodes the value of
/// the result with `Float::to_bits`. Not proved here, but assumed of that
/// code: what comes back is `ieee_mul(a, b)`, the product that IEEE 754 defines.
/// Two more facts are taken from that function's source: a NaN operand
/// gives a NaN, and a result that is no NaN carries the exclusive or of the
/// operands' signs.
#[verifier::external_body]
fn soft_mul(a: u64, b: u64) -> (r: u64)
    ensures
        r == ieee_mul(a, b),
        nan_bits(a) || nan_bits(b) ==> nan_bits(r),
        !nan_bits(r) ==> sign_bit(r) == (sign_bit(a) != sign_bit(b)),
{
    (Double::from_bits(u128::from(a)) * Double::from_bits(u128::from(b))).value.to_bits() as u64
}

/// Decodes `a` and `b` with `rustc_apfloat::Float::from_bits` as
/// `rustc_apfloat::ieee::Double`, applies that type's `/` operator (its
/// `Float::div_r` with `Round::NearestTiesToEven`) and encodes the value of
/// the result with `Float::to_bits`. Not proved here, but assumed of that
/// code: what comes back is `ieee_div(a, b)`, the quotient that IEEE 754 defines.
/// Two more facts are taken from that function's source: a NaN operand
/// gives a NaN, and a result that is no NaN carries the exclusive or of the
/// operands' signs.
#[verifier::external_body]
fn soft_div(a: u64, b: u64) -> (r: u64)
    ensures
        r == ieee_div(a, b),
        nan_bits(a) || nan_bits(b) ==> nan_bits(r),
        !nan_bits(r) ==> sign_bit(r) == (sign_bit(a) != sign_bit(b)),
{
    (Double::from_bits(u128::from(a)) / Double::from_bits(u128::from(b))).value.to_bits() as u64
}

/// A double-precision number, held as its IEEE 754 binary64 encoding.
#[derive(Clone, Copy, Debug)]
pub struct Scalar {
    pub bits: u64,
}

impl Scalar {
    /// The sum of `self` and `rhs`.
    pub open spec fn sum(self, rhs: Scalar) -> Scalar {
        Scalar { bits: ieee_add(self.bits, rhs.bits) }
    }

    /// The difference of `self` and `rhs`.
    pub open spec fn difference(self, rhs: Scalar) -> Scalar {
        Scalar { bits: ieee_sub(self.bits, rhs.bits) }
    }

    /// The product of `self` and `rhs`.
    pub open spec fn product(self, rhs: Scalar) -> Scalar {
        Scalar { bits: ieee_mul(self.bits, rhs.bits) }
    }

    /// The quotient of `self` by `rhs`.
    pub open spec fn quotient(self, rhs: Scalar) -> Scalar {
        Scalar { bits: ieee_div(self.bits, rhs.bits) }
    }

    /// The magnitude: the same encoding with the sign bit cleared.
    pub open spec fn magnitude(self) -> Scalar {
        Scalar { bits: magnitude_bits(self.bits) }
    }

    pub open spec fn is_zero_spec(self) -> bool {
        zero_bits(self.bits)
    }

    pub open spec fn is_nan_spec(self) -> bool {
        nan_bits(self.bits)
    }

    pub open spec fn is_negative_spec(self) -> bool {
        sign_bit(self.bits)
    }

    /// Greater than zero: sign bit clear, not zero, not a NaN.
    pub open spec fn is_positive_spec(self) -> bool {
        0 < self.bits <= INFINITY_BITS
    }

    pub fn from_bits(bits: u64) -> (r: Scalar)
        ensures
            r.bits == bits,
    {
        Scalar { bits }
    }

    pub fn to_bits(self) -> (r: u64)
        ensures
            r == self.bits,
    {
        self.bits
    }

    /// Positive zero.
    pub fn zero() -> (r: Scalar)
        ensures
            r.bits == 0,
    {
        Scalar { bits: 0 }
    }

    /// Compares equal to zero: positive or negative zero.
    #[verifier::when_used_as_spec(is_zero_spec)]
    pub fn is_zero(self) -> (r: bool)
        ensures
            r == self.is_zero_spec(),
    {
        self.bits == 0 || self.bits == SIGN_MASK
    }

    #[verifier::when_used_as_spec(is_nan_spec)]
    pub fn is_nan(self) -> (r: bool)
        ensures
            r == self.is_nan_spec(),
    {
        if self.bits >= SIGN_MASK {
            self.bits - SIGN_MASK > INFINITY_BITS
        } else {
            self.bits > INFINITY_BITS
        }
    }

    /// The sign bit is set (true of negative zero too).
    #[verifier::when_used_as_spec(is_negative_spec)]
    pub fn is_negative(self) -> (r: bool)
        ensures
            r == self.is_negative_spec(),
    {
        self.bits >= SIGN_MASK
    }

    #[verifier::when_used_as_spec(is_positive_spec)]
    pub fn is_positive(self) -> (r: bool)
        ensures
            r == self.is_positive_spec(),
    {
        0 < self.bits && self.bits <= INFINITY_BITS
    }

    pub fn abs(self) -> (r: Scalar)
        ensures
            r == self.magnitude(),
            !r.is_negative(),
    {
        if self.bits >= SIGN_MASK {
            Scalar { bits: self.bits - SIGN_MASK }
        } else {
            self
        }
    }

    pub fn plus(self, rhs: Scalar) -> (r: Scalar)
        ensures
            r == self.sum(rhs),
    {
        Scalar { bits: soft_add(self.bits, rhs.bits) }
    }

    pub fn minus(self, rhs: Scalar) -> (r: Scalar)
        ensures
            r == self.difference(rhs),
    {
        Scalar { bits: soft_sub(self.bits, rhs.bits) }
    }

    pub fn times(self, rhs: Scalar) -> (r: Scalar)
        ensures
            r == self.product(rhs),
            self.is_nan() || rhs.is_nan() ==> r.is_nan(),
            !r.is_nan() ==> r.is_negative() == (self.is_negative() != rhs.is_negative()),
    {
        Scalar { bits: soft_mul(self.bits, rhs.bits) }
    }

    pub fn over(self, rhs: Scalar) -> (r: Scalar)
        ensures
            r == self.quotient(rhs),
            self.is_nan() || rhs.is_nan() ==> r.is_nan(),
            !r.is_nan() ==> r.is_negative() == (self.is_negative() != rhs.is_negative()),
    {
        Scalar { bits: soft_div(self.bits, rhs.bits) }
    }
}

} // verus!
