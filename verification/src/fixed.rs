//! An exact decimal number type with six fractional digits.
//!
//! A [`Fixed`] holds a count of millionths in an `i64`. Its arithmetic is
//! total: a result that does not fit is held at the nearest bound, a product
//! or quotient is cut off toward zero after the sixth digit, and the least
//! `i64` is set aside as the marker for "no value", which every operation
//! hands on.

use crate::scalar::Scalar;
use vstd::prelude::*;

verus! {

/// The number of raw units that make up one.
pub const SCALE: i64 = 1_000_000;

/// The raw value nearest to `x` that a defined [`Fixed`] can hold.
pub open spec fn clamp(x: int) -> i64 {
    if x > i64::MAX {
        i64::MAX
    } else if x < -i64::MAX {
        (-i64::MAX) as i64
    } else {
        x as i64
    }
}

/// The quotient of `num` by `den`, cut off toward zero (`den` is not zero).
pub open spec fn quotient(num: int, den: int) -> int {
    if den > 0 {
        if num >= 0 {
            num / den
        } else {
            -((-num) / den)
        }
    } else {
        if num >= 0 {
            -(num / (-den))
        } else {
            (-num) / (-den)
        }
    }
}

/// A decimal number with six fractional digits, or the marker for "no
/// value".
#[derive(Debug, Clone, Copy, PartialEq, Eq, Structural)]
pub struct Fixed {
    /// The number in millionths; `i64::MIN` marks "no value".
    pub raw: i64,
}

impl Fixed {
    /// Whether this is a number rather than the marker for "no value".
    pub open spec fn is_defined(self) -> bool {
        self.raw != i64::MIN
    }

    /// The marker for "no value".
    pub open spec fn none() -> Fixed {
        Fixed { raw: i64::MIN }
    }

    /// The number of `x` millionths, held at the bounds.
    pub open spec fn of(x: int) -> Fixed {
        Fixed { raw: clamp(x) }
    }

    /// Builds a number from a count of millionths; `i64::MIN` gives the
    /// marker for "no value".
    pub fn from_raw(raw: i64) -> (r: Fixed)
        ensures
            r.raw == raw,
    {
        Fixed { raw }
    }

    /// Builds a whole number.
    pub fn from_int(n: i32) -> (r: Fixed)
        ensures
            r.raw == n * SCALE,
            r.is_defined(),
    {
        let wide: i64 = n as i64;
        Fixed { raw: wide * SCALE }
    }

    /// Tests whether this is a number rather than the marker for "no value".
    pub fn defined(&self) -> (b: bool)
        ensures
            b == self.is_defined(),
    {
        self.raw != i64::MIN
    }
}

/// Holds a wide intermediate result at the bounds of a defined [`Fixed`].
fn saturate(x: i128) -> (r: Fixed)
    ensures
        r == Fixed::of(x as int),
        r.is_defined(),
{
    if x > i64::MAX as i128 {
        Fixed { raw: i64::MAX }
    } else if x < -(i64::MAX as i128) {
        Fixed { raw: -i64::MAX }
    } else {
        Fixed { raw: x as i64 }
    }
}

/// Divides toward zero, which is what `quotient` states.
fn divide(num: i128, den: i128) -> (q: i128)
    requires
        den != 0,
        -i128::MAX <= num,
        -i128::MAX <= den,
    ensures
        q == quotient(num as int, den as int),
{
    let n: i128 = if num < 0 { -num } else { num };
    let d: i128 = if den < 0 { -den } else { den };
    let q: i128 = n / d;
    assert(0 <= q <= n) by (nonlinear_arith)
        requires
            q == n / d,
            n >= 0,
            d > 0,
    ;
    if (num < 0) != (den < 0) {
        -q
    } else {
        q
    }
}

impl Scalar for Fixed {
    open spec fn undefined_spec() -> Fixed {
        Fixed::none()
    }

    fn undefined() -> (r: Fixed) {
        Fixed { raw: i64::MIN }
    }

    open spec fn from_count_spec(n: usize) -> Fixed {
        Fixed::of(n * SCALE)
    }

    fn from_count(n: usize) -> (r: Fixed) {
        let wide: i128 = n as i128;
        saturate(wide * (SCALE as i128))
    }

    open spec fn plus_spec(self, rhs: Fixed) -> Fixed {
        if self.is_defined() && rhs.is_defined() {
            Fixed::of(self.raw + rhs.raw)
        } else {
            Fixed::none()
        }
    }

    fn plus(self, rhs: Fixed) -> (r: Fixed) {
        if self.raw == i64::MIN || rhs.raw == i64::MIN {
            Fixed { raw: i64::MIN }
        } else {
            saturate(self.raw as i128 + rhs.raw as i128)
        }
    }

    open spec fn minus_spec(self, rhs: Fixed) -> Fixed {
        if self.is_defined() && rhs.is_defined() {
            Fixed::of(self.raw - rhs.raw)
        } else {
            Fixed::none()
        }
    }

    fn minus(self, rhs: Fixed) -> (r: Fixed) {
        if self.raw == i64::MIN || rhs.raw == i64::MIN {
            Fixed { raw: i64::MIN }
        } else {
            saturate(self.raw as i128 - rhs.raw as i128)
        }
    }

    open spec fn times_spec(self, rhs: Fixed) -> Fixed {
        if self.is_defined() && rhs.is_defined() {
            Fixed::of(quotient(self.raw * rhs.raw, SCALE as int))
        } else {
            Fixed::none()
        }
    }

    fn times(self, rhs: Fixed) -> (r: Fixed) {
        if self.raw == i64::MIN || rhs.raw == i64::MIN {
            Fixed { raw: i64::MIN }
        } else {
            let a: i128 = self.raw as i128;
            let b: i128 = rhs.raw as i128;
            assert(-0x4000_0000_0000_0000_0000_0000_0000_0000 <= a * b
                <= 0x4000_0000_0000_0000_0000_0000_0000_0000) by (nonlinear_arith)
                requires
                    -0x8000_0000_0000_0000 <= a <= 0x8000_0000_0000_0000,
                    -0x8000_0000_0000_0000 <= b <= 0x8000_0000_0000_0000,
            ;
            let q: i128 = divide(a * b, SCALE as i128);
            saturate(q)
        }
    }

    open spec fn over_spec(self, rhs: Fixed) -> Fixed {
        if self.is_defined() && rhs.is_defined() && rhs.raw != 0 {
            Fixed::of(quotient(self.raw * SCALE, rhs.raw as int))
        } else {
            Fixed::none()
        }
    }

    fn over(self, rhs: Fixed) -> (r: Fixed) {
        if self.raw == i64::MIN || rhs.raw == i64::MIN || rhs.raw == 0 {
            Fixed { raw: i64::MIN }
        } else {
            let a: i128 = self.raw as i128;
            assert(-0x8000_0000_0000_0000 * 1_000_000 <= a * 1_000_000
                <= 0x8000_0000_0000_0000 * 1_000_000) by (nonlinear_arith)
                requires
                    -0x8000_0000_0000_0000 <= a <= 0x8000_0000_0000_0000,
            ;
            let q: i128 = divide(a * (SCALE as i128), rhs.raw as i128);
            saturate(q)
        }
    }

    open spec fn below_spec(self, rhs: Fixed) -> bool {
        self.is_defined() && rhs.is_defined() && self.raw < rhs.raw
    }

    fn below(self, rhs: Fixed) -> (b: bool) {
        self.raw != i64::MIN && rhs.raw != i64::MIN && self.raw < rhs.raw
    }

    open spec fn same_spec(self, rhs: Fixed) -> bool {
        self.is_defined() && rhs.is_defined() && self.raw == rhs.raw
    }

    fn same(self, rhs: Fixed) -> (b: bool) {
        self.raw != i64::MIN && rhs.raw != i64::MIN && self.raw == rhs.raw
    }
}

} // verus!
