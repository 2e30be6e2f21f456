//! IEEE 754 binary64 numbers as bit patterns.
//!
//! Ordering, equality, sign, absolute value and the arithmetic of zero are
//! defined here directly on the bits. Rounded arithmetic is delegated to a
//! software implementation and appears in contracts under the names
//! `binary64_add`, `binary64_mul`, `binary64_div` and `binary64_sqrt`.

use const_soft_float::soft_f64::SoftF64;
use vstd::prelude::*;

verus! {

/// The sign bit of a binary64 pattern.
pub const SIGN_BIT: u64 = 0x8000_0000_0000_0000;

/// The pattern of positive infinity; every larger magnitude is a NaN.
pub const INFINITY_BITS: u64 = 0x7ff0_0000_0000_0000;

/// The pattern of negative zero.
pub const NEGATIVE_ZERO_BITS: u64 = 0x8000_0000_0000_0000;

/// The pattern of one half.
pub const HALF_BITS: u64 = 0x3fe0_0000_0000_0000;

/// The pattern of one.
pub const ONE_BITS: u64 = 0x3ff0_0000_0000_0000;

/// The pattern with the sign bit cleared.
pub open spec fn magnitude(bits: u64) -> u64 {
    if bits >= SIGN_BIT {
        (bits - SIGN_BIT) as u64
    } else {
        bits
    }
}

/// The pattern with the sign bit flipped.
pub open spec fn negated(bits: u64) -> u64 {
    if bits >= SIGN_BIT {
        (bits - SIGN_BIT) as u64
    } else {
        (bits + SIGN_BIT) as u64
    }
}

/// Not a number: the exponent is all ones and the fraction is not zero.
pub open spec fn is_nan(bits: u64) -> bool {
    magnitude(bits) > INFINITY_BITS
}

/// Positive or negative zero.
pub open spec fn is_zero(bits: u64) -> bool {
    magnitude(bits) == 0
}

/// Neither a NaN nor an infinity.
pub open spec fn is_finite(bits: u64) -> bool {
    magnitude(bits) < INFINITY_BITS
}

/// Where a number that is not a NaN stands in the order of the reals: the two
/// zeros share the key 0, and a larger key is a larger number.
pub open spec fn order_key(bits: u64) -> int {
    if bits >= SIGN_BIT {
        -(magnitude(bits) as int)
    } else {
        bits as int
    }
}

/// Numeric equality: false when either side is a NaN, true of the two zeros.
pub open spec fn float_eq(a: u64, b: u64) -> bool {
    !is_nan(a) && !is_nan(b) && order_key(a) == order_key(b)
}

/// Numeric `<`: false when either side is a NaN.
pub open spec fn float_lt(a: u64, b: u64) -> bool {
    !is_nan(a) && !is_nan(b) && order_key(a) < order_key(b)
}

/// Numeric `<=`: false when either side is a NaN.
pub open spec fn float_le(a: u64, b: u64) -> bool {
    !is_nan(a) && !is_nan(b) && order_key(a) <= order_key(b)
}

/// The zero that a product of zero takes: negative when the signs differ.
pub open spec fn signed_zero_of_product(a: u64, b: u64) -> u64 {
    if (a >= SIGN_BIT) != (b >= SIGN_BIT) {
        NEGATIVE_ZERO_BITS
    } else {
        0
    }
}

/// The sum of two zeros: negative only when both are.
pub open spec fn sum_of_zeros(a: u64, b: u64) -> u64 {
    if a >= SIGN_BIT && b >= SIGN_BIT {
        NEGATIVE_ZERO_BITS
    } else {
        0
    }
}

/// The rounded sum of two binary64 numbers, as `SoftF64::add` computes it.
pub uninterp spec fn binary64_add(a: u64, b: u64) -> u64;

/// The rounded product of two binary64 numbers, as `SoftF64::mul` computes it.
pub uninterp spec fn binary64_mul(a: u64, b: u64) -> u64;

/// The rounded quotient of two binary64 numbers, as `SoftF64::div` computes it.
pub uninterp spec fn binary64_div(a: u64, b: u64) -> u64;

/// The rounded square root of a binary64 number, as `SoftF64::sqrt` computes it.
pub uninterp spec fn binary64_sqrt(a: u64) -> u64;

/// The pattern of two to the power 32.
pub const TWO_TO_THE_32_BITS: u64 = 0x41f0_0000_0000_0000;

/// The binary digits of `n` summed up from the top in binary64 arithmetic:
/// twice the number for the digits above the last, plus the last digit.
pub open spec fn digits_bits(n: nat) -> u64
    decreases n,
{
    if n == 0 {
        0
    } else {
        let upper = digits_bits(n / 2);
        let doubled = float_sum(upper, upper);
        if n % 2 == 1 {
            float_sum(doubled, ONE_BITS)
        } else {
            doubled
        }
    }
}

/// The binary64 number that stands for the count `n`: the number for its
/// upper 32 bits times two to the power 32, plus the number for its lower 32
/// bits, so that the sum is rounded once.
pub open spec fn integer_bits(n: nat) -> u64 {
    float_sum(
        float_product(digits_bits(n / 0x1_0000_0000), TWO_TO_THE_32_BITS),
        digits_bits(n % 0x1_0000_0000),
    )
}

/// The sum of two numbers. Two zeros give a zero, negative only when both
/// are; a zero and a number give the number; every other sum is rounded by
/// the software implementation.
pub open spec fn float_sum(a: u64, b: u64) -> u64 {
    if is_zero(a) && is_zero(b) {
        sum_of_zeros(a, b)
    } else if is_zero(a) && !is_nan(b) {
        b
    } else if is_zero(b) && !is_nan(a) {
        a
    } else {
        binary64_add(a, b)
    }
}

/// The difference `a - b`: the sum of `a` and the negation of `b`.
pub open spec fn float_difference(a: u64, b: u64) -> u64 {
    float_sum(a, negated(b))
}

/// The product of two numbers. A zero times a finite number is the zero whose
/// sign is the product of the signs; every other product is rounded by the
/// software implementation.
pub open spec fn float_product(a: u64, b: u64) -> u64 {
    if (is_zero(a) && is_finite(b)) || (is_zero(b) && is_finite(a)) {
        signed_zero_of_product(a, b)
    } else {
        binary64_mul(a, b)
    }
}

/// Neither a NaN nor negative zero.
pub open spec fn regular(bits: u64) -> bool {
    !is_nan(bits) && bits != NEGATIVE_ZERO_BITS
}

/// Calls `SoftF64::add` on two bit patterns and names the result
/// `binary64_add`.
#[verifier::external_body]
fn soft_add(a: u64, b: u64) -> (r: u64)
    ensures
        r == binary64_add(a, b),
{
    SoftF64::from_bits(a).add(SoftF64::from_bits(b)).to_bits()
}

/// Calls `SoftF64::mul` on two bit patterns and names the result
/// `binary64_mul`.
#[verifier::external_body]
fn soft_mul(a: u64, b: u64) -> (r: u64)
    ensures
        r == binary64_mul(a, b),
{
    SoftF64::from_bits(a).mul(SoftF64::from_bits(b)).to_bits()
}

/// Calls `SoftF64::div` on two bit patterns and names the result
/// `binary64_div`.
#[verifier::external_body]
fn soft_div(a: u64, b: u64) -> (r: u64)
    ensures
        r == binary64_div(a, b),
{
    SoftF64::from_bits(a).div(SoftF64::from_bits(b)).to_bits()
}

/// Calls `SoftF64::sqrt` on a bit pattern and names the result
/// `binary64_sqrt`.
#[verifier::external_body]
fn soft_sqrt(a: u64) -> (r: u64)
    ensures
        r == binary64_sqrt(a),
{
    SoftF64::from_bits(a).sqrt().to_bits()
}

/// A binary64 number.
#[derive(Clone, Copy, Debug)]
pub struct Scalar {
    pub bits: u64,
}

impl View for Scalar {
    type V = u64;

    /// The number's bit pattern.
    open spec fn view(&self) -> u64 {
        self.bits
    }
}

impl Scalar {
    pub fn from_bits(bits: u64) -> (r: Scalar)
        ensures
            r@ == bits,
    {
        Scalar { bits }
    }

    pub fn to_bits(&self) -> (r: u64)
        ensures
            r == self@,
    {
        self.bits
    }

    pub fn zero() -> (r: Scalar)
        ensures
            r@ == 0,
    {
        Scalar { bits: 0 }
    }

    pub fn half() -> (r: Scalar)
        ensures
            r@ == HALF_BITS,
    {
        Scalar { bits: HALF_BITS }
    }

    pub fn one() -> (r: Scalar)
        ensures
            r@ == ONE_BITS,
    {
        Scalar { bits: ONE_BITS }
    }

    /// The binary digits of `n`, summed up from the top.
    fn from_digits(n: u64) -> (r: Scalar)
        ensures
            r@ == digits_bits(n as nat),
        decreases n,
    {
        if n == 0 {
            Scalar::zero()
        } else {
            let upper = Scalar::from_digits(n / 2);
            let doubled = upper.plus(upper);
            if n % 2 == 1 {
                doubled.plus(Scalar::one())
            } else {
                doubled
            }
        }
    }

    /// The number that stands for the count `n`.
    pub fn from_u64(n: u64) -> (r: Scalar)
        ensures
            r@ == integer_bits(n as nat),
    {
        let upper = Scalar::from_digits(n / 0x1_0000_0000);
        let lower = Scalar::from_digits(n % 0x1_0000_0000);
        upper.times(Scalar { bits: TWO_TO_THE_32_BITS }).plus(lower)
    }

    pub fn is_nan(&self) -> (r: bool)
        ensures
            r == is_nan(self@),
    {
        self.abs().bits > INFINITY_BITS
    }

    pub fn abs(&self) -> (r: Scalar)
        ensures
            r@ == magnitude(self@),
    {
        if self.bits >= SIGN_BIT {
            Scalar { bits: self.bits - SIGN_BIT }
        } else {
            Scalar { bits: self.bits }
        }
    }

    pub fn neg(&self) -> (r: Scalar)
        ensures
            r@ == negated(self@),
    {
        if self.bits >= SIGN_BIT {
            Scalar { bits: self.bits - SIGN_BIT }
        } else {
            Scalar { bits: self.bits + SIGN_BIT }
        }
    }

    pub fn is_zero(&self) -> (r: bool)
        ensures
            r == is_zero(self@),
    {
        self.abs().bits == 0
    }

    pub fn is_finite(&self) -> (r: bool)
        ensures
            r == is_finite(self@),
    {
        self.abs().bits < INFINITY_BITS
    }

    pub fn plus(&self, rhs: Scalar) -> (r: Scalar)
        ensures
            r@ == float_sum(self@, rhs@),
    {
        if self.is_zero() && rhs.is_zero() {
            if self.bits >= SIGN_BIT && rhs.bits >= SIGN_BIT {
                Scalar { bits: NEGATIVE_ZERO_BITS }
            } else {
                Scalar { bits: 0 }
            }
        } else if self.is_zero() && !rhs.is_nan() {
            rhs
        } else if rhs.is_zero() && !self.is_nan() {
            *self
        } else {
            Scalar { bits: soft_add(self.bits, rhs.bits) }
        }
    }

    pub fn minus(&self, rhs: Scalar) -> (r: Scalar)
        ensures
            r@ == float_difference(self@, rhs@),
    {
        self.plus(rhs.neg())
    }

    pub fn times(&self, rhs: Scalar) -> (r: Scalar)
        ensures
            r@ == float_product(self@, rhs@),
    {
        if (self.is_zero() && rhs.is_finite()) || (rhs.is_zero() && self.is_finite()) {
            if (self.bits >= SIGN_BIT) != (rhs.bits >= SIGN_BIT) {
                Scalar { bits: NEGATIVE_ZERO_BITS }
            } else {
                Scalar { bits: 0 }
            }
        } else {
            Scalar { bits: soft_mul(self.bits, rhs.bits) }
        }
    }

    pub fn over(&self, rhs: Scalar) -> (r: Scalar)
        ensures
            r@ == binary64_div(self@, rhs@),
    {
        Scalar { bits: soft_div(self.bits, rhs.bits) }
    }

    pub fn sqrt(&self) -> (r: Scalar)
        ensures
            r@ == binary64_sqrt(self@),
    {
        Scalar { bits: soft_sqrt(self.bits) }
    }

    /// Numeric `<`.
    pub fn lt(&self, rhs: Scalar) -> (r: bool)
        ensures
            r == float_lt(self@, rhs@),
    {
        if self.is_nan() || rhs.is_nan() {
            false
        } else {
            let a: u64 = self.abs().bits;
            let b: u64 = rhs.abs().bits;
            if self.bits >= SIGN_BIT {
                if rhs.bits >= SIGN_BIT {
                    a > b
                } else {
                    a > 0 || b > 0
                }
            } else {
                rhs.bits < SIGN_BIT && a < b
            }
        }
    }

    /// Numeric `==`.
    pub fn equals(&self, rhs: Scalar) -> (r: bool)
        ensures
            r == float_eq(self@, rhs@),
    {
        if self.is_nan() || rhs.is_nan() {
            false
        } else {
            let a: u64 = self.abs().bits;
            let b: u64 = rhs.abs().bits;
            self.bits == rhs.bits || (a == 0 && b == 0)
        }
    }

    /// Numeric `<=`.
    pub fn le(&self, rhs: Scalar) -> (r: bool)
        ensures
            r == float_le(self@, rhs@),
    {
        self.lt(rhs) || self.equals(rhs)
    }
}

impl PartialEq for Scalar {
    fn eq(&self, other: &Scalar) -> (r: bool) {
        self.equals(*other)
    }
}

impl vstd::std_specs::cmp::PartialEqSpecImpl for Scalar {
    open spec fn obeys_eq_spec() -> bool {
        true
    }

    open spec fn eq_spec(&self, other: &Scalar) -> bool {
        float_eq(self@, other@)
    }
}

/// The rounded sum.
impl core::ops::Add for Scalar {
    type Output = Scalar;

    fn add(self, rhs: Scalar) -> (r: Scalar)
        ensures
            r@ == float_sum(self@, rhs@),
    {
        self.plus(rhs)
    }
}

impl vstd::std_specs::ops::AddSpecImpl for Scalar {
    open spec fn obeys_add_spec() -> bool {
        true
    }

    open spec fn add_req(self, rhs: Scalar) -> bool {
        true
    }

    open spec fn add_spec(self, rhs: Scalar) -> Scalar {
        Scalar { bits: float_sum(self@, rhs@) }
    }
}

/// The rounded difference.
impl core::ops::Sub for Scalar {
    type Output = Scalar;

    fn sub(self, rhs: Scalar) -> (r: Scalar)
        ensures
            r@ == float_difference(self@, rhs@),
    {
        self.minus(rhs)
    }
}

impl vstd::std_specs::ops::SubSpecImpl for Scalar {
    open spec fn obeys_sub_spec() -> bool {
        true
    }

    open spec fn sub_req(self, rhs: Scalar) -> bool {
        true
    }

    open spec fn sub_spec(self, rhs: Scalar) -> Scalar {
        Scalar { bits: float_difference(self@, rhs@) }
    }
}

/// The rounded product.
impl core::ops::Mul for Scalar {
    type Output = Scalar;

    fn mul(self, rhs: Scalar) -> (r: Scalar)
        ensures
            r@ == float_product(self@, rhs@),
    {
        self.times(rhs)
    }
}

impl vstd::std_specs::ops::MulSpecImpl for Scalar {
    open spec fn obeys_mul_spec() -> bool {
        true
    }

    open spec fn mul_req(self, rhs: Scalar) -> bool {
        true
    }

    open spec fn mul_spec(self, rhs: Scalar) -> Scalar {
        Scalar { bits: float_product(self@, rhs@) }
    }
}

/// The rounded quotient.
impl core::ops::Div for Scalar {
    type Output = Scalar;

    fn div(self, rhs: Scalar) -> (r: Scalar)
        ensures
            r@ == binary64_div(self@, rhs@),
    {
        self.over(rhs)
    }
}

impl vstd::std_specs::ops::DivSpecImpl for Scalar {
    open spec fn obeys_div_spec() -> bool {
        true
    }

    open spec fn div_req(self, rhs: Scalar) -> bool {
        true
    }

    open spec fn div_spec(self, rhs: Scalar) -> Scalar {
        Scalar { bits: binary64_div(self@, rhs@) }
    }
}

} // verus!
