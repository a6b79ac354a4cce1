//! Arbitrary-precision natural numbers. Member counts grow without bound, so
//! every count, price and multiplier is a `BigNat`; the arithmetic itself is
//! done by `num_bigint::BigUint`, and a `BigNat` keeps its value as the
//! little-endian base-2^32 digits that `BigUint` hands out.
use num_bigint::BigUint;
use num_format::{Locale, ToFormattedString};
use vstd::arithmetic::power::pow;
use vstd::prelude::*;

use crate::numfmt::grouped_decimal;

verus! {

/// The number denoted by little-endian base-2^32 digits.
pub open spec fn digits_value(s: Seq<u32>) -> nat
    decreases s.len(),
{
    if s.len() == 0 {
        0
    } else {
        s[0] as nat + 0x1_0000_0000 * digits_value(s.drop_first())
    }
}

/// `BigUint::from(u64)`, read back with `BigUint::to_u32_digits`: the digits
/// denote `x`.
#[verifier::external_body]
fn biguint_from_u64(x: u64) -> (r: Vec<u32>)
    ensures
        digits_value(r@) == x,
{
    BigUint::from(x).to_u32_digits()
}

/// `BigUint + BigUint` on the numbers that `BigUint::from_slice` builds from
/// the digits: the result denotes the sum.
#[verifier::external_body]
fn biguint_add(a: &Vec<u32>, b: &Vec<u32>) -> (r: Vec<u32>)
    ensures
        digits_value(r@) == digits_value(a@) + digits_value(b@),
{
    (BigUint::from_slice(a) + BigUint::from_slice(b)).to_u32_digits()
}

/// `BigUint - BigUint`: the difference. `BigUint` panics when the subtrahend
/// is larger, so that input is excluded.
#[verifier::external_body]
fn biguint_sub(a: &Vec<u32>, b: &Vec<u32>) -> (r: Vec<u32>)
    requires
        digits_value(b@) <= digits_value(a@),
    ensures
        digits_value(r@) == digits_value(a@) - digits_value(b@),
{
    (BigUint::from_slice(a) - BigUint::from_slice(b)).to_u32_digits()
}

/// `BigUint * BigUint`: the product.
#[verifier::external_body]
fn biguint_mul(a: &Vec<u32>, b: &Vec<u32>) -> (r: Vec<u32>)
    ensures
        digits_value(r@) == digits_value(a@) * digits_value(b@),
{
    (BigUint::from_slice(a) * BigUint::from_slice(b)).to_u32_digits()
}

/// `BigUint / BigUint`: the quotient rounded down. `BigUint` panics on a zero
/// divisor, so that input is excluded.
#[verifier::external_body]
fn biguint_div(a: &Vec<u32>, b: &Vec<u32>) -> (r: Vec<u32>)
    requires
        digits_value(b@) > 0,
    ensures
        digits_value(r@) == digits_value(a@) / digits_value(b@),
{
    (BigUint::from_slice(a) / BigUint::from_slice(b)).to_u32_digits()
}

/// `BigUint::pow`: the base raised to the exponent (`0^0` is 1).
#[verifier::external_body]
fn biguint_pow(a: &Vec<u32>, e: u32) -> (r: Vec<u32>)
    ensures
        digits_value(r@) == pow(digits_value(a@) as int, e as nat),
{
    BigUint::from_slice(a).pow(e).to_u32_digits()
}

/// `BigUint <= BigUint`: whether the first number is at most the second.
#[verifier::external_body]
fn biguint_le(a: &Vec<u32>, b: &Vec<u32>) -> (r: bool)
    ensures
        r == (digits_value(a@) <= digits_value(b@)),
{
    BigUint::from_slice(a) <= BigUint::from_slice(b)
}

/// `BigUint == BigUint`: whether the two numbers are equal.
#[verifier::external_body]
fn biguint_eq(a: &Vec<u32>, b: &Vec<u32>) -> (r: bool)
    ensures
        r == (digits_value(a@) == digits_value(b@)),
{
    BigUint::from_slice(a) == BigUint::from_slice(b)
}

/// `BigUint::to_formatted_string(&Locale::en)`: the decimal digits of the
/// number with a comma between groups of three.
#[verifier::external_body]
fn biguint_formatted_en(a: &Vec<u32>) -> (r: String)
    ensures
        r@ == grouped_decimal(digits_value(a@)),
{
    BigUint::from_slice(a).to_formatted_string(&Locale::en)
}

/// `u32::to_formatted_string(&Locale::en)`: the decimal digits of `x` with a
/// comma between groups of three.
#[verifier::external_body]
pub(crate) fn u32_formatted_en(x: u32) -> (r: String)
    ensures
        r@ == grouped_decimal(x as nat),
{
    x.to_formatted_string(&Locale::en)
}

/// A natural number of any size.
pub struct BigNat {
    digits: Vec<u32>,
}

impl View for BigNat {
    type V = nat;

    closed spec fn view(&self) -> nat {
        digits_value(self.digits@)
    }
}

impl BigNat {
    /// Zero.
    pub fn zero() -> (r: BigNat)
        ensures
            r@ == 0,
    {
        BigNat { digits: Vec::new() }
    }

    /// The number `x`.
    pub fn from_u64(x: u64) -> (r: BigNat)
        ensures
            r@ == x,
    {
        BigNat { digits: biguint_from_u64(x) }
    }

    /// The number with the given little-endian base-2^32 digits.
    pub fn from_digits(digits: Vec<u32>) -> (r: BigNat)
        ensures
            r@ == digits_value(digits@),
    {
        BigNat { digits }
    }

    /// Little-endian base-2^32 digits of the number.
    pub fn to_digits(&self) -> (r: Vec<u32>)
        ensures
            digits_value(r@) == self@,
    {
        self.copy().digits
    }

    /// Another `BigNat` with the same value.
    pub fn copy(&self) -> (r: BigNat)
        ensures
            r@ == self@,
    {
        let mut digits: Vec<u32> = Vec::new();
        let mut i: usize = 0;
        while i < self.digits.len()
            invariant
                i <= self.digits.len(),
                digits@ == self.digits@.subrange(0, i as int),
            decreases self.digits.len() - i,
        {
            digits.push(self.digits[i]);
            i = i + 1;
        }
        assert(digits@ == self.digits@);
        BigNat { digits }
    }

    /// `self + other`.
    pub fn add(&self, other: &BigNat) -> (r: BigNat)
        ensures
            r@ == self@ + other@,
    {
        BigNat { digits: biguint_add(&self.digits, &other.digits) }
    }

    /// `self - other`, for `other <= self`.
    pub fn sub(&self, other: &BigNat) -> (r: BigNat)
        requires
            other@ <= self@,
        ensures
            r@ == self@ - other@,
    {
        BigNat { digits: biguint_sub(&self.digits, &other.digits) }
    }

    /// `self * other`.
    pub fn mul(&self, other: &BigNat) -> (r: BigNat)
        ensures
            r@ == self@ * other@,
    {
        BigNat { digits: biguint_mul(&self.digits, &other.digits) }
    }

    /// `self / other` rounded down, for a non-zero `other`.
    pub fn div(&self, other: &BigNat) -> (r: BigNat)
        requires
            other@ > 0,
        ensures
            r@ == self@ / other@,
    {
        BigNat { digits: biguint_div(&self.digits, &other.digits) }
    }

    /// `self` to the power `e`.
    pub fn pow(&self, e: u32) -> (r: BigNat)
        ensures
            r@ == pow(self@ as int, e as nat),
    {
        BigNat { digits: biguint_pow(&self.digits, e) }
    }

    /// Whether `self <= other`.
    pub fn le(&self, other: &BigNat) -> (r: bool)
        ensures
            r == (self@ <= other@),
    {
        biguint_le(&self.digits, &other.digits)
    }

    /// Whether the two numbers are equal.
    pub fn equals(&self, other: &BigNat) -> (r: bool)
        ensures
            r == (self@ == other@),
    {
        biguint_eq(&self.digits, &other.digits)
    }

    /// The number in decimal with English thousands separators, e.g. `1,234`.
    pub fn formatted_en(&self) -> (r: String)
        ensures
            r@ == grouped_decimal(self@),
    {
        biguint_formatted_en(&self.digits)
    }
}

} // verus!
