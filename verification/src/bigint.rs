//! Arbitrary-precision integer literals.
//!
//! The expression kernel stores its integer literals as `num_bigint::BigInt`
//! values so that constant folding never overflows.  Verus sees the type as
//! opaque; the spec function [`big_int_value`] names the mathematical integer
//! a `BigInt` holds, and every operation the kernel needs is wrapped in a
//! small trusted function whose contract speaks over that name.

use vstd::prelude::*;

verus! {

/// The mathematical integer held by a `num_bigint::BigInt`.
pub uninterp spec fn big_int_value(b: num_bigint::BigInt) -> int;

#[verifier::external_type_specification]
#[verifier::external_body]
pub struct ExBigInt(num_bigint::BigInt);

/// The decimal digits of `n >= 0`, most significant first.
pub open spec fn spec_decimal_nat(n: nat) -> Seq<char>
    decreases n,
{
    let d = spec_decimal_digit((n % 10) as nat);
    if n < 10 {
        seq![d]
    } else {
        spec_decimal_nat(n / 10).push(d)
    }
}

/// The decimal rendering of an integer: a minus sign for negative values,
/// then the digits of the absolute value with no leading zeros.
pub open spec fn spec_decimal_int(n: int) -> Seq<char> {
    if n < 0 {
        seq!['-'] + spec_decimal_nat((-n) as nat)
    } else {
        spec_decimal_nat(n as nat)
    }
}

/// The character for a single decimal digit `d < 10`.
pub open spec fn spec_decimal_digit(d: nat) -> char {
    if d == 0 {
        '0'
    } else if d == 1 {
        '1'
    } else if d == 2 {
        '2'
    } else if d == 3 {
        '3'
    } else if d == 4 {
        '4'
    } else if d == 5 {
        '5'
    } else if d == 6 {
        '6'
    } else if d == 7 {
        '7'
    } else if d == 8 {
        '8'
    } else {
        '9'
    }
}

/// Relies on num_bigint's `From<i64>`: the new integer holds exactly `n`.
#[verifier::external_body]
pub(crate) fn big_from_i64(n: i64) -> (r: num_bigint::BigInt)
    ensures
        big_int_value(r) == n as int,
{
    num_bigint::BigInt::from(n)
}

/// Relies on num_bigint's `From<u64>`: the new integer holds exactly `n`.
#[verifier::external_body]
pub(crate) fn big_from_u64(n: u64) -> (r: num_bigint::BigInt)
    ensures
        big_int_value(r) == n as int,
{
    num_bigint::BigInt::from(n)
}

/// Relies on num_bigint's `From<usize>`: the new integer holds exactly `n`.
#[verifier::external_body]
pub(crate) fn big_from_usize(n: usize) -> (r: num_bigint::BigInt)
    ensures
        big_int_value(r) == n as int,
{
    num_bigint::BigInt::from(n)
}

/// Relies on num_bigint's `Clone`: the copy holds the same integer.
#[verifier::external_body]
pub(crate) fn big_clone(a: &num_bigint::BigInt) -> (r: num_bigint::BigInt)
    ensures
        big_int_value(r) == big_int_value(*a),
{
    a.clone()
}

/// Relies on num_bigint's `Add`: exact integer addition.
#[verifier::external_body]
pub(crate) fn big_add(a: &num_bigint::BigInt, b: &num_bigint::BigInt) -> (r: num_bigint::BigInt)
    ensures
        big_int_value(r) == big_int_value(*a) + big_int_value(*b),
{
    a + b
}

/// Relies on num_bigint's `Mul`: exact integer multiplication.
#[verifier::external_body]
pub(crate) fn big_mul(a: &num_bigint::BigInt, b: &num_bigint::BigInt) -> (r: num_bigint::BigInt)
    ensures
        big_int_value(r) == big_int_value(*a) * big_int_value(*b),
{
    a * b
}

/// Relies on num_bigint's `Neg`: exact integer negation.
#[verifier::external_body]
pub(crate) fn big_neg(a: &num_bigint::BigInt) -> (r: num_bigint::BigInt)
    ensures
        big_int_value(r) == -big_int_value(*a),
{
    -a
}

/// Relies on num_bigint's `Pow<u32>`: exact integer exponentiation.
#[verifier::external_body]
pub(crate) fn big_pow_u32(a: &num_bigint::BigInt, e: u32) -> (r: num_bigint::BigInt)
    ensures
        big_int_value(r) == vstd::arithmetic::power::pow(big_int_value(*a), e as nat),
{
    num_traits::Pow::pow(a, e)
}

/// Relies on num_traits' `Zero::is_zero`: true exactly for the integer zero.
#[verifier::external_body]
pub(crate) fn big_is_zero(a: &num_bigint::BigInt) -> (r: bool)
    ensures
        r <==> big_int_value(*a) == 0,
{
    num_traits::Zero::is_zero(a)
}

/// Relies on num_traits' `One::is_one`: true exactly for the integer one.
#[verifier::external_body]
pub(crate) fn big_is_one(a: &num_bigint::BigInt) -> (r: bool)
    ensures
        r <==> big_int_value(*a) == 1,
{
    num_traits::One::is_one(a)
}

/// Relies on num_traits' `ToPrimitive::to_i64`: the exact value when it fits
/// in an `i64`, and `None` otherwise.
#[verifier::external_body]
pub(crate) fn big_to_i64(a: &num_bigint::BigInt) -> (r: Option<i64>)
    ensures
        r == (if i64::MIN <= big_int_value(*a) <= i64::MAX {
            Some(big_int_value(*a) as i64)
        } else {
            None::<i64>
        }),
{
    num_traits::ToPrimitive::to_i64(a)
}

/// Relies on num_traits' `ToPrimitive::to_u64`: the exact value when it fits
/// in a `u64`, and `None` otherwise.
#[verifier::external_body]
pub(crate) fn big_to_u64(a: &num_bigint::BigInt) -> (r: Option<u64>)
    ensures
        r == (if 0 <= big_int_value(*a) <= u64::MAX {
            Some(big_int_value(*a) as u64)
        } else {
            None::<u64>
        }),
{
    num_traits::ToPrimitive::to_u64(a)
}

/// Relies on num_bigint's `Display`: the decimal rendering of the integer,
/// with a leading minus sign when it is negative.
#[verifier::external_body]
pub(crate) fn big_to_decimal(a: &num_bigint::BigInt) -> (r: String)
    ensures
        r@ == spec_decimal_int(big_int_value(*a)),
{
    a.to_string()
}

} // verus!
