//! The arbitrary-precision mass arithmetic the model rests on.
//!
//! Masses and exact lengths are held as `num::BigUint`, so that stellar-scale
//! values (well past the safe range of any machine integer) never lose
//! precision. Verus sees the type as opaque; its mathematical value is
//! recovered through [`big_val`], and every operation the model performs on it
//! goes through one of the trusted wrappers below.

use vstd::prelude::*;

verus! {

#[verifier::external_type_specification]
#[verifier::external_body]
pub struct ExBigUint(num::BigUint);

/// The little-endian base-2^64 digits a `num::BigUint` holds.
pub uninterp spec fn big_digits(b: num::BigUint) -> Seq<u64>;

/// The value of a little-endian sequence of base-2^64 digits.
pub open spec fn digits_val(s: Seq<u64>) -> nat
    decreases s.len(),
{
    if s.len() == 0 {
        0
    } else {
        (s[0] + 0x1_0000_0000_0000_0000 * digits_val(s.subrange(1, s.len() as int))) as nat
    }
}

/// The non-negative integer a `num::BigUint` stands for.
pub open spec fn big_val(b: num::BigUint) -> nat {
    digits_val(big_digits(b))
}

/// Relies on `num::BigUint::from` (`From<u128>`): the result holds exactly
/// the given value.
#[verifier::external_body]
pub(crate) fn big_from_u128(x: u128) -> (r: num::BigUint)
    ensures
        big_val(r) == x,
{
    num::BigUint::from(x)
}

/// Relies on `Clone for num::BigUint`: the copy holds the same digits, and so
/// the same value.
#[verifier::external_body]
pub(crate) fn big_clone(a: &num::BigUint) -> (r: num::BigUint)
    ensures
        big_digits(r) == big_digits(*a),
        big_val(r) == big_val(*a),
{
    a.clone()
}

/// Relies on `Mul for &num::BigUint`: exact product.
#[verifier::external_body]
pub(crate) fn big_mul(a: &num::BigUint, b: &num::BigUint) -> (r: num::BigUint)
    ensures
        big_val(r) == big_val(*a) * big_val(*b),
{
    a * b
}

/// Relies on `Div for &num::BigUint`: the quotient rounded toward zero, which
/// on non-negative values is the floor; division by zero panics there, so it
/// is ruled out here.
#[verifier::external_body]
pub(crate) fn big_div(a: &num::BigUint, b: &num::BigUint) -> (r: num::BigUint)
    requires
        big_val(*b) > 0,
    ensures
        big_val(r) == big_val(*a) / big_val(*b),
{
    a / b
}

/// Relies on `num::BigUint::sqrt`: the truncated principal square root, the
/// unique `r` with `r² ≤ a < (r+1)²`.
#[verifier::external_body]
pub(crate) fn big_sqrt(a: &num::BigUint) -> (r: num::BigUint)
    ensures
        big_val(r) * big_val(r) <= big_val(*a),
        big_val(*a) < (big_val(r) + 1) * (big_val(r) + 1),
{
    a.sqrt()
}

/// Relies on `num::BigUint::cbrt`: the truncated principal cube root, the
/// unique `r` with `r³ ≤ a < (r+1)³`.
#[verifier::external_body]
pub(crate) fn big_cbrt(a: &num::BigUint) -> (r: num::BigUint)
    ensures
        big_val(r) * big_val(r) * big_val(r) <= big_val(*a),
        big_val(*a) < (big_val(r) + 1) * (big_val(r) + 1) * (big_val(r) + 1),
{
    a.cbrt()
}

/// Relies on `num::traits::Zero::is_zero` for `num::BigUint`: true exactly on
/// the value zero.
#[verifier::external_body]
pub(crate) fn big_is_zero(a: &num::BigUint) -> (r: bool)
    ensures
        r <==> big_val(*a) == 0,
{
    num::Zero::is_zero(a)
}

} // verus!
