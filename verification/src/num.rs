//! Integer helpers: eight-bit wrapping, floor division and modular
//! arithmetic.
//!
//! The executable functions here call `malachite_base`. Their contracts are
//! taken from that crate's documentation and are not proved; every other
//! function of this library is proved against them.

use malachite_base::num::arithmetic::traits::{DivMod, EqMod, Mod, ModAdd, ModMul, Sign};
use malachite_base::num::comparison::traits::{EqAbs, OrdAbs};
use std::cmp::Ordering;
use vstd::prelude::*;

verus! {

/// Whether `x` can be held in an `i8`.
pub open spec fn fits_i8(x: int) -> bool {
    -128 <= x <= 127
}

/// The value that an `i8` holds after `x` has been stored in it with
/// two's-complement wrap-around: the one integer in `-128..=127` that is
/// congruent to `x` modulo 256.
pub open spec fn wrap_i8(x: int) -> int {
    (x + 128) % 256 - 128
}

/// Wrapping keeps a number that fits, yields one that fits, and does not
/// tell apart numbers that differ by a multiple of 256.
pub proof fn lemma_wrap_i8(x: int, k: int)
    ensures
        fits_i8(wrap_i8(x)),
        fits_i8(x) ==> wrap_i8(x) == x,
        wrap_i8(x + 256 * k) == wrap_i8(x),
        wrap_i8(wrap_i8(x) + k) == wrap_i8(x + k),
{
    vstd::arithmetic::div_mod::lemma_mod_multiples_vanish(k, x + 128, 256);
    let q = (x + 128) / 256;
    assert(wrap_i8(x) == x - 256 * q);
    vstd::arithmetic::div_mod::lemma_mod_multiples_vanish(-q, x + k + 128, 256);
}

/// Stores `x` in an `i8` with two's-complement wrap-around.
pub(crate) fn wrap_to_i8(x: i32) -> (r: i8)
    requires
        -0x1000_0000 <= x < 0x1000_0000,
    ensures
        r == wrap_i8(x as int),
{
    let shifted: i32 = x + 0x1000_0080;
    let low: i32 = shifted % 256;
    (low - 128) as i8
}

/// The absolute value of `x`, which for `i8::MIN` is 128.
pub open spec fn magnitude(x: i8) -> int {
    if x < 0 {
        -x
    } else {
        x as int
    }
}

/// How `x` compares with `y`.
pub open spec fn compare(x: int, y: int) -> Ordering {
    if x < y {
        Ordering::Less
    } else if x == y {
        Ordering::Equal
    } else {
        Ordering::Greater
    }
}

/// How `x` compares with zero.
pub open spec fn sign_of(x: i8) -> Ordering {
    if x < 0 {
        Ordering::Less
    } else if x == 0 {
        Ordering::Equal
    } else {
        Ordering::Greater
    }
}

/// `DivMod::div_mod` of `malachite_base` on `i8`, for a positive divisor:
/// the quotient rounded towards negative infinity, and the remainder, which
/// is then never negative.
#[verifier::external_body]
pub(crate) fn div_mod_i8(x: i8, d: i8) -> (qr: (i8, i8))
    requires
        d > 0,
    ensures
        qr.0 == (x as int) / (d as int),
        qr.1 == (x as int) % (d as int),
{
    x.div_mod(d)
}

/// `DivMod::div_mod` of `malachite_base` on `i16`, for a positive divisor:
/// the quotient rounded towards negative infinity, and the remainder, which
/// is then never negative.
#[verifier::external_body]
pub(crate) fn div_mod_i16(x: i16, d: i16) -> (qr: (i16, i16))
    requires
        d > 0,
    ensures
        qr.0 == (x as int) / (d as int),
        qr.1 == (x as int) % (d as int),
{
    x.div_mod(d)
}

/// `Mod::mod_op` of `malachite_base` on `i8`, for a positive divisor: the
/// remainder of the division that rounds towards negative infinity.
#[verifier::external_body]
pub(crate) fn mod_op_i8(x: i8, d: i8) -> (r: i8)
    requires
        d > 0,
    ensures
        r == (x as int) % (d as int),
{
    x.mod_op(d)
}

/// `ModAdd::mod_add` of `malachite_base` on `u8`: the sum of two numbers
/// that are already reduced modulo `m`, reduced modulo `m`.
#[verifier::external_body]
pub(crate) fn mod_add_u8(x: u8, y: u8, m: u8) -> (r: u8)
    requires
        x < m,
        y < m,
    ensures
        r == (x + y) % (m as int),
{
    x.mod_add(y, m)
}

/// `ModMul::mod_mul` of `malachite_base` on `u8`: the product of two
/// numbers that are already reduced modulo `m`, reduced modulo `m`.
#[verifier::external_body]
pub(crate) fn mod_mul_u8(x: u8, y: u8, m: u8) -> (r: u8)
    requires
        x < m,
        y < m,
    ensures
        r == (x * y) % (m as int),
{
    x.mod_mul(y, m)
}

/// `EqMod::eq_mod` of `malachite_base` on `i8`, for a positive modulus:
/// whether the two numbers differ by a multiple of `m`.
#[verifier::external_body]
pub(crate) fn eq_mod_i8(x: i8, y: i8, m: i8) -> (r: bool)
    requires
        m > 0,
    ensures
        r == ((x as int) % (m as int) == (y as int) % (m as int)),
{
    x.eq_mod(y, m)
}

/// `Sign::sign` of `malachite_base` on `i8`: the number compared with zero.
#[verifier::external_body]
pub(crate) fn sign_i8(x: i8) -> (r: Ordering)
    ensures
        r == sign_of(x),
{
    x.sign()
}

/// `OrdAbs::cmp_abs` of `malachite_base` on `i8`: the absolute values of the
/// two numbers compared.
#[verifier::external_body]
pub(crate) fn cmp_abs_i8(x: i8, y: i8) -> (r: Ordering)
    ensures
        r == compare(magnitude(x), magnitude(y)),
{
    x.cmp_abs(&y)
}

/// `EqAbs::eq_abs` of `malachite_base` on `i8`: whether the two numbers have
/// the same absolute value.
#[verifier::external_body]
pub(crate) fn eq_abs_i8(x: i8, y: i8) -> (r: bool)
    ensures
        r == (magnitude(x) == magnitude(y)),
{
    x.eq_abs(&y)
}

} // verus!
