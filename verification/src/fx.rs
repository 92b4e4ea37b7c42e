//! The provided scalar type: a signed binary fixed-point number with 16
//! fractional bits (48 integer bits), backed by `fixed::FixedI64<U16>`.
//!
//! The model of a [`Fixed64`] is its raw bit representation as an integer;
//! the represented real number is `model / 65536`.  Addition, subtraction
//! and negation are exact on models.  Multiplication rounds the exact
//! product down to the next representable value (`(x * y) / 65536` with
//! flooring division); division truncates the exact quotient toward zero.
//! Both follow the arithmetic of the `fixed` crate, which the trusted
//! wrappers below call.  Square root, sine and cosine are taken from the
//! `cordic` crate and are named, not described, by uninterpreted spec
//! functions.
use vstd::prelude::*;
use vstd::arithmetic::div_mod::lemma_div_multiples_vanish;
use vstd::arithmetic::div_mod::lemma_fundamental_div_mod;
use vstd::arithmetic::div_mod::lemma_mod_bound;
use vstd::math::abs;

use crate::CordicPhantomTrait;
use crate::VecInner;

verus! {

/// Fixed-point scalar: 48 integer bits, 16 fractional bits.
#[derive(Clone, Copy, PartialEq, Eq, Structural, Debug)]
pub struct Fixed64 {
    bits: i64,
}

/// Integer division truncating toward zero, as the `/` of Rust's primitive
/// integers behaves.
pub open spec fn div_trunc(a: int, b: int) -> int
    recommends
        b != 0,
{
    if (a >= 0) == (b >= 0) {
        abs(a) as int / abs(b) as int
    } else {
        -(abs(a) as int / abs(b) as int)
    }
}

/// The model of a fixed-point product: the exact product of the two
/// operands, rounded down to the next representable value.
pub open spec fn fx_mul_m(x: int, y: int) -> int {
    (x * y) / 65536
}

/// The model of a fixed-point quotient: the exact quotient of the two
/// operands, truncated toward zero.
pub open spec fn fx_div_m(x: int, y: int) -> int
    recommends
        y != 0,
{
    div_trunc(x * 65536, y)
}

/// Relies on `fixed::FixedI64::<U16>` addition: the bit representations
/// add exactly; overflow would panic in debug builds, so it is excluded.
#[verifier::external_body]
pub(crate) fn fx_add_bits(a: i64, b: i64) -> (r: i64)
    requires
        i64::MIN <= a + b <= i64::MAX,
    ensures
        r == a + b,
{
    (fixed::FixedI64::<fixed::types::extra::U16>::from_bits(a)
        + fixed::FixedI64::<fixed::types::extra::U16>::from_bits(b)).to_bits()
}

/// Relies on `fixed::FixedI64::<U16>` subtraction: the bit representations
/// subtract exactly; overflow would panic in debug builds, so it is excluded.
#[verifier::external_body]
pub(crate) fn fx_sub_bits(a: i64, b: i64) -> (r: i64)
    requires
        i64::MIN <= a - b <= i64::MAX,
    ensures
        r == a - b,
{
    (fixed::FixedI64::<fixed::types::extra::U16>::from_bits(a)
        - fixed::FixedI64::<fixed::types::extra::U16>::from_bits(b)).to_bits()
}

/// Relies on `fixed::FixedI64::<U16>` negation: the bit representation
/// negates exactly; negating the minimum would panic in debug builds.
#[verifier::external_body]
pub(crate) fn fx_neg_bits(a: i64) -> (r: i64)
    requires
        a != i64::MIN,
    ensures
        r == -a,
{
    (-fixed::FixedI64::<fixed::types::extra::U16>::from_bits(a)).to_bits()
}

/// Relies on `fixed::FixedI64::<U16>` multiplication: the wide product of
/// the bit representations is arithmetically shifted right by 16, which
/// floors; a result outside the 64-bit range would panic in debug builds.
#[verifier::external_body]
pub(crate) fn fx_mul_bits(a: i64, b: i64) -> (r: i64)
    requires
        i64::MIN <= fx_mul_m(a as int, b as int) <= i64::MAX,
    ensures
        r == fx_mul_m(a as int, b as int),
{
    (fixed::FixedI64::<fixed::types::extra::U16>::from_bits(a)
        * fixed::FixedI64::<fixed::types::extra::U16>::from_bits(b)).to_bits()
}

/// Relies on `fixed::FixedI64::<U16>` division: the widened and shifted
/// dividend is divided with truncation toward zero; a zero divisor panics
/// and an unrepresentable quotient would panic in debug builds.
#[verifier::external_body]
pub(crate) fn fx_div_bits(a: i64, b: i64) -> (r: i64)
    requires
        b != 0,
        i64::MIN <= fx_div_m(a as int, b as int) <= i64::MAX,
    ensures
        r == fx_div_m(a as int, b as int),
{
    (fixed::FixedI64::<fixed::types::extra::U16>::from_bits(a)
        / fixed::FixedI64::<fixed::types::extra::U16>::from_bits(b)).to_bits()
}

/// Relies on `fixed::FixedI64::<U16>::checked_add`: `None` exactly on
/// overflow of the bit representations, otherwise the exact sum.
#[verifier::external_body]
pub(crate) fn fx_checked_add_bits(a: i64, b: i64) -> (r: Option<i64>)
    ensures
        r == (if i64::MIN <= a + b <= i64::MAX {
            Some((a + b) as i64)
        } else {
            None::<i64>
        }),
{
    fixed::FixedI64::<fixed::types::extra::U16>::from_bits(a)
        .checked_add(fixed::FixedI64::<fixed::types::extra::U16>::from_bits(b))
        .map(|f| f.to_bits())
}

/// Relies on `fixed::FixedI64::<U16>::checked_sub`: `None` exactly on
/// overflow of the bit representations, otherwise the exact difference.
#[verifier::external_body]
pub(crate) fn fx_checked_sub_bits(a: i64, b: i64) -> (r: Option<i64>)
    ensures
        r == (if i64::MIN <= a - b <= i64::MAX {
            Some((a - b) as i64)
        } else {
            None::<i64>
        }),
{
    fixed::FixedI64::<fixed::types::extra::U16>::from_bits(a)
        .checked_sub(fixed::FixedI64::<fixed::types::extra::U16>::from_bits(b))
        .map(|f| f.to_bits())
}

/// Relies on `fixed::FixedI64::<U16>::checked_mul`: `None` exactly when
/// the floored wide product does not fit in 64 bits, otherwise that
/// product.
#[verifier::external_body]
pub(crate) fn fx_checked_mul_bits(a: i64, b: i64) -> (r: Option<i64>)
    ensures
        r == (if i64::MIN <= fx_mul_m(a as int, b as int) <= i64::MAX {
            Some(fx_mul_m(a as int, b as int) as i64)
        } else {
            None::<i64>
        }),
{
    fixed::FixedI64::<fixed::types::extra::U16>::from_bits(a)
        .checked_mul(fixed::FixedI64::<fixed::types::extra::U16>::from_bits(b))
        .map(|f| f.to_bits())
}

/// What `cordic::sin` returns on a `FixedI64<U16>` with the given bit
/// representation: a function of the angle bits alone.
pub uninterp spec fn cordic_sin(theta: int) -> int;

/// What `cordic::cos` returns on a `FixedI64<U16>` with the given bit
/// representation: a function of the angle bits alone.
pub uninterp spec fn cordic_cos(theta: int) -> int;

/// What `cordic::sqrt` returns on a `FixedI64<U16>` with the given bit
/// representation: a function of the operand bits alone.
pub uninterp spec fn cordic_sqrt(x: int) -> int;

/// Relies on `cordic::sin`: deterministic in the angle bits.  The angle is
/// bounded so that the crate's step-by-step reduction of the angle modulo
/// pi stays short; huge angles would make it loop near-forever.
#[verifier::external_body]
pub(crate) fn fx_sin_bits(theta: i64) -> (r: i64)
    requires
        -0x8000_0000 <= theta <= 0x8000_0000,
    ensures
        r == cordic_sin(theta as int),
{
    cordic::sin(fixed::FixedI64::<fixed::types::extra::U16>::from_bits(theta)).to_bits()
}

/// Relies on `cordic::cos`: deterministic in the angle bits, with the same
/// angle bound as the sine wrapper.
#[verifier::external_body]
pub(crate) fn fx_cos_bits(theta: i64) -> (r: i64)
    requires
        -0x8000_0000 <= theta <= 0x8000_0000,
    ensures
        r == cordic_cos(theta as int),
{
    cordic::cos(fixed::FixedI64::<fixed::types::extra::U16>::from_bits(theta)).to_bits()
}

/// Relies on `cordic::sqrt`: deterministic in the operand bits.  A negative
/// operand would make the crate's bracketing loop run forever, and an
/// operand at or above `2^62` would overflow its squaring, so both are
/// excluded.
#[verifier::external_body]
pub(crate) fn fx_sqrt_bits(x: i64) -> (r: i64)
    requires
        0 <= x < 0x4000_0000_0000_0000,
    ensures
        r == cordic_sqrt(x as int),
{
    cordic::sqrt(fixed::FixedI64::<fixed::types::extra::U16>::from_bits(x)).to_bits()
}

impl Fixed64 {
    /// The value whose bit representation (and model) is `bits`; it stands
    /// for the real number `bits / 65536`.
    pub fn from_bits(bits: i64) -> (r: Self)
        ensures
            r.model() == bits,
    {
        Fixed64 { bits }
    }

    /// The bit representation, which is also the model.
    pub fn to_bits(self) -> (r: i64)
        ensures
            r == self.model(),
    {
        self.bits
    }
}

impl VecInner for Fixed64 {
    closed spec fn model(self) -> int {
        self.bits as int
    }

    open spec fn mul_model(x: int, y: int) -> int {
        fx_mul_m(x, y)
    }

    open spec fn div_model(x: int, y: int) -> int {
        fx_div_m(x, y)
    }

    open spec fn one_v() -> int {
        65536
    }

    open spec fn add_ok(x: int, y: int) -> bool {
        i64::MIN <= x + y <= i64::MAX
    }

    open spec fn sub_ok(x: int, y: int) -> bool {
        i64::MIN <= x - y <= i64::MAX
    }

    open spec fn neg_ok(x: int) -> bool {
        x != i64::MIN
    }

    open spec fn mul_ok(x: int, y: int) -> bool {
        i64::MIN <= fx_mul_m(x, y) <= i64::MAX
    }

    open spec fn div_ok(x: int, y: int) -> bool {
        y != 0 && i64::MIN <= fx_div_m(x, y) <= i64::MAX
    }

    fn add(self, other: Self) -> (r: Self) {
        Fixed64 { bits: fx_add_bits(self.bits, other.bits) }
    }

    fn sub(self, other: Self) -> (r: Self) {
        Fixed64 { bits: fx_sub_bits(self.bits, other.bits) }
    }

    fn neg(self) -> (r: Self) {
        Fixed64 { bits: fx_neg_bits(self.bits) }
    }

    fn mul(self, other: Self) -> (r: Self) {
        Fixed64 { bits: fx_mul_bits(self.bits, other.bits) }
    }

    fn div(self, other: Self) -> (r: Self) {
        Fixed64 { bits: fx_div_bits(self.bits, other.bits) }
    }

    fn zero() -> (r: Self) {
        Fixed64 { bits: 0 }
    }

    fn one() -> (r: Self) {
        Fixed64 { bits: 65536 }
    }

    proof fn lemma_model_injective(a: Self, b: Self) {
    }

    proof fn lemma_mul_comm(x: int, y: int) {
        assert(x * y == y * x) by (nonlinear_arith);
    }

    proof fn lemma_mul_one(x: int) {
        lemma_div_multiples_vanish(x, 65536);
        assert(x * 65536 == 65536 * x) by (nonlinear_arith);
    }

    proof fn lemma_mul_zero(x: int) {
        assert(x * 0 == 0) by (nonlinear_arith);
        assert(0 * x == 0) by (nonlinear_arith);
    }
}

impl CordicPhantomTrait for Fixed64 {
}

/// When the left operand is a whole multiple of the fractional unit, the
/// fixed-point product is exact: it equals the integer part of the left
/// operand times the right operand, with no rounding.
pub proof fn lemma_fx_mul_exact(a: int, b: int)
    requires
        a % 65536 == 0,
    ensures
        fx_mul_m(a, b) == (a / 65536) * b,
{
    let k = a / 65536;
    lemma_fundamental_div_mod(a, 65536);
    assert(a * b == 65536 * (k * b)) by (nonlinear_arith)
        requires
            a == 65536 * k,
    ;
    lemma_div_multiples_vanish(k * b, 65536);
}

/// Dividing by a nonzero scalar and then scaling back by it approximates
/// the original value: the result never moves away from zero past the
/// original, and the error is below the divisor's magnitude plus one
/// fractional unit.
pub proof fn lemma_div_then_mul_close(x: int, d: int)
    requires
        d != 0,
    ensures
        (abs(x - fx_mul_m(fx_div_m(x, d), d)) as int) * 65536 < abs(d) + 65536,
        x >= 0 ==> fx_mul_m(fx_div_m(x, d), d) <= x,
        x < 0 ==> fx_mul_m(fx_div_m(x, d), d) >= x,
{
    if d > 0 {
        lemma_div_then_mul_close_pos(x, d);
    } else {
        let e = -d;
        lemma_div_then_mul_close_pos(x, e);
        let q = fx_div_m(x, e);
        assert(fx_div_m(x, d) == -q);
        assert((-q) * d == q * e) by (nonlinear_arith)
            requires
                d == -e,
        ;
    }
}

/// The positive-divisor case of [`lemma_div_then_mul_close`].
proof fn lemma_div_then_mul_close_pos(x: int, d: int)
    requires
        d > 0,
    ensures
        (abs(x - fx_mul_m(fx_div_m(x, d), d)) as int) * 65536 < d + 65536,
        x >= 0 ==> fx_mul_m(fx_div_m(x, d), d) <= x,
        x < 0 ==> fx_mul_m(fx_div_m(x, d), d) >= x,
{
    let a = x * 65536;
    let q = fx_div_m(x, d);
    let r = fx_mul_m(q, d);
    lemma_fundamental_div_mod(q * d, 65536);
    lemma_mod_bound(q * d, 65536);
    let m2 = (q * d) % 65536;
    assert(q * d == 65536 * r + m2);
    if x >= 0 {
        assert(q == a / d);
        lemma_fundamental_div_mod(a, d);
        lemma_mod_bound(a, d);
        let m1 = a % d;
        assert(d * (a / d) == (a / d) * d) by (nonlinear_arith);
        assert(q * d == 65536 * x - m1);
        assert(65536 * (x - r) == m1 + m2);
    } else {
        let n = -a;
        assert(q == -(n / d));
        lemma_fundamental_div_mod(n, d);
        lemma_mod_bound(n, d);
        let m1 = n % d;
        assert(d * (n / d) == (n / d) * d) by (nonlinear_arith);
        assert((-(n / d)) * d == -((n / d) * d)) by (nonlinear_arith);
        assert(q * d == 65536 * x + m1);
        assert(65536 * (r - x) == m1 - m2);
    }
}

} // verus!
