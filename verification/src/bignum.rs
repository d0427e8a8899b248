//! Arbitrary-precision integers: the GMP integer type and the contracts under
//! which the rest of the library calls it.
//!
//! Verus sees nothing inside an `Mpz`. The integer that one holds is named by
//! [`mpz_value`]; every function in this file that touches an `Mpz` is
//! believed, not proved, and says over that name what GMP documents of the
//! call.

use gmp::mpz::Mpz;
use gmp::mpz::ParseMpzError;
use vstd::arithmetic::div_mod::{
    lemma_fundamental_div_mod, lemma_fundamental_div_mod_converse, lemma_mod_bound,
};
use vstd::arithmetic::power2::{lemma2_to64, lemma_pow2_pos, lemma_pow2_unfold, pow2};
use vstd::prelude::*;

verus! {

/// GMP's integer, `gmp::mpz::Mpz`, taken as it is: nothing inside it is seen.
#[verifier::external_type_specification]
#[verifier::external_body]
pub struct ExMpz(gmp::mpz::Mpz);

/// The error of GMP's reader, `gmp::mpz::ParseMpzError`, which holds nothing.
#[verifier::external_type_specification]
#[verifier::external_body]
pub struct ExParseMpzError(gmp::mpz::ParseMpzError);

/// The mathematical integer that an `Mpz` holds.
pub uninterp spec fn mpz_value(m: Mpz) -> int;

/// What GMP's base-10 reader makes of a text: the integer, or `None` where it
/// rejects the text.
pub uninterp spec fn parsed_integer(text: Seq<char>) -> Option<int>;

/// The base-10 rendering that GMP gives of an integer.
pub uninterp spec fn decimal_text(v: int) -> Seq<char>;

/// The absolute value of `v`.
pub open spec fn magnitude(v: int) -> nat {
    if v < 0 {
        (-v) as nat
    } else {
        v as nat
    }
}

/// Number of binary digits of `n`; 0 has none.
pub open spec fn binary_digits(n: nat) -> nat
    decreases n,
{
    if n == 0 {
        0
    } else {
        1 + binary_digits(n / 2)
    }
}

/// The width GMP reports for `v`: the binary digits of its magnitude, and 1 for zero.
pub open spec fn bit_length(v: int) -> nat {
    if v == 0 {
        1
    } else {
        binary_digits(magnitude(v))
    }
}

/// Bit `i` of `v` in two's complement: the parity of `v` divided by `2^i`, rounding down.
pub open spec fn bit_at(v: int, i: nat) -> bool {
    (v / (pow2(i) as int)) % 2 == 1
}

/// `v` with bit `i` set.
pub open spec fn with_bit_set(v: int, i: nat) -> int {
    if bit_at(v, i) {
        v
    } else {
        v + pow2(i)
    }
}

/// `v` with bit `i` cleared.
pub open spec fn with_bit_cleared(v: int, i: nat) -> int {
    if bit_at(v, i) {
        v - pow2(i)
    } else {
        v
    }
}

/// Quotient of `a` by `b`, rounded toward zero.
pub open spec fn truncated_quotient(a: int, b: int) -> int
    recommends
        b != 0,
{
    let q = (magnitude(a) / magnitude(b)) as int;
    if (a < 0) == (b < 0) {
        q
    } else {
        -q
    }
}

/// Remainder that goes with [`truncated_quotient`]; it has the sign of `a`.
pub open spec fn truncated_remainder(a: int, b: int) -> int
    recommends
        b != 0,
{
    a - b * truncated_quotient(a, b)
}

/// Whether `r` is `a` and `b` combined bit by bit with `op`, over the endless
/// two's complement digits of each.
pub open spec fn is_bitwise(r: int, a: int, b: int, op: spec_fn(bool, bool) -> bool) -> bool {
    forall|i: nat| #[trigger] bit_at(r, i) == op(bit_at(a, i), bit_at(b, i))
}

/// The one integer that is `a` and `b` combined bit by bit with `op`.
pub open spec fn bitwise(a: int, b: int, op: spec_fn(bool, bool) -> bool) -> int {
    choose|r: int| is_bitwise(r, a, b, op)
}

/// Bit `i + 1` of an integer is bit `i` of its half, rounded down.
pub proof fn lemma_bit_at_shift(x: int, i: nat)
    ensures
        bit_at(x, i + 1) == bit_at(x / 2, i),
{
    let p = pow2(i) as int;
    let d = pow2(i + 1) as int;
    lemma_pow2_pos(i);
    lemma_pow2_unfold(i + 1);
    let q = x / d;
    let r = x % d;
    lemma_fundamental_div_mod(x, d);
    lemma_mod_bound(x, d);
    let h = q * p + r / 2;
    assert(x == h * 2 + r % 2) by (nonlinear_arith)
        requires
            x == d * q + r,
            d == 2 * p,
            h == q * p + r / 2,
            r == 2 * (r / 2) + r % 2,
    ;
    lemma_fundamental_div_mod_converse(x, 2, h, r % 2);
    lemma_fundamental_div_mod_converse(h, p, q, r / 2);
}

/// Two integers with the same two's complement digits are the same integer.
pub proof fn lemma_bits_determine(x: int, y: int)
    requires
        forall|i: nat| bit_at(x, i) == bit_at(y, i),
    ensures
        x == y,
    decreases magnitude(x) + magnitude(y),
{
    lemma2_to64();
    assert(bit_at(x, 0) == bit_at(y, 0));
    assert(x / 1 == x && y / 1 == y);
    if (x == 0 || x == -1) && (y == 0 || y == -1) {
    } else {
        let hx = x / 2;
        let hy = y / 2;
        assert forall|i: nat| bit_at(hx, i) == bit_at(hy, i) by {
            lemma_bit_at_shift(x, i);
            lemma_bit_at_shift(y, i);
            assert(bit_at(x, i + 1) == bit_at(y, i + 1));
        }
        lemma_bits_determine(hx, hy);
    }
}

/// What is `a` and `b` combined bit by bit is [`bitwise`] of them.
pub proof fn lemma_bitwise_unique(r: int, a: int, b: int, op: spec_fn(bool, bool) -> bool)
    requires
        is_bitwise(r, a, b, op),
    ensures
        r == bitwise(a, b, op),
{
    let c = bitwise(a, b, op);
    assert(is_bitwise(c, a, b, op));
    assert forall|i: nat| bit_at(r, i) == bit_at(c, i) by {
        assert(bit_at(r, i) == op(bit_at(a, i), bit_at(b, i)));
        assert(bit_at(c, i) == op(bit_at(a, i), bit_at(b, i)));
    }
    lemma_bits_determine(r, c);
}

/// `Mpz::zero`: a fresh integer holding 0.
#[verifier::external_body]
pub(crate) fn mpz_zero() -> (r: Mpz)
    ensures
        mpz_value(r) == 0,
{
    Mpz::zero()
}

/// `Mpz::one`: a fresh integer holding 1.
#[verifier::external_body]
pub(crate) fn mpz_one() -> (r: Mpz)
    ensures
        mpz_value(r) == 1,
{
    Mpz::one()
}

/// `Mpz::clone`: a copy holding the same integer.
#[verifier::external_body]
pub(crate) fn mpz_clone(m: &Mpz) -> (r: Mpz)
    ensures
        mpz_value(r) == mpz_value(*m),
{
    m.clone()
}

/// `Mpz::setbit`: sets bit `i` and leaves every other bit as it was.
#[verifier::external_body]
pub(crate) fn mpz_setbit(m: &mut Mpz, i: usize)
    ensures
        mpz_value(*final(m)) == with_bit_set(mpz_value(*old(m)), i as nat),
{
    m.setbit(i)
}

/// `Mpz::clrbit`: clears bit `i` and leaves every other bit as it was.
#[verifier::external_body]
pub(crate) fn mpz_clrbit(m: &mut Mpz, i: usize)
    ensures
        mpz_value(*final(m)) == with_bit_cleared(mpz_value(*old(m)), i as nat),
{
    m.clrbit(i)
}

/// `Mpz::tstbit`: whether bit `i` is set, a negative number read in two's complement.
#[verifier::external_body]
pub(crate) fn mpz_tstbit(m: &Mpz, i: usize) -> (b: bool)
    ensures
        b == bit_at(mpz_value(*m), i as nat),
{
    m.tstbit(i)
}

/// `Mpz::bit_length`: GMP's size in base 2, which ignores the sign and is 1 for zero.
#[verifier::external_body]
pub(crate) fn mpz_bit_length(m: &Mpz) -> (n: usize)
    ensures
        n == bit_length(mpz_value(*m)),
{
    m.bit_length()
}

/// `Mpz as FromStr`: GMP's base-10 reader. Which texts it takes is left to
/// [`parsed_integer`]; the contract only ties the outcome to that name.
#[verifier::external_body]
pub(crate) fn mpz_from_str(text: &str) -> (r: Result<Mpz, ParseMpzError>)
    ensures
        match r {
            Ok(m) => parsed_integer(text@) == Some(mpz_value(m)),
            Err(_) => parsed_integer(text@) is None,
        },
{
    text.parse::<Mpz>()
}

/// `Mpz::to_str_radix` in base 10: the rendering named by [`decimal_text`].
#[verifier::external_body]
pub(crate) fn mpz_to_decimal(m: &Mpz) -> (s: String)
    ensures
        s@ == decimal_text(mpz_value(*m)),
{
    m.to_str_radix(10)
}

/// `&Mpz + &Mpz`: the sum.
#[verifier::external_body]
pub(crate) fn mpz_add(a: &Mpz, b: &Mpz) -> (r: Mpz)
    ensures
        mpz_value(r) == mpz_value(*a) + mpz_value(*b),
{
    a + b
}

/// `&Mpz - &Mpz`: the difference.
#[verifier::external_body]
pub(crate) fn mpz_sub(a: &Mpz, b: &Mpz) -> (r: Mpz)
    ensures
        mpz_value(r) == mpz_value(*a) - mpz_value(*b),
{
    a - b
}

/// `&Mpz * &Mpz`: the product.
#[verifier::external_body]
pub(crate) fn mpz_mul(a: &Mpz, b: &Mpz) -> (r: Mpz)
    ensures
        mpz_value(r) == mpz_value(*a) * mpz_value(*b),
{
    a * b
}

/// `&Mpz / &Mpz`: GMP's truncating quotient. The operator panics on a zero
/// divisor, which `requires` leaves out.
#[verifier::external_body]
pub(crate) fn mpz_div(a: &Mpz, b: &Mpz) -> (r: Mpz)
    requires
        mpz_value(*b) != 0,
    ensures
        mpz_value(r) == truncated_quotient(mpz_value(*a), mpz_value(*b)),
{
    a / b
}

/// `&Mpz % &Mpz`: GMP's truncating remainder. The operator panics on a zero
/// divisor, which `requires` leaves out.
#[verifier::external_body]
pub(crate) fn mpz_rem(a: &Mpz, b: &Mpz) -> (r: Mpz)
    requires
        mpz_value(*b) != 0,
    ensures
        mpz_value(r) == truncated_remainder(mpz_value(*a), mpz_value(*b)),
{
    a % b
}

/// `&Mpz & &Mpz`: bitwise and over two's complement digits.
#[verifier::external_body]
pub(crate) fn mpz_and(a: &Mpz, b: &Mpz) -> (r: Mpz)
    ensures
        is_bitwise(mpz_value(r), mpz_value(*a), mpz_value(*b), |x: bool, y: bool| x && y),
{
    a & b
}

/// `&Mpz | &Mpz`: bitwise inclusive or over two's complement digits.
#[verifier::external_body]
pub(crate) fn mpz_or(a: &Mpz, b: &Mpz) -> (r: Mpz)
    ensures
        is_bitwise(mpz_value(r), mpz_value(*a), mpz_value(*b), |x: bool, y: bool| x || y),
{
    a | b
}

/// `&Mpz ^ &Mpz`: bitwise exclusive or over two's complement digits.
#[verifier::external_body]
pub(crate) fn mpz_xor(a: &Mpz, b: &Mpz) -> (r: Mpz)
    ensures
        is_bitwise(mpz_value(r), mpz_value(*a), mpz_value(*b), |x: bool, y: bool| x != y),
{
    a ^ b
}

/// `&Mpz << usize`: multiplication by a power of two.
#[verifier::external_body]
pub(crate) fn mpz_shl(a: &Mpz, n: usize) -> (r: Mpz)
    ensures
        mpz_value(r) == mpz_value(*a) * pow2(n as nat),
{
    a << n
}

/// `&Mpz >> usize`: division by a power of two, rounding down.
#[verifier::external_body]
pub(crate) fn mpz_shr(a: &Mpz, n: usize) -> (r: Mpz)
    ensures
        mpz_value(r) == mpz_value(*a) / (pow2(n as nat) as int),
{
    a >> n
}

/// `Mpz == Mpz`: whether the two hold the same integer.
#[verifier::external_body]
pub(crate) fn mpz_eq(a: &Mpz, b: &Mpz) -> (r: bool)
    ensures
        r == (mpz_value(*a) == mpz_value(*b)),
{
    a == b
}

/// `Mpz < Mpz`: whether the first integer is the smaller.
#[verifier::external_body]
pub(crate) fn mpz_lt(a: &Mpz, b: &Mpz) -> (r: bool)
    ensures
        r == (mpz_value(*a) < mpz_value(*b)),
{
    a < b
}

} // verus!
