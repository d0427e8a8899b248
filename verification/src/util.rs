//! Conversions between bit sequences, machine words, text and big integers.
//!
//! Numbers are little-endian in memory: the bit at index `i` weighs `2^i`.
//! Text is the exception: each byte of its UTF-8 encoding is laid out with its
//! most significant bit first.

use crate::bignum::{
    binary_digits, bit_at, bit_length, decimal_text, mpz_bit_length, mpz_clrbit, mpz_setbit,
    mpz_to_decimal, mpz_tstbit, mpz_value, mpz_zero,
};
use crate::text::{chars_to_string, str_to_chars, string_push};
use gmp::mpz::Mpz;
use vstd::arithmetic::div_mod::*;
use vstd::arithmetic::power2::*;
use vstd::prelude::*;
use vstd::string::*;
use vstd::utf8::encode_utf8;

verus! {

/// The number that a little-endian bit sequence spells.
pub open spec fn bits_value(bits: Seq<bool>) -> nat
    decreases bits.len(),
{
    if bits.len() == 0 {
        0
    } else {
        bits_value(bits.drop_last()) + if bits.last() {
            pow2((bits.len() - 1) as nat)
        } else {
            0
        }
    }
}

/// The lowest `width` two's complement digits of `v`, least significant first.
pub open spec fn int_bits(v: int, width: nat) -> Seq<bool> {
    Seq::new(width, |i: int| bit_at(v, i as nat))
}

/// The value of the first eight bits read as one byte, most significant bit first.
pub open spec fn byte_value(bits: Seq<bool>) -> nat
    decreases bits.len(),
{
    if bits.len() == 0 {
        0
    } else {
        byte_value(bits.drop_last()) + if bits.last() && bits.len() <= 8 {
            pow2((8 - bits.len()) as nat)
        } else {
            0
        }
    }
}

/// Bit `k` of a byte sequence laid out byte after byte, each most significant bit first.
pub open spec fn text_bit(bytes: Seq<u8>, k: int) -> bool {
    (bytes[k / 8] as int / (pow2((7 - k % 8) as nat) as int)) % 2 == 1
}

/// The bits of a byte sequence, each byte most significant bit first.
pub open spec fn bytes_bits(bytes: Seq<u8>) -> Seq<bool> {
    Seq::new(8 * bytes.len(), |k: int| text_bit(bytes, k))
}

/// A number has no more binary digits than it counts.
pub proof fn lemma_binary_digits_bound(n: nat)
    ensures
        binary_digits(n) <= n,
    decreases n,
{
    if n != 0 {
        lemma_binary_digits_bound(n / 2);
    }
}

/// A number with `binary_digits(n)` digits lies below that power of two.
pub proof fn lemma_binary_digits_pow2(n: nat)
    ensures
        n < pow2(binary_digits(n)),
        n > 0 ==> pow2((binary_digits(n) - 1) as nat) <= n,
    decreases n,
{
    lemma2_to64();
    if n != 0 {
        lemma_binary_digits_pow2(n / 2);
        lemma_pow2_unfold(binary_digits(n));
        if n / 2 > 0 {
            lemma_pow2_unfold((binary_digits(n) - 1) as nat);
        }
    }
}

/// Bits spell a number below the power of two of their count.
pub proof fn lemma_bits_value_bound(bits: Seq<bool>)
    ensures
        bits_value(bits) < pow2(bits.len()),
    decreases bits.len(),
{
    lemma2_to64();
    if bits.len() != 0 {
        lemma_bits_value_bound(bits.drop_last());
        lemma_pow2_unfold(bits.len());
    }
}

/// Horner's form of [`bits_value`]: the first bit plus twice the value of the rest.
pub proof fn lemma_bits_value_first(bits: Seq<bool>)
    requires
        bits.len() > 0,
    ensures
        bits_value(bits) == (if bits[0] { 1nat } else { 0nat }) + 2 * bits_value(bits.drop_first()),
    decreases bits.len(),
{
    lemma2_to64();
    if bits.len() == 1 {
        assert(bits.drop_last() =~= Seq::<bool>::empty());
        assert(bits.drop_first() =~= Seq::<bool>::empty());
    } else {
        let front = bits.drop_last();
        lemma_bits_value_first(front);
        assert(front.drop_first() =~= bits.drop_first().drop_last());
        assert(front[0] == bits[0]);
        assert(bits.drop_first().last() == bits.last());
        lemma_pow2_unfold((bits.len() - 1) as nat);
    }
}

/// Bit `i + 1` of a natural number is bit `i` of its half.
pub proof fn lemma_bit_at_half(n: nat, i: nat)
    ensures
        bit_at(n as int, i + 1) == bit_at((n / 2) as int, i),
{
    lemma_pow2_pos(i);
    lemma_pow2_unfold(i + 1);
    lemma_div_denominator(n as int, 2, pow2(i) as int);
}

/// The binary digits of a natural number spell that number.
pub proof fn lemma_int_bits_value(n: nat, width: nat)
    requires
        n < pow2(width),
    ensures
        bits_value(int_bits(n as int, width)) == n,
    decreases width,
{
    lemma2_to64();
    let bits = int_bits(n as int, width);
    if width == 0 {
    } else {
        lemma_bits_value_first(bits);
        lemma_pow2_unfold(width);
        let rest = int_bits((n / 2) as int, (width - 1) as nat);
        assert(bits.drop_first() =~= rest) by {
            assert forall|j: int| 0 <= j < width - 1 implies bits.drop_first()[j] == rest[j] by {
                lemma_bit_at_half(n, j as nat);
            }
        }
        lemma_int_bits_value(n / 2, (width - 1) as nat);
        assert(bits[0] == (n % 2 == 1));
    }
}

/// Number of binary digits of `num`; 0 has none.
pub fn usize_len(num: usize) -> (len: usize)
    ensures
        len == binary_digits(num as nat),
{
    let mut ret: usize = 0;
    let mut rest: usize = num;
    proof {
        lemma_binary_digits_bound(num as nat);
    }
    while rest != 0
        invariant
            ret + binary_digits(rest as nat) == binary_digits(num as nat),
            binary_digits(num as nat) <= usize::MAX,
        decreases rest,
    {
        ret += 1;
        rest /= 2;
    }
    ret
}

/// The binary digits of `num`, least significant first; 0 gives the empty sequence.
pub fn usize_to_boolvec(num: usize) -> (bits: Vec<bool>)
    ensures
        bits@ == int_bits(num as int, binary_digits(num as nat)),
        bits_value(bits@) == num,
{
    let mut ret: Vec<bool> = Vec::new();
    let mut rest: usize = num;
    proof {
        lemma2_to64();
        assert(ret@.len() == 0);
        assert(pow2(0) == 1);
        assert(num as int / 1 == num as int);
    }
    while rest != 0
        invariant
            rest == num as int / (pow2(ret@.len()) as int),
            ret@.len() + binary_digits(rest as nat) == binary_digits(num as nat),
            forall|j: int| 0 <= j < ret@.len() ==> ret@[j] == bit_at(num as int, j as nat),
        decreases rest,
    {
        proof {
            let i = ret@.len();
            lemma_pow2_pos(i);
            lemma_pow2_unfold(i + 1);
            lemma_div_denominator(num as int, pow2(i) as int, 2);
        }
        ret.push(rest % 2 == 1);
        rest /= 2;
    }
    proof {
        assert(ret@ =~= int_bits(num as int, binary_digits(num as nat)));
        lemma_binary_digits_pow2(num as nat);
        lemma_int_bits_value(num as nat, binary_digits(num as nat));
    }
    ret
}

/// The number that `vec` spells, least significant bit first.
pub fn boolvec_to_usize(vec: &[bool]) -> (num: usize)
    requires
        bits_value(vec@) <= usize::MAX,
    ensures
        num == bits_value(vec@),
{
    let mut ret: usize = 0;
    let mut i: usize = vec.len();
    proof {
        assert(vec@.skip(i as int) =~= Seq::<bool>::empty());
        assert(vec@.skip(0) =~= vec@);
    }
    while i > 0
        invariant
            i <= vec.len(),
            ret == bits_value(vec@.skip(i as int)),
            bits_value(vec@.skip(0)) <= usize::MAX,
        decreases i,
    {
        proof {
            lemma_suffix_value_le(vec@, (i - 1) as int);
            let tail = vec@.skip(i - 1);
            lemma_bits_value_first(tail);
            assert(tail.drop_first() =~= vec@.skip(i as int));
        }
        i -= 1;
        ret = 2 * ret + if vec[i] { 1 } else { 0 };
    }
    ret
}

/// A suffix of a bit sequence spells no more than the whole.
pub proof fn lemma_suffix_value_le(bits: Seq<bool>, k: int)
    requires
        0 <= k <= bits.len(),
    ensures
        bits_value(bits.skip(k)) <= bits_value(bits.skip(0)),
    decreases k,
{
    if k > 0 {
        lemma_suffix_value_le(bits, k - 1);
        let tail = bits.skip(k - 1);
        lemma_bits_value_first(tail);
        assert(tail.drop_first() =~= bits.skip(k));
    }
}

/// The byte that the first eight bits spell, most significant bit first.
/// No bit after the eighth may be set.
pub fn boolvec_to_u8(vec: &[bool]) -> (byte: u8)
    requires
        forall|i: int| 8 <= i < vec@.len() ==> !vec@[i],
    ensures
        byte == byte_value(vec@),
{
    let mut ret: u8 = 0;
    let mut weight: u8 = 128;
    let mut i: usize = 0;
    proof {
        lemma2_to64();
        assert(vec@.take(0) =~= Seq::<bool>::empty());
    }
    while i < vec.len()
        invariant
            i <= vec.len(),
            forall|i: int| 8 <= i < vec@.len() ==> !vec@[i],
            ret == byte_value(vec@.take(i as int)),
            i < 8 ==> weight == pow2((7 - i) as nat),
            i < 8 ==> ret + 2 * weight <= 256,
        decreases vec.len() - i,
    {
        proof {
            lemma2_to64();
            let next = vec@.take(i + 1);
            assert(next.drop_last() =~= vec@.take(i as int));
            assert(next.last() == vec@[i as int]);
        }
        if vec[i] {
            ret += weight;
        }
        weight /= 2;
        i += 1;
    }
    proof {
        assert(vec@.take(i as int) =~= vec@);
    }
    ret
}

/// The bits of the UTF-8 encoding of `s`, each byte most significant bit first.
pub fn str_to_boolvec(s: &str) -> (bits: Vec<bool>)
    ensures
        bits@ == bytes_bits(encode_utf8(s@)),
{
    let bytes = s.as_bytes();
    let mut ret: Vec<bool> = Vec::new();
    let mut k: usize = 0;
    while k < bytes.len()
        invariant
            k <= bytes.len(),
            ret@.len() == 8 * k,
            forall|j: int| 0 <= j < ret@.len() ==> ret@[j] == text_bit(bytes@, j),
        decreases bytes.len() - k,
    {
        let b: u8 = bytes[k];
        let mut weight: u8 = 128;
        let mut i: usize = 0;
        proof {
            lemma2_to64();
        }
        while i < 8
            invariant
                i <= 8,
                k < bytes.len(),
                b == bytes@[k as int],
                ret@.len() == 8 * k + i,
                i < 8 ==> weight == pow2((7 - i) as nat),
                forall|j: int| 0 <= j < ret@.len() ==> ret@[j] == text_bit(bytes@, j),
            decreases 8 - i,
        {
            proof {
                lemma2_to64();
            }
            ret.push((b / weight) % 2 == 1);
            if i < 7 {
                weight /= 2;
            }
            i += 1;
        }
        k += 1;
    }
    proof {
        assert(ret@ =~= bytes_bits(bytes@));
    }
    ret
}

/// The bits of the UTF-8 encoding of one character.
pub fn char_to_boolvec(c: char) -> (bits: Vec<bool>)
    ensures
        bits@ == bytes_bits(encode_utf8(seq![c])),
{
    let mut temp_string = String::new();
    string_push(&mut temp_string, c);
    proof {
        assert(temp_string@ =~= seq![c]);
    }
    str_to_boolvec(temp_string.as_str())
}

/// The index of the first `c` in `s`, or the length of `s` where it holds none.
pub open spec fn index_of_char(s: Seq<char>, c: char) -> nat
    decreases s.len(),
{
    if s.len() == 0 || s[0] == c {
        0
    } else {
        1 + index_of_char(s.drop_first(), c)
    }
}

/// `s` up to its first `c`: all of `s` where it holds none.
pub open spec fn before_char(s: Seq<char>, c: char) -> Seq<char> {
    s.take(index_of_char(s, c) as int)
}

/// Where `c` stands at `n` and nowhere before, `n` is its first index.
pub proof fn lemma_index_of_char(s: Seq<char>, c: char, n: int)
    requires
        0 <= n <= s.len(),
        forall|j: int| 0 <= j < n ==> s[j] != c,
        n == s.len() || s[n] == c,
    ensures
        index_of_char(s, c) == n,
    decreases n,
{
    if n > 0 {
        lemma_index_of_char(s.drop_first(), c, n - 1);
    }
}

/// Cuts `value` off at the first occurrence of `comment`, if there is one.
pub fn remove_comments(value: &mut String, comment: char)
    ensures
        final(value)@ == before_char(old(value)@, comment),
{
    let chars = str_to_chars(value.as_str());
    let mut pos: usize = 0;
    while pos < chars.len() && chars[pos] != comment
        invariant
            pos <= chars@.len(),
            forall|j: int| 0 <= j < pos ==> chars@[j] != comment,
        decreases chars@.len() - pos,
    {
        pos += 1;
    }
    proof {
        lemma_index_of_char(chars@, comment, pos as int);
        assert(chars@.take(chars@.len() as int) =~= chars@);
    }
    if pos < chars.len() {
        *value = chars_to_string(&chars, 0, pos);
    }
}

/// What [`bignum_to_usize`] makes of `v`: the number spelled by the digits
/// that GMP counts for it. For `v >= 0` that is `v` itself.
pub open spec fn word_value(v: int) -> nat {
    bits_value(int_bits(v, bit_length(v)))
}

/// A natural number is the value of its own digits.
pub proof fn lemma_word_value_of_nat(v: int)
    requires
        v >= 0,
    ensures
        word_value(v) == v,
{
    lemma2_to64();
    if v > 0 {
        lemma_binary_digits_pow2(v as nat);
    }
    lemma_int_bits_value(v as nat, bit_length(v));
}

/// The big integer that `vec` spells, least significant bit first.
pub fn boolvec_to_bignum(vec: &[bool]) -> (num: Mpz)
    ensures
        mpz_value(num) == bits_value(vec@),
{
    let mut ret = mpz_zero();
    let mut i: usize = 0;
    proof {
        assert(vec@.take(0) =~= Seq::<bool>::empty());
    }
    while i < vec.len()
        invariant
            i <= vec.len(),
            mpz_value(ret) == bits_value(vec@.take(i as int)),
        decreases vec.len() - i,
    {
        proof {
            let seen = vec@.take(i as int);
            let next = vec@.take(i + 1);
            lemma_bits_value_bound(seen);
            lemma_pow2_pos(i as nat);
            lemma_basic_div(bits_value(seen) as int, pow2(i as nat) as int);
            assert(next.drop_last() =~= seen);
            assert(next.last() == vec@[i as int]);
        }
        if vec[i] {
            mpz_setbit(&mut ret, i);
        } else {
            mpz_clrbit(&mut ret, i);
        }
        i += 1;
    }
    proof {
        assert(vec@.take(i as int) =~= vec@);
    }
    ret
}

/// The digits that GMP counts for `num`, least significant first: one digit
/// for zero, and the low two's complement digits of a negative number.
pub fn bignum_to_boolvec(num: &Mpz) -> (bits: Vec<bool>)
    ensures
        bits@ == int_bits(mpz_value(*num), bit_length(mpz_value(*num))),
{
    let num_bits = mpz_bit_length(num);
    let mut ret: Vec<bool> = Vec::new();
    let mut i: usize = 0;
    while i < num_bits
        invariant
            i <= num_bits,
            ret@.len() == i,
            forall|j: int| 0 <= j < i ==> ret@[j] == bit_at(mpz_value(*num), j as nat),
        decreases num_bits - i,
    {
        ret.push(mpz_tstbit(num, i));
        i += 1;
    }
    proof {
        assert(ret@ =~= int_bits(mpz_value(*num), bit_length(mpz_value(*num))));
    }
    ret
}

/// The machine word that the digits of `num` spell.
pub fn bignum_to_usize(num: &Mpz) -> (word: usize)
    requires
        word_value(mpz_value(*num)) <= usize::MAX,
    ensures
        word == word_value(mpz_value(*num)),
{
    let bits = bignum_to_boolvec(num);
    boolvec_to_usize(bits.as_slice())
}

/// The big integer equal to `num`.
pub fn usize_to_bignum(num: usize) -> (big: Mpz)
    ensures
        mpz_value(big) == num,
{
    let mut ret = mpz_zero();
    let mut i: usize = 0;
    let mut rest: usize = num;
    proof {
        lemma2_to64();
        lemma_binary_digits_bound(num as nat);
    }
    while rest != 0
        invariant
            0 <= mpz_value(ret) < pow2(i as nat),
            mpz_value(ret) + rest * pow2(i as nat) == num,
            i + binary_digits(rest as nat) == binary_digits(num as nat),
            binary_digits(num as nat) <= usize::MAX,
        decreases rest,
    {
        proof {
            let val = mpz_value(ret);
            let p = pow2(i as nat) as int;
            lemma_pow2_pos(i as nat);
            lemma_pow2_unfold((i + 1) as nat);
            lemma_basic_div(val, p);
            let half = (rest / 2) as int;
            let low = (rest % 2) as int;
            assert(rest == 2 * half + low);
            assert(half * (2 * p) + low * p == rest * p) by (nonlinear_arith)
                requires
                    rest == 2 * half + low,
            ;
            assert(low == 0 || low == 1);
            assert(low * p == if low == 1 { p } else { 0 }) by (nonlinear_arith)
                requires
                    low == 0 || low == 1,
            ;
            assert(!bit_at(val, i as nat));
            assert(pow2((i + 1) as nat) == 2 * p);
        }
        if rest % 2 == 1 {
            mpz_setbit(&mut ret, i);
        } else {
            mpz_clrbit(&mut ret, i);
        }
        rest /= 2;
        i += 1;
    }
    ret
}

/// The number that `vec` spells, or `None` where it does not fit a machine word.
pub fn checked_boolvec_to_usize(vec: &[bool]) -> (num: Option<usize>)
    ensures
        match num {
            Some(n) => n == bits_value(vec@),
            None => bits_value(vec@) > usize::MAX,
        },
{
    let mut ret: usize = 0;
    let mut i: usize = vec.len();
    proof {
        assert(vec@.skip(i as int) =~= Seq::<bool>::empty());
        assert(vec@.skip(0) =~= vec@);
    }
    while i > 0
        invariant
            i <= vec.len(),
            ret == bits_value(vec@.skip(i as int)),
        decreases i,
    {
        proof {
            lemma_suffix_value_le(vec@, (i - 1) as int);
            let tail = vec@.skip(i - 1);
            lemma_bits_value_first(tail);
            assert(tail.drop_first() =~= vec@.skip(i as int));
        }
        i -= 1;
        let bit: usize = if vec[i] {
            1
        } else {
            0
        };
        if ret > (usize::MAX - bit) / 2 {
            proof {
                assert(vec@.skip(0) =~= vec@);
            }
            return None;
        }
        ret = 2 * ret + bit;
    }
    Some(ret)
}

/// The machine word that the digits of `num` spell, or `None` where they spell
/// more than a word holds.
pub fn checked_bignum_to_usize(num: &Mpz) -> (word: Option<usize>)
    ensures
        match word {
            Some(w) => w == word_value(mpz_value(*num)),
            None => word_value(mpz_value(*num)) > usize::MAX,
        },
{
    let bits = bignum_to_boolvec(num);
    match checked_boolvec_to_usize(bits.as_slice()) {
        Some(_) => Some(bignum_to_usize(num)),
        None => None,
    }
}

/// The decimal text of `num`.
pub fn usize_text(num: usize) -> (text: String)
    ensures
        text@ == decimal_text(num as int),
{
    mpz_to_decimal(&usize_to_bignum(num))
}

} // verus!
