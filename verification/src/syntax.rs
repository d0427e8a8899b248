//! The grammar of operands: how the text of one argument becomes a [`Value`].
//!
//! An operand is a pointer `[ [-] position [: length] ]`, literal bits
//! `b0101`, an address `<[..]` or `>[..]`, or a decimal integer.

use crate::bignum::{mpz_from_str, parsed_integer};
use crate::error::{ErrorType, Fault};
use crate::text::{
    char_is_whitespace, chars_to_string, is_whitespace, lemma_trimmed_len, slice_chars,
    str_to_chars, string_push, trim, trimmed,
};
use crate::value::{Shape, Value};
use gmp::mpz::Mpz;
use gmp::mpz::ParseMpzError;
use regex::Regex;
use vstd::prelude::*;
use vstd::string::*;
use vstd::utf8::encode_utf8;

verus! {

/// Whether `t` has the outer form of a pointer: it opens with `[`, closes
/// with `]`, and holds no line feed in between.
pub open spec fn is_bracketed(t: Seq<char>) -> bool {
    &&& t.len() >= 2
    &&& t[0] == '['
    &&& t.last() == ']'
    &&& forall|i: int| 0 < i < t.len() - 1 ==> t[i] != '\n'
}

/// `Regex::new` and `Regex::is_match` with the pattern `^\[(.*?)\]$`, which
/// is valid, so that `new` gives `Ok`. Anchored at both ends of the text, it
/// asks for `[` first and `]` last; the dot between them takes any character
/// but a line feed.
#[verifier::external_body]
pub(crate) fn matches_pointer_form(text: &str) -> (b: bool)
    ensures
        b == is_bracketed(text@),
{
    Regex::new(r"^\[(.*?)\]$").unwrap().is_match(text)
}

/// What the scan of a pointer's inside has gathered so far.
pub struct PointerParts {
    /// The text of the position.
    pub pos: Seq<char>,
    /// The text of the length.
    pub len: Seq<char>,
    /// Whether a leading `-` was seen.
    pub rev: bool,
    /// How many `[` are open.
    pub depth: int,
    /// Whether the scan has passed the `:` that parts position from length.
    pub in_len: bool,
}

/// The scan before any character.
pub open spec fn parts_start() -> PointerParts {
    PointerParts { pos: Seq::empty(), len: Seq::empty(), rev: false, depth: 0, in_len: false }
}

/// The scan after one more character that is neither skipped nor white space.
pub open spec fn parts_step(st: PointerParts, c: char) -> PointerParts {
    let depth = if c == '[' {
        st.depth + 1
    } else if c == ']' {
        st.depth - 1
    } else {
        st.depth
    };
    if c == ':' && depth == 0 {
        PointerParts { depth: depth, in_len: true, ..st }
    } else if c == '-' && st.pos.len() == 0 && !st.in_len {
        PointerParts { depth: depth, rev: true, ..st }
    } else if st.in_len {
        PointerParts { depth: depth, len: st.len.push(c), ..st }
    } else {
        PointerParts { depth: depth, pos: st.pos.push(c), ..st }
    }
}

/// The scan over the first `n` characters of `t`. The first character is
/// skipped, and so is every one from the index `bytes - 1` on, where `bytes`
/// is the length of `t` in bytes; white space is skipped wherever it stands.
pub open spec fn pointer_parts(t: Seq<char>, bytes: int, n: int) -> PointerParts
    decreases n,
{
    if n <= 0 {
        parts_start()
    } else {
        let st = pointer_parts(t, bytes, n - 1);
        let i = n - 1;
        if i < 1 || i + 1 >= bytes || is_whitespace(t[i]) {
            st
        } else {
            parts_step(st, t[i])
        }
    }
}

/// The message that rejects `c` among literal bits.
pub open spec fn bad_bit_message(c: char) -> Seq<char> {
    "'"@ + seq![c] + "' is not a valid character in a boolvec!"@
}

/// Literal bits: `0` and `1` in the order written, or the first character that is neither.
pub open spec fn parse_bits(digits: Seq<char>) -> Result<Seq<bool>, char>
    decreases digits.len(),
{
    if digits.len() == 0 {
        Ok(Seq::empty())
    } else {
        match parse_bits(digits.drop_last()) {
            Ok(bits) => if digits.last() == '0' {
                Ok(bits.push(false))
            } else if digits.last() == '1' {
                Ok(bits.push(true))
            } else {
                Err(digits.last())
            },
            Err(c) => Err(c),
        }
    }
}

/// A pointer from its two parts: an error in the position comes first, then
/// one in the length; both parts must be operands.
pub open spec fn parse_pointer(
    pos: Result<Option<Shape>, Fault>,
    len: Result<Option<Shape>, Fault>,
    rev: bool,
) -> Result<Option<Shape>, Fault> {
    match pos {
        Err(f) => Err(f),
        Ok(p) => match len {
            Err(f) => Err(f),
            Ok(l) => match (p, l) {
                (Some(p), Some(l)) => Ok(
                    Some(Shape::Pointer { pos: Box::new(p), len: Box::new(l), rev: rev }),
                ),
                _ => Ok(None),
            },
        },
    }
}

/// An address from what follows `<` or `>`: it must be a pointer.
pub open spec fn parse_address(inner: Result<Option<Shape>, Fault>, past_end: bool) -> Result<
    Option<Shape>,
    Fault,
> {
    match inner {
        Ok(Some(s)) => if s is Pointer {
            Ok(Some(Shape::Address(Box::new(s), past_end)))
        } else {
            Err(Fault::InvalidPointer(s))
        },
        other => other,
    }
}

/// The text of a pointer's length: `1` where none is written.
pub open spec fn length_text(parts: PointerParts) -> Seq<char> {
    if parts.len.len() == 0 {
        seq!['1']
    } else {
        parts.len
    }
}

/// What the text of one operand comes to: an operand of some form, `None`
/// where the text has none of the forms, or the error it holds.
pub open spec fn parse_operand(text: Seq<char>) -> Result<Option<Shape>, Fault>
    decreases text.len(),
    via parse_operand_decreases
{
    let t = trimmed(text);
    if is_bracketed(t) {
        let parts = pointer_parts(t, encode_utf8(t).len() as int, t.len() as int);
        parse_pointer(parse_operand(parts.pos), parse_operand(length_text(parts)), parts.rev)
    } else if t.len() > 0 && t[0] == 'b' {
        match parse_bits(t.skip(1)) {
            Ok(bits) => Ok(Some(Shape::Bits(bits))),
            Err(c) => Err(Fault::Generic(bad_bit_message(c))),
        }
    } else if t.len() > 0 && t[0] == '<' {
        parse_address(parse_operand(t.skip(1)), false)
    } else if t.len() > 0 && t[0] == '>' {
        parse_address(parse_operand(t.skip(1)), true)
    } else {
        match parsed_integer(t) {
            Some(v) => Ok(Some(Shape::Number(v))),
            None => Ok(None),
        }
    }
}

/// What an instruction makes of the text of one operand: the operand, or
/// the error. Text that is no operand is an error here, and so is, with
/// `require_pointer`, an operand that is no pointer.
pub open spec fn read_operand(text: Seq<char>, require_pointer: bool) -> Result<Shape, Fault> {
    match parse_operand(text) {
        Ok(Some(s)) => if require_pointer && !(s is Pointer) {
            Err(Fault::InvalidPointer(s))
        } else {
            Ok(s)
        },
        Ok(None) => Err(Fault::InvalidValue(text)),
        Err(f) => Err(f),
    }
}

/// Whether `r` is the operand, or the error, that `expected` asks for.
pub open spec fn holds(r: Result<Value, ErrorType>, expected: Result<Shape, Fault>) -> bool {
    match (r, expected) {
        (Ok(v), Ok(s)) => v.shape() == s && s.well_formed(),
        (Err(e), Err(f)) => e@ == f,
        _ => false,
    }
}

#[via_fn]
proof fn parse_operand_decreases(text: Seq<char>) {
    let t = trimmed(text);
    lemma_trimmed_len(text);
    if is_bracketed(t) {
        lemma_pointer_parts_len(t, encode_utf8(t).len() as int, t.len() as int);
    }
}

/// The two parts together are shorter than what was scanned.
pub proof fn lemma_pointer_parts_len(t: Seq<char>, bytes: int, n: int)
    ensures
        n >= 1 ==> pointer_parts(t, bytes, n).pos.len() + pointer_parts(t, bytes, n).len.len()
            <= n - 1,
        n < 1 ==> pointer_parts(t, bytes, n).pos.len() + pointer_parts(t, bytes, n).len.len() == 0,
    decreases n,
{
    if n > 0 {
        lemma_pointer_parts_len(t, bytes, n - 1);
    }
}

/// Whether `r` is what the parse `p` asks for: the operand of that form, no
/// operand, or the error.
pub open spec fn renders(
    r: Result<Option<Value>, ErrorType>,
    p: Result<Option<Shape>, Fault>,
) -> bool {
    match (r, p) {
        (Ok(Some(v)), Ok(Some(s))) => v.shape() == s && s.well_formed(),
        (Ok(None), Ok(None)) => true,
        (Err(e), Err(f)) => e@ == f,
        _ => false,
    }
}

/// The operand that the outcome of GMP's reader stands for: the integer it
/// read, or none where it rejected the text.
pub fn number_operand(read: Result<Mpz, ParseMpzError>) -> (r: Option<Value>)
    ensures
        match read {
            Ok(num) => r == Some(Value::Bignum(num)),
            Err(_) => r is None,
        },
{
    match read {
        Ok(val) => Some(Value::Bignum(val)),
        Err(_) => None,
    }
}

impl Value {
    /// Reads one operand. With `require_pointer`, an operand that is no
    /// pointer is an error.
    pub fn new(value: &str, require_pointer: bool) -> (r: Result<Value, ErrorType>)
        ensures
            holds(r, read_operand(value@, require_pointer)),
    {
        let chars = str_to_chars(value);
        let ret = match Value::create(&chars) {
            Ok(Some(ret)) => ret,
            Ok(None) => {
                return Err(ErrorType::InvalidValue(String::from_str(value)));
            },
            Err(e) => {
                return Err(e);
            },
        };
        if require_pointer && !ret.is_ptr() {
            return Err(ErrorType::InvalidPointer(ret));
        }
        Ok(ret)
    }

    /// Reads one operand from its characters; `None` where the text has none of the forms.
    pub fn create(text: &Vec<char>) -> (r: Result<Option<Value>, ErrorType>)
        ensures
            renders(r, parse_operand(text@)),
        decreases text@.len(),
    {
        let value = trim(text);
        let value_text = chars_to_string(&value, 0, value.len());
        proof {
            lemma_trimmed_len(text@);
            assert(value_text@ =~= value@);
        }
        if matches_pointer_form(value_text.as_str()) {
            let bytes = value_text.as_str().as_bytes().len();
            let mut pos_text: Vec<char> = Vec::new();
            let mut len_text: Vec<char> = Vec::new();
            let mut bracket_n: i128 = 0;
            let mut in_len = false;
            let mut from_back = false;
            let mut i: usize = 0;
            while i < value.len()
                invariant
                    i <= value@.len(),
                    -(i as int) <= bracket_n <= i,
                    pointer_parts(value@, bytes as int, i as int) == (PointerParts {
                        pos: pos_text@,
                        len: len_text@,
                        rev: from_back,
                        depth: bracket_n as int,
                        in_len: in_len,
                    }),
                decreases value@.len() - i,
            {
                let c = value[i];
                let skip = i < 1 || i + 1 >= bytes || char_is_whitespace(c);
                i += 1;
                if !skip {
                    if c == '[' {
                        bracket_n += 1;
                    } else if c == ']' {
                        bracket_n -= 1;
                    }
                    if c == ':' && bracket_n == 0 {
                        in_len = true;
                    } else if c == '-' && pos_text.len() == 0 && !in_len {
                        from_back = true;
                    } else if in_len {
                        len_text.push(c);
                    } else {
                        pos_text.push(c);
                    }
                }
            }
            if len_text.len() == 0 {
                len_text.push('1');
            }
            proof {
                lemma_pointer_parts_len(value@, bytes as int, value@.len() as int);
                let parts = pointer_parts(value@, bytes as int, value@.len() as int);
                assert(len_text@ =~= length_text(parts));
            }
            let position = match Value::create(&pos_text) {
                Ok(p) => p,
                Err(e) => {
                    return Err(e);
                },
            };
            let length = match Value::create(&len_text) {
                Ok(l) => l,
                Err(e) => {
                    return Err(e);
                },
            };
            match (position, length) {
                (Some(pos_val), Some(len_val)) => Ok(
                    Some(
                        Value::Pointer {
                            pos: Box::new(pos_val),
                            len: Box::new(len_val),
                            rev: from_back,
                        },
                    ),
                ),
                _ => Ok(None),
            }
        } else if value.len() > 0 && value[0] == 'b' {
            let mut boolvec: Vec<bool> = Vec::new();
            let mut i: usize = 1;
            proof {
                assert(value@.skip(1).take(0) =~= Seq::<char>::empty());
            }
            while i < value.len()
                invariant
                    1 <= i <= value@.len(),
                    value@ == trimmed(text@),
                    !is_bracketed(value@),
                    value@[0] == 'b',
                    parse_bits(value@.skip(1).take(i - 1)) == Ok::<Seq<bool>, char>(boolvec@),
                decreases value@.len() - i,
            {
                let c = value[i];
                proof {
                    let seen = value@.skip(1).take(i - 1);
                    let next = value@.skip(1).take(i as int);
                    assert(next.drop_last() =~= seen);
                    assert(next.last() == c);
                }
                if c == '0' {
                    boolvec.push(false);
                } else if c == '1' {
                    boolvec.push(true);
                } else {
                    proof {
                        lemma_parse_bits_bad(value@.skip(1), i as int);
                    }
                    let mut message = String::from_str("'");
                    string_push(&mut message, c);
                    message.append("' is not a valid character in a boolvec!");
                    proof {
                        assert(message@ =~= bad_bit_message(c));
                    }
                    return Err(ErrorType::Generic(message));
                }
                i += 1;
            }
            proof {
                assert(value@.skip(1).take(i - 1) =~= value@.skip(1));
            }
            Ok(Some(Value::Boolvec(boolvec)))
        } else if value.len() > 0 && (value[0] == '<' || value[0] == '>') {
            let past_end = value[0] == '>';
            let rest = slice_chars(&value, 1, value.len());
            proof {
                assert(rest@ =~= value@.skip(1));
            }
            match Value::create(&rest) {
                Ok(Some(val)) => {
                    if !val.is_ptr() {
                        Err(ErrorType::InvalidPointer(val))
                    } else {
                        Ok(Some(Value::Position(Box::new(val), past_end)))
                    }
                },
                Ok(None) => Ok(None),
                Err(e) => Err(e),
            }
        } else {
            Ok(number_operand(mpz_from_str(value_text.as_str())))
        }
    }
}

/// Once literal bits hold a bad character, that character is the outcome,
/// whatever follows it.
pub proof fn lemma_parse_bits_bad(digits: Seq<char>, n: int)
    requires
        1 <= n <= digits.len(),
        parse_bits(digits.take(n - 1)) is Ok,
        digits[n - 1] != '0',
        digits[n - 1] != '1',
    ensures
        parse_bits(digits) == Err::<Seq<bool>, char>(digits[n - 1]),
    decreases digits.len() - n,
{
    assert(digits.take(n).drop_last() =~= digits.take(n - 1));
    lemma_parse_bits_carry(digits, n);
}

/// An outcome that is an error stays as more characters follow.
pub proof fn lemma_parse_bits_carry(digits: Seq<char>, n: int)
    requires
        0 <= n <= digits.len(),
        parse_bits(digits.take(n)) is Err,
    ensures
        parse_bits(digits) == parse_bits(digits.take(n)),
    decreases digits.len() - n,
{
    if n == digits.len() {
        assert(digits.take(n) =~= digits);
    } else {
        assert(digits.take(n + 1).drop_last() =~= digits.take(n));
        lemma_parse_bits_carry(digits, n + 1);
    }
}

} // verus!
