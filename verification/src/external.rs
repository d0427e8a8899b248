//! What the routines that every host offers compute. The host reads and
//! prints; what is read goes in here as plain values, and what is to be
//! printed comes out as plain values.
//!
//! A routine that stores takes a pointer for its operand and stores through
//! it, zero-padded or cut to the pointer's extent.

use crate::bignum::{
    bit_length, decimal_text, mpz_bit_length, mpz_eq, mpz_from_str, mpz_one, mpz_to_decimal,
    mpz_value, mpz_zero, parsed_integer,
};
use crate::environment::{overwritten, rand_below, Environment};
use crate::error::{fails_with, ErrorType, Fault};
use crate::instruction::generic;
use crate::isa::{divide_message, stored, unresolved_message, Machine};
use crate::text::{str_to_chars, string_push};
use crate::util::{
    bits_value, boolvec_to_bignum, boolvec_to_u8, byte_value, bytes_bits, int_bits, str_to_boolvec,
};
use crate::value::{Shape, Value};
use gmp::mpz::Mpz;
use vstd::prelude::*;
use vstd::string::*;
use vstd::utf8::encode_utf8;

verus! {

/// Whether `to` is no place to store: it is no pointer that can be worked
/// out, or it reaches past the end of the memory.
pub open spec fn place_fault(to: Shape, mem: Seq<bool>) -> bool {
    !to.locatable(mem) || to.offset(mem) + to.extent(mem) > mem.len()
}

/// The integer read from `text`, or 0 where it holds none.
pub open spec fn read_number(text: Seq<char>) -> int {
    match parsed_integer(text) {
        Some(n) => n,
        None => 0,
    }
}

/// The byte that group `i` of eight bits spells, most significant bit first.
pub open spec fn group_byte(bits: Seq<bool>, i: int) -> nat {
    byte_value(bits.subrange(8 * i, 8 * i + 8))
}

/// Where the scan for the bytes of a text stands.
pub struct TextScan {
    /// The bytes so far.
    pub bytes: Seq<u8>,
    /// Whether a zero byte has ended the text.
    pub ended: bool,
}

/// The scan for the bytes of a text over the first `n` groups of eight bits.
pub open spec fn text_scan(bits: Seq<bool>, n: int) -> TextScan
    decreases n,
{
    if n <= 0 {
        TextScan { bytes: Seq::empty(), ended: false }
    } else {
        let st = text_scan(bits, n - 1);
        if st.ended {
            st
        } else if group_byte(bits, n - 1) == 0 {
            TextScan { ended: true, ..st }
        } else {
            TextScan { bytes: st.bytes.push(group_byte(bits, n - 1) as u8), ..st }
        }
    }
}

/// The bytes of the text that `bits` hold: one for each full group of eight
/// bits, up to the first group that is zero.
pub open spec fn text_bytes(bits: Seq<bool>) -> Seq<u8> {
    text_scan(bits, bits.len() as int / 8).bytes
}

/// Whether the character at `i` belongs to a line ending: a line feed, or a
/// carriage return right before one.
pub open spec fn ends_line(s: Seq<char>, i: int) -> bool {
    s[i] == '\n' || (s[i] == '\r' && i + 1 < s.len() && s[i + 1] == '\n')
}

/// The first `n` characters of `s` without those that belong to a line ending.
pub open spec fn joined_lines_upto(s: Seq<char>, n: int) -> Seq<char>
    decreases n,
{
    if n <= 0 {
        Seq::empty()
    } else if ends_line(s, n - 1) {
        joined_lines_upto(s, n - 1)
    } else {
        joined_lines_upto(s, n - 1).push(s[n - 1])
    }
}

/// The lines of `s` one after the other, without their line endings.
pub open spec fn joined_lines(s: Seq<char>) -> Seq<char> {
    joined_lines_upto(s, s.len() as int)
}

/// Where the pointer `v` starts and how many cells it covers, if it is a
/// place to store.
pub fn destination(v: &Value, env: &Environment) -> (r: Result<(usize, usize), ErrorType>)
    ensures
        if place_fault(v.shape(), env.memory()) {
            fails_with(r, Fault::Generic(unresolved_message()))
        } else {
            match r {
                Ok((pos, size)) => pos == v.offset(env.memory()) && size == v.extent(env.memory()),
                Err(_) => false,
            }
        },
{
    if !v.is_locatable(env) {
        return Err(generic("Operand does not resolve against memory!"));
    }
    let pos = v.get_ptr_position(env);
    let size = v.get_ptr_size(env);
    let total = env.stack_len();
    if size > total || pos > total - size {
        return Err(generic("Operand does not resolve against memory!"));
    }
    Ok((pos, size))
}

/// `printnum`: the decimal text of the number that the operand's bits spell.
pub fn printnum_text(v: &Value, env: &Environment) -> (r: Result<String, ErrorType>)
    ensures
        if v.readable(env.memory()) {
            match r {
                Ok(text) => text@ == decimal_text(bits_value(v.bits(env.memory())) as int),
                Err(_) => false,
            }
        } else {
            fails_with(r, Fault::Generic(unresolved_message()))
        },
{
    if !v.is_readable(env) {
        return Err(generic("Operand does not resolve against memory!"));
    }
    let bits = v.get_boolvec(env);
    Ok(mpz_to_decimal(&boolvec_to_bignum(bits.as_slice())))
}

/// `print`: the bytes of the text that the operand's bits hold.
pub fn print_text_bytes(v: &Value, env: &Environment) -> (r: Result<Vec<u8>, ErrorType>)
    ensures
        if v.readable(env.memory()) {
            match r {
                Ok(bytes) => bytes@ == text_bytes(v.bits(env.memory())),
                Err(_) => false,
            }
        } else {
            fails_with(r, Fault::Generic(unresolved_message()))
        },
{
    if !v.is_readable(env) {
        return Err(generic("Operand does not resolve against memory!"));
    }
    let boolvec = v.get_boolvec(env);
    let val = boolvec.as_slice();
    let count = val.len() / 8;
    let mut chars: Vec<u8> = Vec::new();
    let mut ended = false;
    let mut i: usize = 0;
    while i < count
        invariant
            i <= count,
            val@.len() <= usize::MAX,
            count == val@.len() as int / 8,
            text_scan(val@, i as int) == (TextScan { bytes: chars@, ended: ended }),
        decreases count - i,
    {
        if !ended {
            let nums = &val[i * 8..(i + 1) * 8];
            let c = boolvec_to_u8(nums);
            if c == 0 {
                ended = true;
            } else {
                chars.push(c);
            }
        }
        i += 1;
    }
    Ok(chars)
}

/// `valid`: stores 1 if the last input was a number, 0 if it was not.
pub fn valid(v: &Value, env: &mut Environment) -> (r: Result<(), ErrorType>)
    ensures
        final(env).same_host(old(env)),
        if place_fault(v.shape(), old(env)@.mem) {
            fails_with(r, Fault::Generic(unresolved_message())) && final(env)@ == old(env)@
        } else {
            r is Ok && final(env)@ == (Machine {
                mem: stored(
                    old(env)@.mem,
                    v.shape(),
                    if old(env).validity {
                        1
                    } else {
                        0
                    },
                ),
                ..old(env)@
            })
        },
{
    let (pos, size) = match destination(v, env) {
        Ok(place) => place,
        Err(e) => {
            return Err(e);
        },
    };
    let num = if env.validity {
        mpz_one()
    } else {
        mpz_zero()
    };
    env.set_bits_bignum(&num, pos, size);
    Ok(())
}

/// `prompt`: takes what the host has read as the input, its line endings removed.
pub fn accept_input(env: &mut Environment, input: &str)
    ensures
        final(env).input_string@ == joined_lines(input@),
        final(env)@ == old(env)@,
        final(env).validity == old(env).validity,
        final(env).randstate == old(env).randstate,
{
    let chars = str_to_chars(input);
    let mut text = String::new();
    let mut i: usize = 0;
    while i < chars.len()
        invariant
            i <= chars@.len(),
            chars@ == input@,
            text@ == joined_lines_upto(input@, i as int),
        decreases chars@.len() - i,
    {
        let c = chars[i];
        let line_end = c == '\n' || (c == '\r' && i + 1 < chars.len() && chars[i + 1] == '\n');
        if !line_end {
            string_push(&mut text, c);
        }
        i += 1;
    }
    env.input_string = text;
}

/// The number that the input holds, and whether it holds one.
pub fn input_number(env: &Environment) -> (r: (Mpz, bool))
    ensures
        mpz_value(r.0) == read_number(env.input_string@),
        r.1 == (parsed_integer(env.input_string@) is Some),
{
    match mpz_from_str(env.input_string.as_str()) {
        Ok(val) => (val, true),
        Err(_) => (mpz_zero(), false),
    }
}

/// `inputnumlen`: stores the width of the number that the input holds, and
/// notes whether it held one; no number counts as 0.
pub fn inputnumlen(v: &Value, env: &mut Environment) -> (r: Result<(), ErrorType>)
    ensures
        final(env).input_string == old(env).input_string,
        final(env).randstate == old(env).randstate,
        if place_fault(v.shape(), old(env)@.mem) {
            fails_with(r, Fault::Generic(unresolved_message())) && final(env)@ == old(env)@
                && final(env).validity == old(env).validity
        } else {
            r is Ok && final(env).validity == (parsed_integer(old(env).input_string@) is Some)
                && final(env)@ == (Machine {
                mem: overwritten(
                    old(env)@.mem,
                    v.offset(old(env)@.mem),
                    v.extent(old(env)@.mem),
                    int_bits(
                        bit_length(read_number(old(env).input_string@)) as int,
                        v.extent(old(env)@.mem) as nat,
                    ),
                ),
                ..old(env)@
            })
        },
{
    let (pos, size) = match destination(v, env) {
        Ok(place) => place,
        Err(e) => {
            return Err(e);
        },
    };
    let (num, found) = input_number(env);
    env.validity = found;
    let num_size = mpz_bit_length(&num);
    env.set_bits_usize(num_size, pos, size);
    Ok(())
}

/// `inputlen`: stores the length of the input in bits, eight for each byte
/// of its UTF-8 encoding.
pub fn inputlen(v: &Value, env: &mut Environment) -> (r: Result<(), ErrorType>)
    ensures
        final(env).same_host(old(env)),
        if place_fault(v.shape(), old(env)@.mem) || 8 * encode_utf8(old(env).input_string@).len()
            > usize::MAX {
            fails_with(r, Fault::Generic(unresolved_message())) && final(env)@ == old(env)@
        } else {
            r is Ok && final(env)@ == (Machine {
                mem: overwritten(
                    old(env)@.mem,
                    v.offset(old(env)@.mem),
                    v.extent(old(env)@.mem),
                    int_bits(
                        8 * encode_utf8(old(env).input_string@).len() as int,
                        v.extent(old(env)@.mem) as nat,
                    ),
                ),
                ..old(env)@
            })
        },
{
    let (pos, size) = match destination(v, env) {
        Ok(place) => place,
        Err(e) => {
            return Err(e);
        },
    };
    let bytes = env.input_string.as_str().as_bytes().len();
    if bytes > usize::MAX / 8 {
        return Err(generic("Operand does not resolve against memory!"));
    }
    env.set_bits_usize(bytes * 8, pos, size);
    Ok(())
}

/// `input`: stores the input as text, each byte most significant bit first.
pub fn input(v: &Value, env: &mut Environment) -> (r: Result<(), ErrorType>)
    ensures
        final(env).same_host(old(env)),
        if place_fault(v.shape(), old(env)@.mem) {
            fails_with(r, Fault::Generic(unresolved_message())) && final(env)@ == old(env)@
        } else {
            r is Ok && final(env)@ == (Machine {
                mem: overwritten(
                    old(env)@.mem,
                    v.offset(old(env)@.mem),
                    v.extent(old(env)@.mem),
                    bytes_bits(encode_utf8(old(env).input_string@)),
                ),
                ..old(env)@
            })
        },
{
    let (pos, size) = match destination(v, env) {
        Ok(place) => place,
        Err(e) => {
            return Err(e);
        },
    };
    let boolvec = str_to_boolvec(env.input_string.as_str());
    env.set_bits_boolvec(boolvec.as_slice(), pos, size);
    Ok(())
}

/// `inputnum`: stores the number that the input holds, and notes whether it
/// held one; no number counts as 0.
pub fn inputnum(v: &Value, env: &mut Environment) -> (r: Result<(), ErrorType>)
    ensures
        final(env).input_string == old(env).input_string,
        final(env).randstate == old(env).randstate,
        if place_fault(v.shape(), old(env)@.mem) {
            fails_with(r, Fault::Generic(unresolved_message())) && final(env)@ == old(env)@
                && final(env).validity == old(env).validity
        } else {
            r is Ok && final(env).validity == (parsed_integer(old(env).input_string@) is Some)
                && final(env)@ == (Machine {
                mem: stored(old(env)@.mem, v.shape(), read_number(old(env).input_string@)),
                ..old(env)@
            })
        },
{
    let (pos, size) = match destination(v, env) {
        Ok(place) => place,
        Err(e) => {
            return Err(e);
        },
    };
    let (num, found) = input_number(env);
    env.validity = found;
    env.set_bits_bignum(&num, pos, size);
    Ok(())
}

/// Stores a number that was drawn.
pub fn store_drawn(v: &Value, env: &mut Environment, drawn: &Mpz) -> (r: Result<(), ErrorType>)
    ensures
        final(env).same_host(old(env)),
        if place_fault(v.shape(), old(env)@.mem) {
            fails_with(r, Fault::Generic(unresolved_message())) && final(env)@ == old(env)@
        } else {
            r is Ok && final(env)@ == (Machine {
                mem: stored(old(env)@.mem, v.shape(), mpz_value(*drawn)),
                ..old(env)@
            })
        },
{
    let (pos, size) = match destination(v, env) {
        Ok(place) => place,
        Err(e) => {
            return Err(e);
        },
    };
    env.set_bits_bignum(drawn, pos, size);
    Ok(())
}

/// `random`: reads a bound through the operand, draws a number below it and
/// stores that in the bound's place. A bound of zero is an error.
pub fn random(v: &Value, env: &mut Environment) -> (r: Result<(), ErrorType>)
    ensures
        final(env).validity == old(env).validity,
        final(env).input_string == old(env).input_string,
        if place_fault(v.shape(), old(env)@.mem) {
            fails_with(r, Fault::Generic(unresolved_message())) && final(env)@ == old(env)@
        } else if v.int_value(old(env)@.mem) == 0 {
            fails_with(r, Fault::Generic(divide_message())) && final(env)@ == old(env)@
        } else {
            &&& r is Ok
            &&& final(env)@.calls == old(env)@.calls
            &&& final(env)@.ip == old(env)@.ip
            &&& exists|drawn: int|
                0 <= drawn < v.int_value(old(env)@.mem) && final(env)@.mem == #[trigger] stored(
                    old(env)@.mem,
                    v.shape(),
                    drawn,
                )
        },
{
    match destination(v, env) {
        Ok(_) => {},
        Err(e) => {
            return Err(e);
        },
    }
    let bound = v.get_bignum(env);
    if mpz_eq(&bound, &mpz_zero()) {
        return Err(generic("divide by zero"));
    }
    let result = rand_below(&mut env.randstate, &bound);
    store_drawn(v, env, &result)
}

} // verus!
