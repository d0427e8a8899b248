//! Operands: literal bits, integer literals, pointers into memory and the
//! addresses taken from pointers.
//!
//! Nothing about an operand is cached: its value, its bits and its width are
//! worked out against the memory at the moment of use.

use crate::bignum::{
    binary_digits, bit_length, decimal_text, mpz_bit_length, mpz_clone, mpz_to_decimal, mpz_value,
};
use crate::environment::Environment;
use crate::util::{
    bignum_to_boolvec, bignum_to_usize, bits_value, boolvec_to_bignum, checked_bignum_to_usize,
    int_bits, usize_len, usize_to_bignum, usize_to_boolvec, word_value,
};
use gmp::mpz::Mpz;
use vstd::prelude::*;
use vstd::slice::slice_to_vec;
use vstd::string::*;

verus! {

/// An operand of an instruction.
pub enum Value {
    /// Bits in the order written.
    Boolvec(Vec<bool>),
    /// An integer of any size.
    Bignum(Mpz),
    /// `len` bits of memory starting `pos` bits from the start, or, with `rev`,
    /// starting `pos` bits before the current end.
    Pointer { pos: Box<Value>, len: Box<Value>, rev: bool },
    /// The offset at which a pointer starts, or, with the flag set, the offset just past it.
    Position(Box<Value>, bool),
}

/// What an operand is, as mathematics: the form of a [`Value`] with its
/// integers and bit sequences laid bare. What an operand means against a
/// memory is said here, of the form.
pub enum Shape {
    Bits(Seq<bool>),
    Number(int),
    Pointer { pos: Box<Shape>, len: Box<Shape>, rev: bool },
    Address(Box<Shape>, bool),
}

impl Shape {
    /// Whether every address in this operand is taken of a pointer.
    pub open spec fn well_formed(self) -> bool
        decreases self,
    {
        match self {
            Shape::Bits(_) => true,
            Shape::Number(_) => true,
            Shape::Pointer { pos, len, rev } => pos.well_formed() && len.well_formed(),
            Shape::Address(ptr, _) => *ptr is Pointer && ptr.well_formed(),
        }
    }

    /// The integer this operand stands for against memory `mem`.
    pub open spec fn int_value(self, mem: Seq<bool>) -> int
        decreases self, 1nat,
    {
        match self {
            Shape::Bits(bits) => bits_value(bits) as int,
            Shape::Number(num) => num,
            Shape::Pointer { .. } => bits_value(
                mem.subrange(self.offset(mem), self.offset(mem) + self.extent(mem)),
            ) as int,
            Shape::Address(ptr, past_end) => ptr.offset(mem) + if past_end {
                ptr.extent(mem)
            } else {
                0
            },
        }
    }

    /// The machine word this operand stands for: what the digits of its integer spell.
    pub open spec fn word(self, mem: Seq<bool>) -> nat
        decreases self, 2nat,
    {
        word_value(self.int_value(mem))
    }

    /// Where in memory a pointer starts: its position counted from the start
    /// or, for a reverse pointer, back from the current end. 0 for what is no pointer.
    pub open spec fn offset(self, mem: Seq<bool>) -> int
        decreases self, 0nat,
    {
        match self {
            Shape::Pointer { pos, len, rev } => if rev {
                mem.len() - pos.word(mem)
            } else {
                pos.word(mem) as int
            },
            _ => 0,
        }
    }

    /// How many bits a pointer covers; 0 for what is no pointer.
    pub open spec fn extent(self, mem: Seq<bool>) -> int
        decreases self, 0nat,
    {
        match self {
            Shape::Pointer { pos, len, rev } => len.word(mem) as int,
            _ => 0,
        }
    }

    /// The width of this operand in bits.
    pub open spec fn width(self, mem: Seq<bool>) -> nat {
        match self {
            Shape::Bits(bits) => bits.len(),
            Shape::Number(num) => bit_length(num),
            Shape::Pointer { .. } => self.extent(mem) as nat,
            Shape::Address(..) => binary_digits(self.int_value(mem) as nat),
        }
    }

    /// The bits this operand stands for, in memory order.
    pub open spec fn bits(self, mem: Seq<bool>) -> Seq<bool> {
        match self {
            Shape::Bits(bits) => bits,
            Shape::Number(num) => int_bits(num, bit_length(num)),
            Shape::Pointer { .. } => mem.subrange(
                self.offset(mem),
                self.offset(mem) + self.extent(mem),
            ),
            Shape::Address(..) => int_bits(
                self.int_value(mem),
                binary_digits(self.int_value(mem) as nat),
            ),
        }
    }

    /// Whether the offset and the extent of this pointer can be worked out:
    /// both parts can be read and fit a machine word, and a reverse position
    /// does not reach before the start of memory.
    pub open spec fn locatable(self, mem: Seq<bool>) -> bool
        decreases self, 0nat,
    {
        match self {
            Shape::Pointer { pos, len, rev } => {
                &&& pos.readable(mem)
                &&& len.readable(mem)
                &&& pos.word(mem) <= usize::MAX
                &&& len.word(mem) <= usize::MAX
                &&& rev ==> pos.word(mem) <= mem.len()
            },
            _ => false,
        }
    }

    /// Whether this operand can be read against `mem`: a pointer lies inside
    /// the memory, and an address fits a machine word.
    pub open spec fn readable(self, mem: Seq<bool>) -> bool
        decreases self, 1nat,
    {
        match self {
            Shape::Bits(_) => true,
            Shape::Number(_) => true,
            Shape::Pointer { .. } => self.locatable(mem) && self.offset(mem) + self.extent(mem)
                <= mem.len(),
            Shape::Address(ptr, past_end) => ptr.locatable(mem) && (past_end ==> ptr.offset(mem)
                + ptr.extent(mem) <= usize::MAX),
        }
    }

    /// Whether the width of this operand can be worked out against `mem`.
    pub open spec fn measurable(self, mem: Seq<bool>) -> bool {
        match self {
            Shape::Pointer { .. } => self.locatable(mem),
            _ => self.readable(mem),
        }
    }

    /// How this operand is shown: literal bits as `v` and their number, an
    /// integer as `n` and the number, a pointer in brackets, and an address
    /// as `<` or `>` before its pointer.
    pub open spec fn text(self) -> Seq<char>
        decreases self,
    {
        match self {
            Shape::Bits(bits) => "v"@ + decimal_text(bits_value(bits) as int),
            Shape::Number(num) => "n"@ + decimal_text(num),
            Shape::Pointer { pos, len, rev } => "["@ + (if rev {
                "-"@
            } else {
                ""@
            }) + pos.text() + ":"@ + len.text() + "]"@,
            Shape::Address(ptr, past_end) => (if past_end {
                ">"@
            } else {
                "<"@
            }) + ptr.text(),
        }
    }
}

impl Value {
    /// The form of this operand.
    pub open spec fn shape(self) -> Shape
        decreases self,
    {
        match self {
            Value::Boolvec(bits) => Shape::Bits(bits@),
            Value::Bignum(num) => Shape::Number(mpz_value(num)),
            Value::Pointer { pos, len, rev } => Shape::Pointer {
                pos: Box::new(pos.shape()),
                len: Box::new(len.shape()),
                rev: rev,
            },
            Value::Position(ptr, past_end) => Shape::Address(Box::new(ptr.shape()), past_end),
        }
    }

    /// The following say of this operand what [`Shape`] says of its form.
    pub open spec fn well_formed(self) -> bool {
        self.shape().well_formed()
    }

    pub open spec fn is_pointer(self) -> bool {
        self is Pointer
    }

    pub open spec fn int_value(self, mem: Seq<bool>) -> int {
        self.shape().int_value(mem)
    }

    pub open spec fn word(self, mem: Seq<bool>) -> nat {
        self.shape().word(mem)
    }

    pub open spec fn offset(self, mem: Seq<bool>) -> int {
        self.shape().offset(mem)
    }

    pub open spec fn extent(self, mem: Seq<bool>) -> int {
        self.shape().extent(mem)
    }

    pub open spec fn width(self, mem: Seq<bool>) -> nat {
        self.shape().width(mem)
    }

    pub open spec fn bits(self, mem: Seq<bool>) -> Seq<bool> {
        self.shape().bits(mem)
    }

    pub open spec fn locatable(self, mem: Seq<bool>) -> bool {
        self.shape().locatable(mem)
    }

    pub open spec fn readable(self, mem: Seq<bool>) -> bool {
        self.shape().readable(mem)
    }

    pub open spec fn measurable(self, mem: Seq<bool>) -> bool {
        self.shape().measurable(mem)
    }

    /// Tells whether this operand is a pointer.
    pub fn is_ptr(&self) -> (b: bool)
        ensures
            b == self.is_pointer(),
            b == (self.shape() is Pointer),
    {
        match *self {
            Value::Pointer { .. } => true,
            _ => false,
        }
    }

    /// Tells whether this is a pointer whose offset and extent can be worked out.
    pub fn is_locatable(&self, env: &Environment) -> (b: bool)
        ensures
            b == self.locatable(env.memory()),
        decreases self, 0nat,
    {
        match self {
            Value::Pointer { pos, len, rev } => {
                if !pos.is_readable(env) || !len.is_readable(env) {
                    return false;
                }
                let pos_num = pos.get_bignum(env);
                let len_num = len.get_bignum(env);
                match (checked_bignum_to_usize(&pos_num), checked_bignum_to_usize(&len_num)) {
                    (Some(pos_word), Some(_)) => !*rev || pos_word <= env.stack_len(),
                    _ => false,
                }
            },
            _ => false,
        }
    }

    /// Tells whether this operand can be read against the memory as it is now.
    pub fn is_readable(&self, env: &Environment) -> (b: bool)
        ensures
            b == self.readable(env.memory()),
        decreases self, 1nat,
    {
        match self {
            Value::Boolvec(_) => true,
            Value::Bignum(_) => true,
            Value::Pointer { .. } => {
                if !self.is_locatable(env) {
                    return false;
                }
                let pos = self.get_ptr_position(env);
                let size = self.get_ptr_size(env);
                size <= env.stack_len() && pos <= env.stack_len() - size
            },
            Value::Position(ptr, past_end) => {
                if !ptr.is_locatable(env) {
                    return false;
                }
                let pos = ptr.get_ptr_position(env);
                let size = ptr.get_ptr_size(env);
                !*past_end || size <= usize::MAX - pos
            },
        }
    }

    /// Tells whether the width of this operand can be worked out.
    pub fn is_measurable(&self, env: &Environment) -> (b: bool)
        ensures
            b == self.measurable(env.memory()),
    {
        match self {
            Value::Pointer { .. } => self.is_locatable(env),
            _ => self.is_readable(env),
        }
    }

    /// Where in memory this pointer starts.
    pub fn get_ptr_position(&self, env: &Environment) -> (at: usize)
        requires
            self.locatable(env.memory()),
        ensures
            at == self.offset(env.memory()),
        decreases self, 0nat,
    {
        match self {
            Value::Pointer { pos, len, rev } => {
                if *rev {
                    env.stack_len() - pos.get_usize(env)
                } else {
                    pos.get_usize(env)
                }
            },
            _ => 0,
        }
    }

    /// The machine word this operand stands for.
    pub fn get_usize(&self, env: &Environment) -> (word: usize)
        requires
            self.readable(env.memory()),
            self.word(env.memory()) <= usize::MAX,
        ensures
            word == self.word(env.memory()),
        decreases self, 2nat,
    {
        bignum_to_usize(&self.get_bignum(env))
    }

    /// The integer this operand stands for.
    pub fn get_bignum(&self, env: &Environment) -> (num: Mpz)
        requires
            self.readable(env.memory()),
        ensures
            mpz_value(num) == self.int_value(env.memory()),
        decreases self, 1nat,
    {
        match self {
            Value::Bignum(num) => mpz_clone(num),
            Value::Boolvec(vec) => boolvec_to_bignum(vec.as_slice()),
            Value::Pointer { .. } => {
                let size = self.get_ptr_size(env);
                let pos = self.get_ptr_position(env);
                let _total = env.stack_len();
                let bits = env.slice(pos, pos + size);
                boolvec_to_bignum(bits)
            },
            Value::Position(ptr, past_end) => {
                let mut pos = ptr.get_ptr_position(env);
                if *past_end {
                    pos += ptr.get_ptr_size(env);
                }
                usize_to_bignum(pos)
            },
        }
    }

    /// The bits this operand stands for, in memory order.
    pub fn get_boolvec(&self, env: &Environment) -> (bits: Vec<bool>)
        requires
            self.readable(env.memory()),
        ensures
            bits@ == self.bits(env.memory()),
    {
        match self {
            Value::Bignum(num) => bignum_to_boolvec(num),
            Value::Boolvec(vec) => vec.clone(),
            Value::Pointer { .. } => {
                let size = self.get_ptr_size(env);
                let pos = self.get_ptr_position(env);
                let _total = env.stack_len();
                let bits = env.slice(pos, pos + size);
                slice_to_vec(bits)
            },
            Value::Position(ptr, past_end) => {
                let mut pos = ptr.get_ptr_position(env);
                if *past_end {
                    pos += ptr.get_ptr_size(env);
                }
                usize_to_boolvec(pos)
            },
        }
    }

    /// How many bits this pointer covers.
    pub fn get_ptr_size(&self, env: &Environment) -> (size: usize)
        requires
            self.locatable(env.memory()),
        ensures
            size == self.extent(env.memory()),
        decreases self, 0nat,
    {
        match self {
            Value::Pointer { pos, len, rev } => len.get_usize(env),
            _ => 0,
        }
    }

    /// Whether this operand is no wider than `new_size` bits.
    pub fn can_coerce(&self, new_size: usize, env: &Environment) -> (ok: bool)
        requires
            self.measurable(env.memory()),
        ensures
            ok == (self.width(env.memory()) <= new_size),
    {
        self.get_size(env) <= new_size
    }

    /// The width of this operand in bits.
    pub fn get_size(&self, env: &Environment) -> (size: usize)
        requires
            self.measurable(env.memory()),
        ensures
            size == self.width(env.memory()),
    {
        match self {
            Value::Pointer { pos, len, rev } => len.get_usize(env),
            Value::Boolvec(vec) => vec.len(),
            Value::Bignum(num) => mpz_bit_length(num),
            Value::Position(ptr, past_end) => {
                let mut pos = ptr.get_ptr_position(env);
                if *past_end {
                    pos += ptr.get_ptr_size(env);
                }
                usize_len(pos)
            },
        }
    }

    /// This operand as text.
    pub fn to_text(&self) -> (text: String)
        ensures
            text@ == self.shape().text(),
        decreases self,
    {
        match self {
            Value::Boolvec(vec) => {
                let mut text = String::from_str("v");
                text.append(mpz_to_decimal(&boolvec_to_bignum(vec.as_slice())).as_str());
                text
            },
            Value::Bignum(num) => {
                let mut text = String::from_str("n");
                text.append(mpz_to_decimal(num).as_str());
                text
            },
            Value::Pointer { pos, len, rev } => {
                let mut text = String::from_str("[");
                if *rev {
                    text.append("-");
                } else {
                    text.append("");
                }
                text.append(pos.to_text().as_str());
                text.append(":");
                text.append(len.to_text().as_str());
                text.append("]");
                text
            },
            Value::Position(ptr, past_end) => {
                let mut text = if *past_end {
                    String::from_str(">")
                } else {
                    String::from_str("<")
                };
                text.append(ptr.to_text().as_str());
                text
            },
        }
    }
}

} // verus!
