//! Bitwise operations and shifts, stored through a pointer.

use crate::assembler::Assembler;
use crate::environment::Environment;
use crate::error::{Error, ErrorType};
use crate::instruction::{
    agrees, built, binary_form, check_unary, exec_binary, not_form, read_three, read_two, texts,
    Instruction,
};
use crate::isa::{complement, BinaryKind, Op, Step};
use crate::value::Value;
use vstd::prelude::*;

verus! {

/// `and`: bitwise and of two operands.
pub struct And {
    pub to: Value,
    pub op1: Value,
    pub op2: Value,
}

impl View for And {
    type V = Op;

    open spec fn view(&self) -> Op {
        Op::Binary {
            kind: BinaryKind::And,
            to: self.to.shape(),
            op1: self.op1.shape(),
            op2: self.op2.shape(),
        }
    }
}

impl And {
    /// Builds `and` from a destination, which must be a pointer, and two sources.
    pub fn new(name: &str, args: &Vec<String>, err: &Error) -> (r: Result<Instruction, ErrorType>)
        ensures
            built(r, binary_form(BinaryKind::And, name@, texts(args@))),
    {
        match read_three(name, args, err) {
            Ok((to, op1, op2)) => Ok(Instruction::And(And { to: to, op1: op1, op2: op2 })),
            Err(e) => Err(e),
        }
    }

    /// Stores the two sources combined bit by bit with and into the destination.
    pub fn exec(&self, env: &mut Environment, assembler: &Assembler) -> (r: Result<Step, ErrorType>)
        ensures
            agrees(
                r,
                old(env),
                final(env),
                self@.step(old(env)@, assembler.labels@, assembler.ext_calls@),
            ),
    {
        exec_binary(BinaryKind::And, &self.to, &self.op1, &self.op2, env)
    }
}

/// `or`: bitwise or of two operands.
pub struct Or {
    pub to: Value,
    pub op1: Value,
    pub op2: Value,
}

impl View for Or {
    type V = Op;

    open spec fn view(&self) -> Op {
        Op::Binary {
            kind: BinaryKind::Or,
            to: self.to.shape(),
            op1: self.op1.shape(),
            op2: self.op2.shape(),
        }
    }
}

impl Or {
    /// Builds `or` from a destination, which must be a pointer, and two sources.
    pub fn new(name: &str, args: &Vec<String>, err: &Error) -> (r: Result<Instruction, ErrorType>)
        ensures
            built(r, binary_form(BinaryKind::Or, name@, texts(args@))),
    {
        match read_three(name, args, err) {
            Ok((to, op1, op2)) => Ok(Instruction::Or(Or { to: to, op1: op1, op2: op2 })),
            Err(e) => Err(e),
        }
    }

    /// Stores the two sources combined bit by bit with or into the destination.
    pub fn exec(&self, env: &mut Environment, assembler: &Assembler) -> (r: Result<Step, ErrorType>)
        ensures
            agrees(
                r,
                old(env),
                final(env),
                self@.step(old(env)@, assembler.labels@, assembler.ext_calls@),
            ),
    {
        exec_binary(BinaryKind::Or, &self.to, &self.op1, &self.op2, env)
    }
}

/// `xor`: bitwise exclusive or of two operands.
pub struct Xor {
    pub to: Value,
    pub op1: Value,
    pub op2: Value,
}

impl View for Xor {
    type V = Op;

    open spec fn view(&self) -> Op {
        Op::Binary {
            kind: BinaryKind::Xor,
            to: self.to.shape(),
            op1: self.op1.shape(),
            op2: self.op2.shape(),
        }
    }
}

impl Xor {
    /// Builds `xor` from a destination, which must be a pointer, and two sources.
    pub fn new(name: &str, args: &Vec<String>, err: &Error) -> (r: Result<Instruction, ErrorType>)
        ensures
            built(r, binary_form(BinaryKind::Xor, name@, texts(args@))),
    {
        match read_three(name, args, err) {
            Ok((to, op1, op2)) => Ok(Instruction::Xor(Xor { to: to, op1: op1, op2: op2 })),
            Err(e) => Err(e),
        }
    }

    /// Stores the two sources combined bit by bit with exclusive or into the destination.
    pub fn exec(&self, env: &mut Environment, assembler: &Assembler) -> (r: Result<Step, ErrorType>)
        ensures
            agrees(
                r,
                old(env),
                final(env),
                self@.step(old(env)@, assembler.labels@, assembler.ext_calls@),
            ),
    {
        exec_binary(BinaryKind::Xor, &self.to, &self.op1, &self.op2, env)
    }
}

/// `not`: the complement of an operand's bits.
pub struct Not {
    pub to: Value,
    pub op: Value,
}

impl View for Not {
    type V = Op;

    open spec fn view(&self) -> Op {
        Op::Not { to: self.to.shape(), op: self.op.shape() }
    }
}

impl Not {
    /// Builds `not` from a destination, which must be a pointer, and a source.
    pub fn new(name: &str, args: &Vec<String>, err: &Error) -> (r: Result<Instruction, ErrorType>)
        ensures
            built(r, not_form(name@, texts(args@))),
    {
        match read_two(name, args, err) {
            Ok((to, op)) => Ok(Instruction::Not(Not { to: to, op: op })),
            Err(e) => Err(e),
        }
    }

    /// Stores the source's bits, each inverted, into the destination, and
    /// ones into what is left of it.
    pub fn exec(&self, env: &mut Environment, assembler: &Assembler) -> (r: Result<Step, ErrorType>)
        ensures
            agrees(
                r,
                old(env),
                final(env),
                self@.step(old(env)@, assembler.labels@, assembler.ext_calls@),
            ),
    {
        let (pos, size) = match check_unary(&self.to, &self.op, env, true) {
            Ok(place) => place,
            Err(e) => {
                return Err(e);
            },
        };
        let bits = self.op.get_boolvec(env);
        let mut val: Vec<bool> = Vec::new();
        let mut i: usize = 0;
        while i < size
            invariant
                i <= size,
                val@ == complement(bits@, i as int),
            decreases size - i,
        {
            val.push(
                if i < bits.len() {
                    !bits[i]
                } else {
                    true
                },
            );
            i += 1;
            proof {
                assert(val@ =~= complement(bits@, i as int));
            }
        }
        env.set_bits_boolvec(val.as_slice(), pos, size);
        Ok(Step::Next)
    }
}

/// `shl`: an operand shifted toward the high bits.
pub struct LShift {
    pub to: Value,
    pub op1: Value,
    pub op2: Value,
}

impl View for LShift {
    type V = Op;

    open spec fn view(&self) -> Op {
        Op::Binary {
            kind: BinaryKind::Shl,
            to: self.to.shape(),
            op1: self.op1.shape(),
            op2: self.op2.shape(),
        }
    }
}

impl LShift {
    /// Builds `shl` from a destination, which must be a pointer, and two sources.
    pub fn new(name: &str, args: &Vec<String>, err: &Error) -> (r: Result<Instruction, ErrorType>)
        ensures
            built(r, binary_form(BinaryKind::Shl, name@, texts(args@))),
    {
        match read_three(name, args, err) {
            Ok((to, op1, op2)) => Ok(Instruction::LShift(LShift { to: to, op1: op1, op2: op2 })),
            Err(e) => Err(e),
        }
    }

    /// Stores the first source shifted up by as many places as the second says
    /// into the destination.
    pub fn exec(&self, env: &mut Environment, assembler: &Assembler) -> (r: Result<Step, ErrorType>)
        ensures
            agrees(
                r,
                old(env),
                final(env),
                self@.step(old(env)@, assembler.labels@, assembler.ext_calls@),
            ),
    {
        exec_binary(BinaryKind::Shl, &self.to, &self.op1, &self.op2, env)
    }
}

/// `shr`: an operand shifted toward the low bits.
pub struct RShift {
    pub to: Value,
    pub op1: Value,
    pub op2: Value,
}

impl View for RShift {
    type V = Op;

    open spec fn view(&self) -> Op {
        Op::Binary {
            kind: BinaryKind::Shr,
            to: self.to.shape(),
            op1: self.op1.shape(),
            op2: self.op2.shape(),
        }
    }
}

impl RShift {
    /// Builds `shr` from a destination, which must be a pointer, and two sources.
    pub fn new(name: &str, args: &Vec<String>, err: &Error) -> (r: Result<Instruction, ErrorType>)
        ensures
            built(r, binary_form(BinaryKind::Shr, name@, texts(args@))),
    {
        match read_three(name, args, err) {
            Ok((to, op1, op2)) => Ok(Instruction::RShift(RShift { to: to, op1: op1, op2: op2 })),
            Err(e) => Err(e),
        }
    }

    /// Stores the first source shifted down by as many places as the second says
    /// into the destination.
    pub fn exec(&self, env: &mut Environment, assembler: &Assembler) -> (r: Result<Step, ErrorType>)
        ensures
            agrees(
                r,
                old(env),
                final(env),
                self@.step(old(env)@, assembler.labels@, assembler.ext_calls@),
            ),
    {
        exec_binary(BinaryKind::Shr, &self.to, &self.op1, &self.op2, env)
    }
}

} // verus!
