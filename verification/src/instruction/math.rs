//! Arithmetic on two operands, stored through a pointer.

use crate::assembler::Assembler;
use crate::environment::Environment;
use crate::error::{Error, ErrorType};
use crate::instruction::{
    agrees, built, binary_form, exec_binary, read_three, texts,
    Instruction,
};
use crate::isa::{BinaryKind, Op, Step};
use crate::value::Value;
use vstd::prelude::*;

verus! {

/// `add`: the sum of two operands.
pub struct Add {
    pub to: Value,
    pub op1: Value,
    pub op2: Value,
}

impl View for Add {
    type V = Op;

    open spec fn view(&self) -> Op {
        Op::Binary {
            kind: BinaryKind::Add,
            to: self.to.shape(),
            op1: self.op1.shape(),
            op2: self.op2.shape(),
        }
    }
}

impl Add {
    /// Builds `add` from a destination, which must be a pointer, and two sources.
    pub fn new(name: &str, args: &Vec<String>, err: &Error) -> (r: Result<Instruction, ErrorType>)
        ensures
            built(r, binary_form(BinaryKind::Add, name@, texts(args@))),
    {
        match read_three(name, args, err) {
            Ok((to, op1, op2)) => Ok(Instruction::Add(Add { to: to, op1: op1, op2: op2 })),
            Err(e) => Err(e),
        }
    }

    /// Stores the sum of the two sources into the destination.
    pub fn exec(&self, env: &mut Environment, assembler: &Assembler) -> (r: Result<Step, ErrorType>)
        ensures
            agrees(
                r,
                old(env),
                final(env),
                self@.step(old(env)@, assembler.labels@, assembler.ext_calls@),
            ),
    {
        exec_binary(BinaryKind::Add, &self.to, &self.op1, &self.op2, env)
    }
}

/// `sub`: the difference of two operands.
pub struct Sub {
    pub to: Value,
    pub op1: Value,
    pub op2: Value,
}

impl View for Sub {
    type V = Op;

    open spec fn view(&self) -> Op {
        Op::Binary {
            kind: BinaryKind::Sub,
            to: self.to.shape(),
            op1: self.op1.shape(),
            op2: self.op2.shape(),
        }
    }
}

impl Sub {
    /// Builds `sub` from a destination, which must be a pointer, and two sources.
    pub fn new(name: &str, args: &Vec<String>, err: &Error) -> (r: Result<Instruction, ErrorType>)
        ensures
            built(r, binary_form(BinaryKind::Sub, name@, texts(args@))),
    {
        match read_three(name, args, err) {
            Ok((to, op1, op2)) => Ok(Instruction::Sub(Sub { to: to, op1: op1, op2: op2 })),
            Err(e) => Err(e),
        }
    }

    /// Stores the first source less the second into the destination.
    pub fn exec(&self, env: &mut Environment, assembler: &Assembler) -> (r: Result<Step, ErrorType>)
        ensures
            agrees(
                r,
                old(env),
                final(env),
                self@.step(old(env)@, assembler.labels@, assembler.ext_calls@),
            ),
    {
        exec_binary(BinaryKind::Sub, &self.to, &self.op1, &self.op2, env)
    }
}

/// `mul`: the product of two operands.
pub struct Mul {
    pub to: Value,
    pub op1: Value,
    pub op2: Value,
}

impl View for Mul {
    type V = Op;

    open spec fn view(&self) -> Op {
        Op::Binary {
            kind: BinaryKind::Mul,
            to: self.to.shape(),
            op1: self.op1.shape(),
            op2: self.op2.shape(),
        }
    }
}

impl Mul {
    /// Builds `mul` from a destination, which must be a pointer, and two sources.
    pub fn new(name: &str, args: &Vec<String>, err: &Error) -> (r: Result<Instruction, ErrorType>)
        ensures
            built(r, binary_form(BinaryKind::Mul, name@, texts(args@))),
    {
        match read_three(name, args, err) {
            Ok((to, op1, op2)) => Ok(Instruction::Mul(Mul { to: to, op1: op1, op2: op2 })),
            Err(e) => Err(e),
        }
    }

    /// Stores the product of the two sources into the destination.
    pub fn exec(&self, env: &mut Environment, assembler: &Assembler) -> (r: Result<Step, ErrorType>)
        ensures
            agrees(
                r,
                old(env),
                final(env),
                self@.step(old(env)@, assembler.labels@, assembler.ext_calls@),
            ),
    {
        exec_binary(BinaryKind::Mul, &self.to, &self.op1, &self.op2, env)
    }
}

/// `div`: the quotient of two operands.
pub struct Div {
    pub to: Value,
    pub op1: Value,
    pub op2: Value,
}

impl View for Div {
    type V = Op;

    open spec fn view(&self) -> Op {
        Op::Binary {
            kind: BinaryKind::Div,
            to: self.to.shape(),
            op1: self.op1.shape(),
            op2: self.op2.shape(),
        }
    }
}

impl Div {
    /// Builds `div` from a destination, which must be a pointer, and two sources.
    pub fn new(name: &str, args: &Vec<String>, err: &Error) -> (r: Result<Instruction, ErrorType>)
        ensures
            built(r, binary_form(BinaryKind::Div, name@, texts(args@))),
    {
        match read_three(name, args, err) {
            Ok((to, op1, op2)) => Ok(Instruction::Div(Div { to: to, op1: op1, op2: op2 })),
            Err(e) => Err(e),
        }
    }

    /// Stores the first source divided by the second, rounded toward zero, into the
    /// destination. A zero divisor is an error.
    pub fn exec(&self, env: &mut Environment, assembler: &Assembler) -> (r: Result<Step, ErrorType>)
        ensures
            agrees(
                r,
                old(env),
                final(env),
                self@.step(old(env)@, assembler.labels@, assembler.ext_calls@),
            ),
    {
        exec_binary(BinaryKind::Div, &self.to, &self.op1, &self.op2, env)
    }
}

/// `mod`: the remainder of two operands.
pub struct Mod {
    pub to: Value,
    pub op1: Value,
    pub op2: Value,
}

impl View for Mod {
    type V = Op;

    open spec fn view(&self) -> Op {
        Op::Binary {
            kind: BinaryKind::Mod,
            to: self.to.shape(),
            op1: self.op1.shape(),
            op2: self.op2.shape(),
        }
    }
}

impl Mod {
    /// Builds `mod` from a destination, which must be a pointer, and two sources.
    pub fn new(name: &str, args: &Vec<String>, err: &Error) -> (r: Result<Instruction, ErrorType>)
        ensures
            built(r, binary_form(BinaryKind::Mod, name@, texts(args@))),
    {
        match read_three(name, args, err) {
            Ok((to, op1, op2)) => Ok(Instruction::Mod(Mod { to: to, op1: op1, op2: op2 })),
            Err(e) => Err(e),
        }
    }

    /// Stores the remainder of the first source divided by the second into the
    /// destination. A zero divisor is an error.
    pub fn exec(&self, env: &mut Environment, assembler: &Assembler) -> (r: Result<Step, ErrorType>)
        ensures
            agrees(
                r,
                old(env),
                final(env),
                self@.step(old(env)@, assembler.labels@, assembler.ext_calls@),
            ),
    {
        exec_binary(BinaryKind::Mod, &self.to, &self.op1, &self.op2, env)
    }
}

} // verus!
