//! Subroutines and the way out to the host.

use crate::assembler::Assembler;
use crate::environment::Environment;
use crate::bignum::mpz_one;
use crate::error::{ArgumentType, Error, ErrorType};
use crate::instruction::{
    agrees, built, call_form, ext_form, ret_form, texts,
    Instruction,
};
use crate::isa::{Op, Step};
use crate::value::Value;
use vstd::prelude::*;
use vstd::string::*;

verus! {

/// `ret`: back to the instruction after the last `call`.
pub struct Ret;

/// `call`: a jump that saves where it came from.
pub struct Call(pub String);

/// `ext`: a call of a routine that the host has registered.
pub struct Ext {
    pub name: String,
    pub val: Value,
}

impl View for Ret {
    type V = Op;

    open spec fn view(&self) -> Op {
        Op::Ret
    }
}

impl View for Call {
    type V = Op;

    open spec fn view(&self) -> Op {
        Op::Call { label: self.0@ }
    }
}

impl View for Ext {
    type V = Op;

    open spec fn view(&self) -> Op {
        Op::Ext { name: self.name@, val: self.val.shape() }
    }
}

impl Ret {
    /// Builds `ret`, which takes no argument.
    pub fn new(name: &str, args: &Vec<String>, err: &Error) -> (r: Result<Instruction, ErrorType>)
        ensures
            built(r, ret_form(name@, texts(args@))),
    {
        match err.check_args("instruction", name, args.len(), ArgumentType::Exact(0)) {
            Err(e) => Err(e),
            Ok(()) => Ok(Instruction::Ret(Ret)),
        }
    }

    /// Takes the instruction pointer saved last off the call stack and jumps
    /// to it. An empty call stack is an error.
    pub fn exec(&self, env: &mut Environment, assembler: &Assembler) -> (r: Result<Step, ErrorType>)
        ensures
            agrees(
                r,
                old(env),
                final(env),
                self@.step(old(env)@, assembler.labels@, assembler.ext_calls@),
            ),
    {
        match env.ret() {
            Ok(()) => Ok(Step::Next),
            Err(e) => Err(e),
        }
    }
}

impl Call {
    /// Builds `call` from a label.
    pub fn new(name: &str, args: &Vec<String>, err: &Error) -> (r: Result<Instruction, ErrorType>)
        ensures
            built(r, call_form(name@, texts(args@))),
    {
        match err.check_args("instruction", name, args.len(), ArgumentType::Exact(1)) {
            Err(e) => Err(e),
            Ok(()) => Ok(Instruction::Call(Call(args[0].clone()))),
        }
    }

    /// Saves the instruction pointer on the call stack and jumps to the label.
    pub fn exec(&self, env: &mut Environment, assembler: &Assembler) -> (r: Result<Step, ErrorType>)
        ensures
            agrees(
                r,
                old(env),
                final(env),
                self@.step(old(env)@, assembler.labels@, assembler.ext_calls@),
            ),
    {
        match env.call(assembler, self.0.as_str()) {
            Ok(()) => Ok(Step::Next),
            Err(e) => Err(e),
        }
    }
}

impl Ext {
    /// Builds `ext` from the name of a routine and, if there is one, its
    /// operand; without one the operand is the integer 1.
    pub fn new(name: &str, args: &Vec<String>, err: &Error) -> (r: Result<Instruction, ErrorType>)
        ensures
            built(r, ext_form(name@, texts(args@))),
    {
        match err.check_args("instruction", name, args.len(), ArgumentType::Range(1, 2)) {
            Err(e) => {
                return Err(e);
            },
            Ok(()) => {},
        }
        let value = if args.len() == 2 {
            match Value::new(args[1].as_str(), false) {
                Ok(v) => v,
                Err(e) => {
                    return Err(e);
                },
            }
        } else {
            Value::Bignum(mpz_one())
        };
        Ok(Instruction::Ext(Ext { name: args[0].clone(), val: value }))
    }

    /// Hands over to the host, which runs the routine; a name under which
    /// none is registered is an error.
    pub fn exec(&self, env: &mut Environment, assembler: &Assembler) -> (r: Result<Step, ErrorType>)
        ensures
            agrees(
                r,
                old(env),
                final(env),
                self@.step(old(env)@, assembler.labels@, assembler.ext_calls@),
            ),
    {
        if assembler.has_external_call(self.name.as_str()) {
            Ok(Step::Host)
        } else {
            Err(
                ErrorType::NonExistent {
                    typename: String::from_str("external call"),
                    value: self.name.clone(),
                },
            )
        }
    }
}

} // verus!
