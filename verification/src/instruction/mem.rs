//! Memory: growing it, shrinking it and storing into it.

use crate::assembler::Assembler;
use crate::environment::Environment;
use crate::error::{ArgumentType, Error, ErrorType};
use crate::instruction::{
    agrees, built, check_unary, generic, mov_form, pop_form, push_form, read_two, texts,
    Instruction,
};
use crate::isa::{Op, Step};
use crate::util::checked_bignum_to_usize;
use crate::value::Value;
use vstd::prelude::*;

verus! {

/// `push`: grows the memory, and may store a value into the new cells.
pub struct Push(pub Value, pub Option<Value>);

/// `pop`: shrinks the memory.
pub struct Pop(pub Value);

/// `mov`: stores an operand through a pointer.
pub struct Mov {
    pub to: Value,
    pub from: Value,
}

impl View for Push {
    type V = Op;

    open spec fn view(&self) -> Op {
        Op::Push {
            size: self.0.shape(),
            init: match self.1 {
                Some(val) => Some(val.shape()),
                None => None,
            },
        }
    }
}

impl View for Pop {
    type V = Op;

    open spec fn view(&self) -> Op {
        Op::Pop { size: self.0.shape() }
    }
}

impl View for Mov {
    type V = Op;

    open spec fn view(&self) -> Op {
        Op::Mov { to: self.to.shape(), from: self.from.shape() }
    }
}

impl Push {
    /// Builds `push` from a width and, if there is one, the value to store.
    /// The value is read before the width.
    pub fn new(name: &str, args: &Vec<String>, err: &Error) -> (r: Result<Instruction, ErrorType>)
        ensures
            built(r, push_form(name@, texts(args@))),
    {
        match err.check_args("instruction", name, args.len(), ArgumentType::Range(1, 2)) {
            Err(e) => {
                return Err(e);
            },
            Ok(()) => {},
        }
        let val = if args.len() >= 2 {
            match Value::new(args[1].as_str(), false) {
                Ok(v) => Some(v),
                Err(e) => {
                    return Err(e);
                },
            }
        } else {
            None
        };
        match Value::new(args[0].as_str(), false) {
            Ok(size) => Ok(Instruction::Push(Push(size, val))),
            Err(e) => Err(e),
        }
    }

    /// Appends as many zero cells as the width says and stores the value,
    /// read against the grown memory, into them.
    pub fn exec(&self, env: &mut Environment, assembler: &Assembler) -> (r: Result<Step, ErrorType>)
        ensures
            agrees(
                r,
                old(env),
                final(env),
                self@.step(old(env)@, assembler.labels@, assembler.ext_calls@),
            ),
    {
        if !self.0.is_readable(env) {
            return Err(generic("Operand does not resolve against memory!"));
        }
        let size = match checked_bignum_to_usize(&self.0.get_bignum(env)) {
            Some(size) => size,
            None => {
                return Err(generic("Operand does not resolve against memory!"));
            },
        };
        let pos = env.stack_len();
        if size > usize::MAX - pos {
            return Err(generic("Attempt to push more than memory can hold!"));
        }
        env.push(size, false);
        match &self.1 {
            Some(val) => {
                if !val.is_readable(env) {
                    let _ = env.pop(size);
                    proof {
                        assert(env@.mem =~= old(env)@.mem);
                    }
                    return Err(generic("Operand does not resolve against memory!"));
                }
                let num = val.get_bignum(env);
                env.set_bits_bignum(&num, pos, size);
            },
            None => {},
        }
        Ok(Step::Next)
    }
}

impl Pop {
    /// Builds `pop` from a width.
    pub fn new(name: &str, args: &Vec<String>, err: &Error) -> (r: Result<Instruction, ErrorType>)
        ensures
            built(r, pop_form(name@, texts(args@))),
    {
        match err.check_args("instruction", name, args.len(), ArgumentType::Exact(1)) {
            Err(e) => {
                return Err(e);
            },
            Ok(()) => {},
        }
        match Value::new(args[0].as_str(), false) {
            Ok(size) => Ok(Instruction::Pop(Pop(size))),
            Err(e) => Err(e),
        }
    }

    /// Removes as many cells from the end of the memory as the width says.
    pub fn exec(&self, env: &mut Environment, assembler: &Assembler) -> (r: Result<Step, ErrorType>)
        ensures
            agrees(
                r,
                old(env),
                final(env),
                self@.step(old(env)@, assembler.labels@, assembler.ext_calls@),
            ),
    {
        if !self.0.is_readable(env) {
            return Err(generic("Operand does not resolve against memory!"));
        }
        let size = match checked_bignum_to_usize(&self.0.get_bignum(env)) {
            Some(size) => size,
            None => {
                return Err(generic("Operand does not resolve against memory!"));
            },
        };
        match env.pop(size) {
            Ok(()) => Ok(Step::Next),
            Err(e) => Err(e),
        }
    }
}

impl Mov {
    /// Builds `mov` from a destination, which must be a pointer, and a source.
    pub fn new(name: &str, args: &Vec<String>, err: &Error) -> (r: Result<Instruction, ErrorType>)
        ensures
            built(r, mov_form(name@, texts(args@))),
    {
        match read_two(name, args, err) {
            Ok((to, from)) => Ok(Instruction::Mov(Mov { to: to, from: from })),
            Err(e) => Err(e),
        }
    }

    /// Stores the source into the destination.
    pub fn exec(&self, env: &mut Environment, assembler: &Assembler) -> (r: Result<Step, ErrorType>)
        ensures
            agrees(
                r,
                old(env),
                final(env),
                self@.step(old(env)@, assembler.labels@, assembler.ext_calls@),
            ),
    {
        let (pos, size) = match check_unary(&self.to, &self.from, env, false) {
            Ok(place) => place,
            Err(e) => {
                return Err(e);
            },
        };
        let val = self.from.get_bignum(env);
        env.set_bits_bignum(&val, pos, size);
        Ok(Step::Next)
    }
}

} // verus!
