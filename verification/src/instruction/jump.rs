//! Jumps: one that is always taken and six that compare first.

use crate::assembler::Assembler;
use crate::environment::Environment;
use crate::error::{ArgumentType, Error, ErrorType};
use crate::instruction::{
    agrees, built, branch_form, exec_branch, jump_form, read_comparison, texts,
    Instruction,
};
use crate::isa::{Comparison, Op, Step};
use crate::value::Value;
use vstd::prelude::*;

verus! {

/// `jmp`: a jump to a label.
pub struct Jump {
    pub label: String,
}

impl View for Jump {
    type V = Op;

    open spec fn view(&self) -> Op {
        Op::Jump { label: self.label@ }
    }
}

impl Jump {
    /// Builds `jmp` from a label.
    pub fn new(name: &str, args: &Vec<String>, err: &Error) -> (r: Result<Instruction, ErrorType>)
        ensures
            built(r, jump_form(name@, texts(args@))),
    {
        match err.check_args("instruction", name, args.len(), ArgumentType::Exact(1)) {
            Err(e) => Err(e),
            Ok(()) => Ok(Instruction::Jump(Jump { label: args[0].clone() })),
        }
    }

    /// Jumps to the label.
    pub fn exec(&self, env: &mut Environment, assembler: &Assembler) -> (r: Result<Step, ErrorType>)
        ensures
            agrees(
                r,
                old(env),
                final(env),
                self@.step(old(env)@, assembler.labels@, assembler.ext_calls@),
            ),
    {
        match env.goto(assembler, self.label.as_str()) {
            Ok(()) => Ok(Step::Next),
            Err(e) => Err(e),
        }
    }
}

/// `je`: a jump taken if the first operand is equal to the second.
pub struct JumpEqual {
    pub label: String,
    pub op1: Value,
    pub op2: Value,
}

impl View for JumpEqual {
    type V = Op;

    open spec fn view(&self) -> Op {
        Op::Branch {
            test: Comparison::Equal,
            op1: self.op1.shape(),
            op2: self.op2.shape(),
            label: self.label@,
        }
    }
}

impl JumpEqual {
    /// Builds `je` from two operands and a label.
    pub fn new(name: &str, args: &Vec<String>, err: &Error) -> (r: Result<Instruction, ErrorType>)
        ensures
            built(r, branch_form(Comparison::Equal, name@, texts(args@))),
    {
        match read_comparison(name, args, err) {
            Ok((op1, op2, label)) => Ok(
                Instruction::JumpEqual(JumpEqual { label: label, op1: op1, op2: op2 }),
            ),
            Err(e) => Err(e),
        }
    }

    /// Jumps to the label if the first operand is equal to the second.
    pub fn exec(&self, env: &mut Environment, assembler: &Assembler) -> (r: Result<Step, ErrorType>)
        ensures
            agrees(
                r,
                old(env),
                final(env),
                self@.step(old(env)@, assembler.labels@, assembler.ext_calls@),
            ),
    {
        exec_branch(Comparison::Equal, &self.op1, &self.op2, self.label.as_str(), env, assembler)
    }
}

/// `jne`: a jump taken if the first operand is different from the second.
pub struct JumpNotEqual {
    pub label: String,
    pub op1: Value,
    pub op2: Value,
}

impl View for JumpNotEqual {
    type V = Op;

    open spec fn view(&self) -> Op {
        Op::Branch {
            test: Comparison::NotEqual,
            op1: self.op1.shape(),
            op2: self.op2.shape(),
            label: self.label@,
        }
    }
}

impl JumpNotEqual {
    /// Builds `jne` from two operands and a label.
    pub fn new(name: &str, args: &Vec<String>, err: &Error) -> (r: Result<Instruction, ErrorType>)
        ensures
            built(r, branch_form(Comparison::NotEqual, name@, texts(args@))),
    {
        match read_comparison(name, args, err) {
            Ok((op1, op2, label)) => Ok(
                Instruction::JumpNotEqual(JumpNotEqual { label: label, op1: op1, op2: op2 }),
            ),
            Err(e) => Err(e),
        }
    }

    /// Jumps to the label if the first operand is different from the second.
    pub fn exec(&self, env: &mut Environment, assembler: &Assembler) -> (r: Result<Step, ErrorType>)
        ensures
            agrees(
                r,
                old(env),
                final(env),
                self@.step(old(env)@, assembler.labels@, assembler.ext_calls@),
            ),
    {
        exec_branch(Comparison::NotEqual, &self.op1, &self.op2, self.label.as_str(), env, assembler)
    }
}

/// `jg`: a jump taken if the first operand is greater than the second.
pub struct JumpGreater {
    pub label: String,
    pub op1: Value,
    pub op2: Value,
}

impl View for JumpGreater {
    type V = Op;

    open spec fn view(&self) -> Op {
        Op::Branch {
            test: Comparison::Greater,
            op1: self.op1.shape(),
            op2: self.op2.shape(),
            label: self.label@,
        }
    }
}

impl JumpGreater {
    /// Builds `jg` from two operands and a label.
    pub fn new(name: &str, args: &Vec<String>, err: &Error) -> (r: Result<Instruction, ErrorType>)
        ensures
            built(r, branch_form(Comparison::Greater, name@, texts(args@))),
    {
        match read_comparison(name, args, err) {
            Ok((op1, op2, label)) => Ok(
                Instruction::JumpGreater(JumpGreater { label: label, op1: op1, op2: op2 }),
            ),
            Err(e) => Err(e),
        }
    }

    /// Jumps to the label if the first operand is greater than the second.
    pub fn exec(&self, env: &mut Environment, assembler: &Assembler) -> (r: Result<Step, ErrorType>)
        ensures
            agrees(
                r,
                old(env),
                final(env),
                self@.step(old(env)@, assembler.labels@, assembler.ext_calls@),
            ),
    {
        exec_branch(Comparison::Greater, &self.op1, &self.op2, self.label.as_str(), env, assembler)
    }
}

/// `jge`: a jump taken if the first operand is no less than the second.
pub struct JumpGreaterEqual {
    pub label: String,
    pub op1: Value,
    pub op2: Value,
}

impl View for JumpGreaterEqual {
    type V = Op;

    open spec fn view(&self) -> Op {
        Op::Branch {
            test: Comparison::GreaterEqual,
            op1: self.op1.shape(),
            op2: self.op2.shape(),
            label: self.label@,
        }
    }
}

impl JumpGreaterEqual {
    /// Builds `jge` from two operands and a label.
    pub fn new(name: &str, args: &Vec<String>, err: &Error) -> (r: Result<Instruction, ErrorType>)
        ensures
            built(r, branch_form(Comparison::GreaterEqual, name@, texts(args@))),
    {
        match read_comparison(name, args, err) {
            Ok((op1, op2, label)) => Ok(
                Instruction::JumpGreaterEqual(JumpGreaterEqual { label: label, op1: op1, op2: op2 }),
            ),
            Err(e) => Err(e),
        }
    }

    /// Jumps to the label if the first operand is no less than the second.
    pub fn exec(&self, env: &mut Environment, assembler: &Assembler) -> (r: Result<Step, ErrorType>)
        ensures
            agrees(
                r,
                old(env),
                final(env),
                self@.step(old(env)@, assembler.labels@, assembler.ext_calls@),
            ),
    {
        exec_branch(Comparison::GreaterEqual, &self.op1, &self.op2, self.label.as_str(), env, assembler)
    }
}

/// `jl`: a jump taken if the first operand is less than the second.
pub struct JumpLess {
    pub label: String,
    pub op1: Value,
    pub op2: Value,
}

impl View for JumpLess {
    type V = Op;

    open spec fn view(&self) -> Op {
        Op::Branch {
            test: Comparison::Less,
            op1: self.op1.shape(),
            op2: self.op2.shape(),
            label: self.label@,
        }
    }
}

impl JumpLess {
    /// Builds `jl` from two operands and a label.
    pub fn new(name: &str, args: &Vec<String>, err: &Error) -> (r: Result<Instruction, ErrorType>)
        ensures
            built(r, branch_form(Comparison::Less, name@, texts(args@))),
    {
        match read_comparison(name, args, err) {
            Ok((op1, op2, label)) => Ok(
                Instruction::JumpLess(JumpLess { label: label, op1: op1, op2: op2 }),
            ),
            Err(e) => Err(e),
        }
    }

    /// Jumps to the label if the first operand is less than the second.
    pub fn exec(&self, env: &mut Environment, assembler: &Assembler) -> (r: Result<Step, ErrorType>)
        ensures
            agrees(
                r,
                old(env),
                final(env),
                self@.step(old(env)@, assembler.labels@, assembler.ext_calls@),
            ),
    {
        exec_branch(Comparison::Less, &self.op1, &self.op2, self.label.as_str(), env, assembler)
    }
}

/// `jle`: a jump taken if the first operand is no greater than the second.
pub struct JumpLessEqual {
    pub label: String,
    pub op1: Value,
    pub op2: Value,
}

impl View for JumpLessEqual {
    type V = Op;

    open spec fn view(&self) -> Op {
        Op::Branch {
            test: Comparison::LessEqual,
            op1: self.op1.shape(),
            op2: self.op2.shape(),
            label: self.label@,
        }
    }
}

impl JumpLessEqual {
    /// Builds `jle` from two operands and a label.
    pub fn new(name: &str, args: &Vec<String>, err: &Error) -> (r: Result<Instruction, ErrorType>)
        ensures
            built(r, branch_form(Comparison::LessEqual, name@, texts(args@))),
    {
        match read_comparison(name, args, err) {
            Ok((op1, op2, label)) => Ok(
                Instruction::JumpLessEqual(JumpLessEqual { label: label, op1: op1, op2: op2 }),
            ),
            Err(e) => Err(e),
        }
    }

    /// Jumps to the label if the first operand is no greater than the second.
    pub fn exec(&self, env: &mut Environment, assembler: &Assembler) -> (r: Result<Step, ErrorType>)
        ensures
            agrees(
                r,
                old(env),
                final(env),
                self@.step(old(env)@, assembler.labels@, assembler.ext_calls@),
            ),
    {
        exec_branch(Comparison::LessEqual, &self.op1, &self.op2, self.label.as_str(), env, assembler)
    }
}

} // verus!
