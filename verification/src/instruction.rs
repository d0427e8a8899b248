//! The instructions: how each is built from its arguments and what it does
//! to the machine.

use crate::assembler::{same_text, Assembler};
use crate::bignum::{
    lemma_bitwise_unique, mpz_add, mpz_and, mpz_div, mpz_eq, mpz_lt, mpz_mul, mpz_or,
    mpz_rem, mpz_shl, mpz_shr, mpz_sub, mpz_value, mpz_xor, mpz_zero,
};
use crate::environment::Environment;
use crate::error::{arity_fault, fails_with, ArgumentType, Error, ErrorType, Fault};
use crate::isa::{
    binary_fault, stored, too_wide_message, unary_fault, uneven_message, unresolved_message,
    BinaryKind, Comparison, Machine, Op, Step,
};
use crate::syntax::{holds, read_operand};
use crate::util::checked_bignum_to_usize;
use crate::value::{Shape, Value};
use vstd::prelude::*;
use vstd::string::*;

pub mod jump;
pub mod logic;
pub mod math;
pub mod mem;
pub mod sys;

use jump::{
    Jump, JumpEqual, JumpGreater, JumpGreaterEqual, JumpLess, JumpLessEqual, JumpNotEqual,
};
use logic::{And, LShift, Not, Or, RShift, Xor};
use math::{Add, Div, Mod, Mul, Sub};
use mem::{Mov, Pop, Push};
use sys::{Call, Ext, Ret};

verus! {

/// The texts of `args`.
pub open spec fn texts(args: Seq<String>) -> Seq<Seq<char>> {
    Seq::new(args.len(), |i: int| args[i]@)
}

/// What the errors call an instruction.
pub open spec fn instruction_kind() -> Seq<char> {
    "instruction"@
}

/// Whether `r` and the machine `after` are what `expected` asks for: the
/// step done and the machine as given, or the error and the machine as it
/// was `before`. What the host routines share is untouched either way.
pub open spec fn agrees(
    r: Result<Step, ErrorType>,
    before: &Environment,
    after: &Environment,
    expected: Result<(Machine, Step), Fault>,
) -> bool {
    &&& after.same_host(before)
    &&& match expected {
        Ok((m, s)) => r == Ok::<Step, ErrorType>(s) && after@ == m,
        Err(f) => fails_with(r, f) && after@ == before@,
    }
}

/// The catch-all error with this message.
pub fn generic(message: &str) -> (e: ErrorType)
    ensures
        e@ == Fault::Generic(message@),
{
    ErrorType::Generic(String::from_str(message))
}

/// Three operands, the first a pointer: the arity is looked at first, then
/// the operands in the order written.
pub open spec fn three_operands(name: Seq<char>, args: Seq<Seq<char>>) -> Result<
    (Shape, Shape, Shape),
    Fault,
> {
    if args.len() != 3 {
        Err(arity_fault(instruction_kind(), name, args.len() as usize, ArgumentType::Exact(3)))
    } else {
        match read_operand(args[0], true) {
            Err(f) => Err(f),
            Ok(to) => match read_operand(args[1], false) {
                Err(f) => Err(f),
                Ok(op1) => match read_operand(args[2], false) {
                    Err(f) => Err(f),
                    Ok(op2) => Ok((to, op1, op2)),
                },
            },
        }
    }
}

/// Two operands, the first a pointer.
pub open spec fn two_operands(name: Seq<char>, args: Seq<Seq<char>>) -> Result<(Shape, Shape), Fault> {
    if args.len() != 2 {
        Err(arity_fault(instruction_kind(), name, args.len() as usize, ArgumentType::Exact(2)))
    } else {
        match read_operand(args[0], true) {
            Err(f) => Err(f),
            Ok(to) => match read_operand(args[1], false) {
                Err(f) => Err(f),
                Ok(op) => Ok((to, op)),
            },
        }
    }
}

/// Two operands to compare and the label to jump to.
pub open spec fn comparison_operands(name: Seq<char>, args: Seq<Seq<char>>) -> Result<
    (Shape, Shape, Seq<char>),
    Fault,
> {
    if args.len() != 3 {
        Err(arity_fault(instruction_kind(), name, args.len() as usize, ArgumentType::Exact(3)))
    } else {
        match read_operand(args[0], false) {
            Err(f) => Err(f),
            Ok(op1) => match read_operand(args[1], false) {
                Err(f) => Err(f),
                Ok(op2) => Ok((op1, op2, args[2])),
            },
        }
    }
}

/// Reads the three operands of a computation.
pub fn read_three(name: &str, args: &Vec<String>, err: &Error) -> (r: Result<
    (Value, Value, Value),
    ErrorType,
>)
    ensures
        match three_operands(name@, texts(args@)) {
            Ok((to, op1, op2)) => match r {
                Ok((a, b, c)) => a.shape() == to && b.shape() == op1 && c.shape() == op2,
                Err(_) => false,
            },
            Err(f) => fails_with(r, f),
        },
{
    match err.check_args("instruction", name, args.len(), ArgumentType::Exact(3)) {
        Err(e) => {
            return Err(e);
        },
        Ok(()) => {},
    }
    let to = match Value::new(args[0].as_str(), true) {
        Ok(v) => v,
        Err(e) => {
            return Err(e);
        },
    };
    let op1 = match Value::new(args[1].as_str(), false) {
        Ok(v) => v,
        Err(e) => {
            return Err(e);
        },
    };
    let op2 = match Value::new(args[2].as_str(), false) {
        Ok(v) => v,
        Err(e) => {
            return Err(e);
        },
    };
    Ok((to, op1, op2))
}

/// Reads a destination and one source.
pub fn read_two(name: &str, args: &Vec<String>, err: &Error) -> (r: Result<(Value, Value), ErrorType>)
    ensures
        match two_operands(name@, texts(args@)) {
            Ok((to, op)) => match r {
                Ok((a, b)) => a.shape() == to && b.shape() == op,
                Err(_) => false,
            },
            Err(f) => fails_with(r, f),
        },
{
    match err.check_args("instruction", name, args.len(), ArgumentType::Exact(2)) {
        Err(e) => {
            return Err(e);
        },
        Ok(()) => {},
    }
    let to = match Value::new(args[0].as_str(), true) {
        Ok(v) => v,
        Err(e) => {
            return Err(e);
        },
    };
    let op = match Value::new(args[1].as_str(), false) {
        Ok(v) => v,
        Err(e) => {
            return Err(e);
        },
    };
    Ok((to, op))
}

/// Reads the two operands and the label of a conditional jump.
pub fn read_comparison(name: &str, args: &Vec<String>, err: &Error) -> (r: Result<
    (Value, Value, String),
    ErrorType,
>)
    ensures
        match comparison_operands(name@, texts(args@)) {
            Ok((op1, op2, label)) => match r {
                Ok((a, b, l)) => a.shape() == op1 && b.shape() == op2 && l@ == label,
                Err(_) => false,
            },
            Err(f) => fails_with(r, f),
        },
{
    match err.check_args("instruction", name, args.len(), ArgumentType::Exact(3)) {
        Err(e) => {
            return Err(e);
        },
        Ok(()) => {},
    }
    let op1 = match Value::new(args[0].as_str(), false) {
        Ok(v) => v,
        Err(e) => {
            return Err(e);
        },
    };
    let op2 = match Value::new(args[1].as_str(), false) {
        Ok(v) => v,
        Err(e) => {
            return Err(e);
        },
    };
    Ok((op1, op2, args[2].clone()))
}

/// Looks at a destination and one source before a store: whether both
/// resolve, the source fits, and the destination lies in memory. Gives the
/// destination's offset and extent.
pub fn check_unary(to: &Value, op: &Value, env: &Environment, logic: bool) -> (r: Result<
    (usize, usize),
    ErrorType,
>)
    ensures
        match unary_fault(
            to.shape(),
            op.shape(),
            env.memory(),
            if logic {
                uneven_message()
            } else {
                too_wide_message()
            },
        ) {
            Some(f) => fails_with(r, f),
            None => match r {
                Ok((pos, size)) => pos == to.offset(env.memory()) && size == to.extent(
                    env.memory(),
                ) && pos + size <= env.memory().len(),
                Err(_) => false,
            },
        },
{
    if !to.is_locatable(env) || !op.is_readable(env) {
        return Err(generic("Operand does not resolve against memory!"));
    }
    let size = to.get_ptr_size(env);
    if !op.can_coerce(size, env) {
        if logic {
            return Err(generic("Arguments are not all same size!"));
        } else {
            return Err(generic("Argument is bigger than assignment!"));
        }
    }
    let pos = to.get_ptr_position(env);
    let total = env.stack_len();
    if size > total || pos > total - size {
        return Err(generic("Operand does not resolve against memory!"));
    }
    Ok((pos, size))
}

/// Does a computation on two sources and stores what it gives.
pub fn exec_binary(
    kind: BinaryKind,
    to: &Value,
    op1: &Value,
    op2: &Value,
    env: &mut Environment,
) -> (r: Result<Step, ErrorType>)
    ensures
        final(env).same_host(old(env)),
        match binary_fault(kind, to.shape(), op1.shape(), op2.shape(), old(env)@.mem) {
            Some(f) => fails_with(r, f) && final(env)@ == old(env)@,
            None => r == Ok::<Step, ErrorType>(Step::Next) && final(env)@ == (Machine {
                mem: stored(
                    old(env)@.mem,
                    to.shape(),
                    kind.apply(
                        op1.shape().int_value(old(env)@.mem),
                        op2.shape().int_value(old(env)@.mem),
                        op2.shape().word(old(env)@.mem),
                    ),
                ),
                ..old(env)@
            }),
        },
{
    if !to.is_locatable(env) || !op1.is_readable(env) || !op2.is_readable(env) {
        return Err(generic("Operand does not resolve against memory!"));
    }
    let size = to.get_ptr_size(env);
    if !op1.can_coerce(size, env) || !op2.can_coerce(size, env) {
        match kind {
            BinaryKind::And | BinaryKind::Or | BinaryKind::Xor | BinaryKind::Shl | BinaryKind::Shr => {
                return Err(generic("Arguments are not all same size!"));
            },
            _ => {
                return Err(generic("Argument is bigger than assignment!"));
            },
        }
    }
    let pos = to.get_ptr_position(env);
    let total = env.stack_len();
    if size > total || pos > total - size {
        return Err(generic("Operand does not resolve against memory!"));
    }
    let a = op1.get_bignum(env);
    let b = op2.get_bignum(env);
    let val = match kind {
        BinaryKind::Add => mpz_add(&a, &b),
        BinaryKind::Sub => mpz_sub(&a, &b),
        BinaryKind::Mul => mpz_mul(&a, &b),
        BinaryKind::Div => {
            if mpz_eq(&b, &mpz_zero()) {
                return Err(generic("divide by zero"));
            }
            mpz_div(&a, &b)
        },
        BinaryKind::Mod => {
            if mpz_eq(&b, &mpz_zero()) {
                return Err(generic("divide by zero"));
            }
            mpz_rem(&a, &b)
        },
        BinaryKind::And => {
            let v = mpz_and(&a, &b);
            proof {
                lemma_bitwise_unique(
                    mpz_value(v),
                    mpz_value(a),
                    mpz_value(b),
                    |x: bool, y: bool| x && y,
                );
            }
            v
        },
        BinaryKind::Or => {
            let v = mpz_or(&a, &b);
            proof {
                lemma_bitwise_unique(
                    mpz_value(v),
                    mpz_value(a),
                    mpz_value(b),
                    |x: bool, y: bool| x || y,
                );
            }
            v
        },
        BinaryKind::Xor => {
            let v = mpz_xor(&a, &b);
            proof {
                lemma_bitwise_unique(
                    mpz_value(v),
                    mpz_value(a),
                    mpz_value(b),
                    |x: bool, y: bool| x != y,
                );
            }
            v
        },
        BinaryKind::Shl => match checked_bignum_to_usize(&b) {
            Some(shift) => mpz_shl(&a, shift),
            None => {
                return Err(generic("Operand does not resolve against memory!"));
            },
        },
        BinaryKind::Shr => match checked_bignum_to_usize(&b) {
            Some(shift) => mpz_shr(&a, shift),
            None => {
                return Err(generic("Operand does not resolve against memory!"));
            },
        },
    };
    env.set_bits_bignum(&val, pos, size);
    Ok(Step::Next)
}

/// Compares two operands.
pub fn compare(kind: Comparison, op1: &Value, op2: &Value, env: &Environment) -> (r: Result<
    bool,
    ErrorType,
>)
    ensures
        if !op1.readable(env.memory()) || !op2.readable(env.memory()) {
            fails_with(r, Fault::Generic(unresolved_message()))
        } else {
            r == Ok::<bool, ErrorType>(
                kind.holds(op1.int_value(env.memory()), op2.int_value(env.memory())),
            )
        },
{
    if !op1.is_readable(env) || !op2.is_readable(env) {
        return Err(generic("Operand does not resolve against memory!"));
    }
    let a = op1.get_bignum(env);
    let b = op2.get_bignum(env);
    Ok(
        match kind {
            Comparison::Equal => mpz_eq(&a, &b),
            Comparison::NotEqual => !mpz_eq(&a, &b),
            Comparison::Greater => mpz_lt(&b, &a),
            Comparison::GreaterEqual => !mpz_lt(&a, &b),
            Comparison::Less => mpz_lt(&a, &b),
            Comparison::LessEqual => !mpz_lt(&b, &a),
        },
    )
}

/// Does a conditional jump.
pub fn exec_branch(
    kind: Comparison,
    op1: &Value,
    op2: &Value,
    label: &str,
    env: &mut Environment,
    assembler: &Assembler,
) -> (r: Result<Step, ErrorType>)
    ensures
        agrees(
            r,
            old(env),
            final(env),
            (Op::Branch { test: kind, op1: op1.shape(), op2: op2.shape(), label: label@ }).step(
                old(env)@,
                assembler.labels@,
                assembler.ext_calls@,
            ),
        ),
{
    match compare(kind, op1, op2, env) {
        Err(e) => Err(e),
        Ok(true) => match env.goto(assembler, label) {
            Ok(()) => Ok(Step::Next),
            Err(e) => Err(e),
        },
        Ok(false) => Ok(Step::Next),
    }
}

/// Whether `r` is the instruction of the form, or the error, that `expected` asks for.
pub open spec fn built(r: Result<Instruction, ErrorType>, expected: Result<Op, Fault>) -> bool {
    match (r, expected) {
        (Ok(i), Ok(op)) => i@ == op,
        (Err(e), Err(f)) => e@ == f,
        _ => false,
    }
}

/// The error for `num` arguments where `range` is asked for, if that is an error.
pub open spec fn arity_check(name: Seq<char>, num: nat, range: ArgumentType) -> Option<Fault> {
    if range.admits(num as usize) {
        None
    } else {
        Some(arity_fault(instruction_kind(), name, num as usize, range))
    }
}

/// A computation on two sources from its arguments.
pub open spec fn binary_form(kind: BinaryKind, name: Seq<char>, args: Seq<Seq<char>>) -> Result<
    Op,
    Fault,
> {
    match three_operands(name, args) {
        Ok((to, op1, op2)) => Ok(Op::Binary { kind: kind, to: to, op1: op1, op2: op2 }),
        Err(f) => Err(f),
    }
}

/// `not` from its arguments.
pub open spec fn not_form(name: Seq<char>, args: Seq<Seq<char>>) -> Result<Op, Fault> {
    match two_operands(name, args) {
        Ok((to, op)) => Ok(Op::Not { to: to, op: op }),
        Err(f) => Err(f),
    }
}

/// `mov` from its arguments.
pub open spec fn mov_form(name: Seq<char>, args: Seq<Seq<char>>) -> Result<Op, Fault> {
    match two_operands(name, args) {
        Ok((to, from)) => Ok(Op::Mov { to: to, from: from }),
        Err(f) => Err(f),
    }
}

/// A conditional jump from its arguments.
pub open spec fn branch_form(kind: Comparison, name: Seq<char>, args: Seq<Seq<char>>) -> Result<
    Op,
    Fault,
> {
    match comparison_operands(name, args) {
        Ok((op1, op2, label)) => Ok(Op::Branch { test: kind, op1: op1, op2: op2, label: label }),
        Err(f) => Err(f),
    }
}

/// `jmp` from its argument, the label.
pub open spec fn jump_form(name: Seq<char>, args: Seq<Seq<char>>) -> Result<Op, Fault> {
    match arity_check(name, args.len(), ArgumentType::Exact(1)) {
        Some(f) => Err(f),
        None => Ok(Op::Jump { label: args[0] }),
    }
}

/// `call` from its argument, the label.
pub open spec fn call_form(name: Seq<char>, args: Seq<Seq<char>>) -> Result<Op, Fault> {
    match arity_check(name, args.len(), ArgumentType::Exact(1)) {
        Some(f) => Err(f),
        None => Ok(Op::Call { label: args[0] }),
    }
}

/// `ret`, which takes no argument.
pub open spec fn ret_form(name: Seq<char>, args: Seq<Seq<char>>) -> Result<Op, Fault> {
    match arity_check(name, args.len(), ArgumentType::Exact(0)) {
        Some(f) => Err(f),
        None => Ok(Op::Ret),
    }
}

/// `ext` with one argument gets the integer 1 for its operand.
pub open spec fn ext_form(name: Seq<char>, args: Seq<Seq<char>>) -> Result<Op, Fault> {
    match arity_check(name, args.len(), ArgumentType::Range(1, 2)) {
        Some(f) => Err(f),
        None => if args.len() == 2 {
            match read_operand(args[1], false) {
                Ok(val) => Ok(Op::Ext { name: args[0], val: val }),
                Err(f) => Err(f),
            }
        } else {
            Ok(Op::Ext { name: args[0], val: Shape::Number(1) })
        },
    }
}

/// `push` reads the value to store, if there is one, before the width.
pub open spec fn push_form(name: Seq<char>, args: Seq<Seq<char>>) -> Result<Op, Fault> {
    match arity_check(name, args.len(), ArgumentType::Range(1, 2)) {
        Some(f) => Err(f),
        None => if args.len() == 2 {
            match read_operand(args[1], false) {
                Err(f) => Err(f),
                Ok(val) => match read_operand(args[0], false) {
                    Ok(size) => Ok(Op::Push { size: size, init: Some(val) }),
                    Err(f) => Err(f),
                },
            }
        } else {
            match read_operand(args[0], false) {
                Ok(size) => Ok(Op::Push { size: size, init: None }),
                Err(f) => Err(f),
            }
        },
    }
}

/// `pop` from its argument, the width.
pub open spec fn pop_form(name: Seq<char>, args: Seq<Seq<char>>) -> Result<Op, Fault> {
    match arity_check(name, args.len(), ArgumentType::Exact(1)) {
        Some(f) => Err(f),
        None => match read_operand(args[0], false) {
            Ok(size) => Ok(Op::Pop { size: size }),
            Err(f) => Err(f),
        },
    }
}

/// The instruction that `name` with `args` assembles to, or the error: an
/// unknown name, a wrong number of arguments, or a bad operand.
pub open spec fn assemble(name: Seq<char>, args: Seq<Seq<char>>) -> Result<Op, Fault> {
    if name == "push"@ {
        push_form(name, args)
    } else if name == "pop"@ {
        pop_form(name, args)
    } else if name == "mov"@ {
        mov_form(name, args)
    } else if name == "call"@ {
        call_form(name, args)
    } else if name == "ret"@ {
        ret_form(name, args)
    } else if name == "ext"@ {
        ext_form(name, args)
    } else if name == "and"@ {
        binary_form(BinaryKind::And, name, args)
    } else if name == "or"@ {
        binary_form(BinaryKind::Or, name, args)
    } else if name == "xor"@ {
        binary_form(BinaryKind::Xor, name, args)
    } else if name == "not"@ {
        not_form(name, args)
    } else if name == "shl"@ {
        binary_form(BinaryKind::Shl, name, args)
    } else if name == "shr"@ {
        binary_form(BinaryKind::Shr, name, args)
    } else if name == "add"@ {
        binary_form(BinaryKind::Add, name, args)
    } else if name == "sub"@ {
        binary_form(BinaryKind::Sub, name, args)
    } else if name == "mul"@ {
        binary_form(BinaryKind::Mul, name, args)
    } else if name == "div"@ {
        binary_form(BinaryKind::Div, name, args)
    } else if name == "mod"@ {
        binary_form(BinaryKind::Mod, name, args)
    } else if name == "jmp"@ {
        jump_form(name, args)
    } else if name == "je"@ {
        branch_form(Comparison::Equal, name, args)
    } else if name == "jne"@ {
        branch_form(Comparison::NotEqual, name, args)
    } else if name == "jl"@ {
        branch_form(Comparison::Less, name, args)
    } else if name == "jle"@ {
        branch_form(Comparison::LessEqual, name, args)
    } else if name == "jg"@ {
        branch_form(Comparison::Greater, name, args)
    } else if name == "jge"@ {
        branch_form(Comparison::GreaterEqual, name, args)
    } else {
        Err(Fault::NonExistent { typename: instruction_kind(), value: name })
    }
}

/// An instruction of the program.
pub enum Instruction {
    Push(Push),
    Pop(Pop),
    Mov(Mov),
    Call(Call),
    Ret(Ret),
    Ext(Ext),
    And(And),
    Or(Or),
    Xor(Xor),
    Not(Not),
    LShift(LShift),
    RShift(RShift),
    Add(Add),
    Sub(Sub),
    Mul(Mul),
    Div(Div),
    Mod(Mod),
    Jump(Jump),
    JumpEqual(JumpEqual),
    JumpNotEqual(JumpNotEqual),
    JumpLess(JumpLess),
    JumpLessEqual(JumpLessEqual),
    JumpGreater(JumpGreater),
    JumpGreaterEqual(JumpGreaterEqual),
}

impl View for Instruction {
    type V = Op;

    open spec fn view(&self) -> Op {
        match *self {
            Instruction::Push(x) => x@,
            Instruction::Pop(x) => x@,
            Instruction::Mov(x) => x@,
            Instruction::Call(x) => x@,
            Instruction::Ret(x) => x@,
            Instruction::Ext(x) => x@,
            Instruction::And(x) => x@,
            Instruction::Or(x) => x@,
            Instruction::Xor(x) => x@,
            Instruction::Not(x) => x@,
            Instruction::LShift(x) => x@,
            Instruction::RShift(x) => x@,
            Instruction::Add(x) => x@,
            Instruction::Sub(x) => x@,
            Instruction::Mul(x) => x@,
            Instruction::Div(x) => x@,
            Instruction::Mod(x) => x@,
            Instruction::Jump(x) => x@,
            Instruction::JumpEqual(x) => x@,
            Instruction::JumpNotEqual(x) => x@,
            Instruction::JumpLess(x) => x@,
            Instruction::JumpLessEqual(x) => x@,
            Instruction::JumpGreater(x) => x@,
            Instruction::JumpGreaterEqual(x) => x@,
        }
    }
}

/// Builds the instruction called `name` from its arguments.
pub fn create_instruction(name: &str, arguments: &Vec<String>, err: &Error) -> (r: Result<
    Instruction,
    ErrorType,
>)
    ensures
        built(r, assemble(name@, texts(arguments@))),
{
    if same_text(name, "push") {
        Push::new(name, arguments, err)
    } else if same_text(name, "pop") {
        Pop::new(name, arguments, err)
    } else if same_text(name, "mov") {
        Mov::new(name, arguments, err)
    } else if same_text(name, "call") {
        Call::new(name, arguments, err)
    } else if same_text(name, "ret") {
        Ret::new(name, arguments, err)
    } else if same_text(name, "ext") {
        Ext::new(name, arguments, err)
    } else if same_text(name, "and") {
        And::new(name, arguments, err)
    } else if same_text(name, "or") {
        Or::new(name, arguments, err)
    } else if same_text(name, "xor") {
        Xor::new(name, arguments, err)
    } else if same_text(name, "not") {
        Not::new(name, arguments, err)
    } else if same_text(name, "shl") {
        LShift::new(name, arguments, err)
    } else if same_text(name, "shr") {
        RShift::new(name, arguments, err)
    } else if same_text(name, "add") {
        Add::new(name, arguments, err)
    } else if same_text(name, "sub") {
        Sub::new(name, arguments, err)
    } else if same_text(name, "mul") {
        Mul::new(name, arguments, err)
    } else if same_text(name, "div") {
        Div::new(name, arguments, err)
    } else if same_text(name, "mod") {
        Mod::new(name, arguments, err)
    } else if same_text(name, "jmp") {
        Jump::new(name, arguments, err)
    } else if same_text(name, "je") {
        JumpEqual::new(name, arguments, err)
    } else if same_text(name, "jne") {
        JumpNotEqual::new(name, arguments, err)
    } else if same_text(name, "jl") {
        JumpLess::new(name, arguments, err)
    } else if same_text(name, "jle") {
        JumpLessEqual::new(name, arguments, err)
    } else if same_text(name, "jg") {
        JumpGreater::new(name, arguments, err)
    } else if same_text(name, "jge") {
        JumpGreaterEqual::new(name, arguments, err)
    } else {
        Err(
            ErrorType::NonExistent {
                typename: String::from_str("instruction"),
                value: String::from_str(name),
            },
        )
    }
}

/// How many arguments the instruction called `name` takes; `None` for a
/// name that is no instruction.
pub open spec fn arity_of(name: Seq<char>) -> Option<ArgumentType> {
    if name == "push"@ || name == "ext"@ {
        Some(ArgumentType::Range(1, 2))
    } else if name == "pop"@ || name == "call"@ || name == "jmp"@ {
        Some(ArgumentType::Exact(1))
    } else if name == "mov"@ || name == "not"@ {
        Some(ArgumentType::Exact(2))
    } else if name == "ret"@ {
        Some(ArgumentType::Exact(0))
    } else if name == "and"@ || name == "or"@ || name == "xor"@ || name == "shl"@ || name
        == "shr"@ || name == "add"@ || name == "sub"@ || name == "mul"@ || name == "div"@
        || name == "mod"@ || name == "je"@ || name == "jne"@ || name == "jl"@ || name == "jle"@
        || name == "jg"@ || name == "jge"@ {
        Some(ArgumentType::Exact(3))
    } else {
        None
    }
}

impl Instruction {
    /// How many arguments the instruction called `name` takes.
    pub fn get_num_arguments(name: &str) -> (r: Option<ArgumentType>)
        ensures
            r == arity_of(name@),
    {
        if same_text(name, "push") || same_text(name, "ext") {
            Some(ArgumentType::Range(1, 2))
        } else if same_text(name, "pop") || same_text(name, "call") || same_text(name, "jmp") {
            Some(ArgumentType::Exact(1))
        } else if same_text(name, "mov") || same_text(name, "not") {
            Some(ArgumentType::Exact(2))
        } else if same_text(name, "ret") {
            Some(ArgumentType::Exact(0))
        } else if same_text(name, "and") || same_text(name, "or") || same_text(name, "xor")
            || same_text(name, "shl") || same_text(name, "shr") || same_text(name, "add")
            || same_text(name, "sub") || same_text(name, "mul") || same_text(name, "div")
            || same_text(name, "mod") || same_text(name, "je") || same_text(name, "jne")
            || same_text(name, "jl") || same_text(name, "jle") || same_text(name, "jg")
            || same_text(name, "jge") {
            Some(ArgumentType::Exact(3))
        } else {
            None
        }
    }

    /// Builds the instruction called `name` from its arguments.
    pub fn new(name: &str, args: &Vec<String>, err: &Error) -> (r: Result<Instruction, ErrorType>)
        ensures
            built(r, assemble(name@, texts(args@))),
    {
        create_instruction(name, args, err)
    }

    /// Runs this instruction on the machine. The instruction pointer already
    /// names the instruction after this one.
    pub fn exec(&self, env: &mut Environment, assembler: &Assembler) -> (r: Result<Step, ErrorType>)
        ensures
            agrees(
                r,
                old(env),
                final(env),
                self@.step(old(env)@, assembler.labels@, assembler.ext_calls@),
            ),
    {
        match self {
            Instruction::Push(x) => x.exec(env, assembler),
            Instruction::Pop(x) => x.exec(env, assembler),
            Instruction::Mov(x) => x.exec(env, assembler),
            Instruction::Call(x) => x.exec(env, assembler),
            Instruction::Ret(x) => x.exec(env, assembler),
            Instruction::Ext(x) => x.exec(env, assembler),
            Instruction::And(x) => x.exec(env, assembler),
            Instruction::Or(x) => x.exec(env, assembler),
            Instruction::Xor(x) => x.exec(env, assembler),
            Instruction::Not(x) => x.exec(env, assembler),
            Instruction::LShift(x) => x.exec(env, assembler),
            Instruction::RShift(x) => x.exec(env, assembler),
            Instruction::Add(x) => x.exec(env, assembler),
            Instruction::Sub(x) => x.exec(env, assembler),
            Instruction::Mul(x) => x.exec(env, assembler),
            Instruction::Div(x) => x.exec(env, assembler),
            Instruction::Mod(x) => x.exec(env, assembler),
            Instruction::Jump(x) => x.exec(env, assembler),
            Instruction::JumpEqual(x) => x.exec(env, assembler),
            Instruction::JumpNotEqual(x) => x.exec(env, assembler),
            Instruction::JumpLess(x) => x.exec(env, assembler),
            Instruction::JumpLessEqual(x) => x.exec(env, assembler),
            Instruction::JumpGreater(x) => x.exec(env, assembler),
            Instruction::JumpGreaterEqual(x) => x.exec(env, assembler),
        }
    }
}

} // verus!
