//! The instruction set as mathematics: the state of the machine, the forms
//! of its instructions, and what one step of each does.
//!
//! The executable instructions are proved against this file; the laws of the
//! machine are stated over it.

use crate::bignum::{bit_length, bitwise, truncated_quotient, truncated_remainder};
use crate::environment::overwritten;
use crate::error::Fault;
use crate::util::int_bits;
use crate::value::Shape;
use vstd::arithmetic::power2::pow2;
use vstd::prelude::*;

verus! {

/// The state that instructions act on.
pub struct Machine {
    /// The bit memory, cell 0 first.
    pub mem: Seq<bool>,
    /// The saved instruction pointers, the oldest first.
    pub calls: Seq<usize>,
    /// The index of the instruction to run next.
    pub ip: usize,
}

/// What the loop around the instructions is to do after one of them.
#[derive(Clone, Copy, Debug, PartialEq, Eq, Structural)]
pub enum Step {
    /// Go on with the instruction that the instruction pointer names.
    Next,
    /// Let the host run the external routine that the instruction names, then go on.
    Host,
}

/// The computations that take two operands and store into a third.
#[derive(Clone, Copy, Debug, PartialEq, Eq, Structural)]
pub enum BinaryKind {
    Add,
    Sub,
    Mul,
    Div,
    Mod,
    And,
    Or,
    Xor,
    Shl,
    Shr,
}

/// The comparisons that a conditional jump can make.
#[derive(Clone, Copy, Debug, PartialEq, Eq, Structural)]
pub enum Comparison {
    Equal,
    NotEqual,
    Greater,
    GreaterEqual,
    Less,
    LessEqual,
}

/// An instruction, with its operands as mathematics.
pub enum Op {
    Push { size: Shape, init: Option<Shape> },
    Pop { size: Shape },
    Mov { to: Shape, from: Shape },
    Binary { kind: BinaryKind, to: Shape, op1: Shape, op2: Shape },
    Not { to: Shape, op: Shape },
    Jump { label: Seq<char> },
    Branch { test: Comparison, op1: Shape, op2: Shape, label: Seq<char> },
    Call { label: Seq<char> },
    Ret,
    Ext { name: Seq<char>, val: Shape },
}

/// An operand cannot be worked out against the memory as it is, or a
/// destination lies outside of it.
pub open spec fn unresolved_message() -> Seq<char> {
    "Operand does not resolve against memory!"@
}

/// A source of an arithmetic instruction or of `mov` is wider than the destination.
pub open spec fn too_wide_message() -> Seq<char> {
    "Argument is bigger than assignment!"@
}

/// A source of a logic instruction is wider than the destination.
pub open spec fn uneven_message() -> Seq<char> {
    "Arguments are not all same size!"@
}

/// The divisor of `div` or `mod` is zero.
pub open spec fn divide_message() -> Seq<char> {
    "divide by zero"@
}

/// `ret` finds no saved instruction pointer.
pub open spec fn empty_return_message() -> Seq<char> {
    "Attempt to return on empty call stack!"@
}

/// `pop` asks for more cells than there are.
pub open spec fn pop_message() -> Seq<char> {
    "Attempt to pop more than memory holds!"@
}

/// `push` asks for more cells than can be addressed.
pub open spec fn push_message() -> Seq<char> {
    "Attempt to push more than memory can hold!"@
}

/// What the errors call a label.
pub open spec fn label_kind() -> Seq<char> {
    "label"@
}

/// What the errors call an external routine.
pub open spec fn external_kind() -> Seq<char> {
    "external call"@
}

/// The index registered under `name`: that of its last declaration.
pub open spec fn label_target(labels: Seq<(String, usize)>, name: Seq<char>) -> Option<usize>
    decreases labels.len(),
{
    if labels.len() == 0 {
        None
    } else if labels.last().0@ == name {
        Some(labels.last().1)
    } else {
        label_target(labels.drop_last(), name)
    }
}

/// Whether an external routine is registered under `name`.
pub open spec fn is_registered(hosts: Seq<String>, name: Seq<char>) -> bool {
    exists|i: int| 0 <= i < hosts.len() && #[trigger] hosts[i]@ == name
}

/// Memory after `value` was stored through the pointer `to`: the digits
/// that GMP counts for it, cut or zero-padded to the pointer's extent.
pub open spec fn stored(mem: Seq<bool>, to: Shape, value: int) -> Seq<bool> {
    overwritten(mem, to.offset(mem), to.extent(mem), int_bits(value, bit_length(value)))
}

/// The bits of `bits` inverted and padded with ones up to `width`.
pub open spec fn complement(bits: Seq<bool>, width: int) -> Seq<bool> {
    Seq::new(
        width as nat,
        |i: int|
            if i < bits.len() {
                !bits[i]
            } else {
                true
            },
    )
}

impl BinaryKind {
    /// Whether this is a logic instruction, which words its width error differently.
    pub open spec fn is_logic(self) -> bool {
        match self {
            BinaryKind::And | BinaryKind::Or | BinaryKind::Xor | BinaryKind::Shl | BinaryKind::Shr => true,
            _ => false,
        }
    }

    /// The words in which this computation refuses a source that is too wide.
    pub open spec fn width_message(self) -> Seq<char> {
        if self.is_logic() {
            uneven_message()
        } else {
            too_wide_message()
        }
    }

    /// What this computation makes of `a` and `b`; a shift is by `shift` places.
    pub open spec fn apply(self, a: int, b: int, shift: nat) -> int {
        match self {
            BinaryKind::Add => a + b,
            BinaryKind::Sub => a - b,
            BinaryKind::Mul => a * b,
            BinaryKind::Div => truncated_quotient(a, b),
            BinaryKind::Mod => truncated_remainder(a, b),
            BinaryKind::And => bitwise(a, b, |x: bool, y: bool| x && y),
            BinaryKind::Or => bitwise(a, b, |x: bool, y: bool| x || y),
            BinaryKind::Xor => bitwise(a, b, |x: bool, y: bool| x != y),
            BinaryKind::Shl => a * pow2(shift),
            BinaryKind::Shr => a / (pow2(shift) as int),
        }
    }
}

impl Comparison {
    /// Whether this comparison holds of `a` and `b`.
    pub open spec fn holds(self, a: int, b: int) -> bool {
        match self {
            Comparison::Equal => a == b,
            Comparison::NotEqual => a != b,
            Comparison::Greater => a > b,
            Comparison::GreaterEqual => a >= b,
            Comparison::Less => a < b,
            Comparison::LessEqual => a <= b,
        }
    }
}

/// Why a store of one source into `to` cannot be done, if it cannot: an
/// operand does not resolve, the source is wider than the destination, or
/// the destination lies outside the memory.
pub open spec fn unary_fault(to: Shape, op: Shape, mem: Seq<bool>, wide: Seq<char>) -> Option<
    Fault,
> {
    if !to.locatable(mem) || !op.readable(mem) {
        Some(Fault::Generic(unresolved_message()))
    } else if op.width(mem) > to.extent(mem) {
        Some(Fault::Generic(wide))
    } else if to.offset(mem) + to.extent(mem) > mem.len() {
        Some(Fault::Generic(unresolved_message()))
    } else {
        None
    }
}

/// Why a computation on two sources into `to` cannot be done, if it cannot:
/// as for one source, and besides a zero divisor, or a shift by more than a
/// machine word counts.
pub open spec fn binary_fault(
    kind: BinaryKind,
    to: Shape,
    op1: Shape,
    op2: Shape,
    mem: Seq<bool>,
) -> Option<Fault> {
    if !to.locatable(mem) || !op1.readable(mem) || !op2.readable(mem) {
        Some(Fault::Generic(unresolved_message()))
    } else if op1.width(mem) > to.extent(mem) || op2.width(mem) > to.extent(mem) {
        Some(Fault::Generic(kind.width_message()))
    } else if to.offset(mem) + to.extent(mem) > mem.len() {
        Some(Fault::Generic(unresolved_message()))
    } else if (kind is Div || kind is Mod) && op2.int_value(mem) == 0 {
        Some(Fault::Generic(divide_message()))
    } else if (kind is Shl || kind is Shr) && op2.word(mem) > usize::MAX {
        Some(Fault::Generic(unresolved_message()))
    } else {
        None
    }
}

/// The machine after a jump to `label`, or the error that no such label exists.
pub open spec fn jump_to(m: Machine, labels: Seq<(String, usize)>, label: Seq<char>) -> Result<
    Machine,
    Fault,
> {
    match label_target(labels, label) {
        Some(target) => Ok(Machine { ip: target, ..m }),
        None => Err(Fault::NonExistent { typename: label_kind(), value: label }),
    }
}

/// What `push` does: the memory grows by `size` zero cells, and `init`, read
/// against the grown memory, is stored into them, cut to their number.
pub open spec fn push_step(m: Machine, size: Shape, init: Option<Shape>) -> Result<Machine, Fault> {
    if !size.readable(m.mem) || size.word(m.mem) > usize::MAX {
        Err(Fault::Generic(unresolved_message()))
    } else if m.mem.len() + size.word(m.mem) > usize::MAX {
        Err(Fault::Generic(push_message()))
    } else {
        let count = size.word(m.mem);
        let grown = m.mem + Seq::new(count, |i: int| false);
        match init {
            None => Ok(Machine { mem: grown, ..m }),
            Some(val) => if !val.readable(grown) {
                Err(Fault::Generic(unresolved_message()))
            } else {
                let num = val.int_value(grown);
                Ok(
                    Machine {
                        mem: overwritten(
                            grown,
                            m.mem.len() as int,
                            count as int,
                            int_bits(num, bit_length(num)),
                        ),
                        ..m
                    },
                )
            },
        }
    }
}

impl Op {
    /// One step: the machine after this instruction and what the loop is to
    /// do next, or the error that halts the run. The instruction pointer of
    /// `m` already names the instruction after this one.
    pub open spec fn step(self, m: Machine, labels: Seq<(String, usize)>, hosts: Seq<String>) -> Result<
        (Machine, Step),
        Fault,
    > {
        match self {
            Op::Push { size, init } => match push_step(m, size, init) {
                Ok(next) => Ok((next, Step::Next)),
                Err(f) => Err(f),
            },
            Op::Pop { size } => if !size.readable(m.mem) || size.word(m.mem) > usize::MAX {
                Err(Fault::Generic(unresolved_message()))
            } else if size.word(m.mem) > m.mem.len() {
                Err(Fault::Generic(pop_message()))
            } else {
                Ok((Machine { mem: m.mem.take(m.mem.len() - size.word(m.mem)), ..m }, Step::Next))
            },
            Op::Mov { to, from } => match unary_fault(to, from, m.mem, too_wide_message()) {
                Some(f) => Err(f),
                None => Ok(
                    (Machine { mem: stored(m.mem, to, from.int_value(m.mem)), ..m }, Step::Next),
                ),
            },
            Op::Binary { kind, to, op1, op2 } => match binary_fault(kind, to, op1, op2, m.mem) {
                Some(f) => Err(f),
                None => Ok(
                    (
                        Machine {
                            mem: stored(
                                m.mem,
                                to,
                                kind.apply(
                                    op1.int_value(m.mem),
                                    op2.int_value(m.mem),
                                    op2.word(m.mem),
                                ),
                            ),
                            ..m
                        },
                        Step::Next,
                    ),
                ),
            },
            Op::Not { to, op } => match unary_fault(to, op, m.mem, uneven_message()) {
                Some(f) => Err(f),
                None => Ok(
                    (
                        Machine {
                            mem: overwritten(
                                m.mem,
                                to.offset(m.mem),
                                to.extent(m.mem),
                                complement(op.bits(m.mem), to.extent(m.mem)),
                            ),
                            ..m
                        },
                        Step::Next,
                    ),
                ),
            },
            Op::Jump { label } => match jump_to(m, labels, label) {
                Ok(next) => Ok((next, Step::Next)),
                Err(f) => Err(f),
            },
            Op::Branch { test, op1, op2, label } => if !op1.readable(m.mem) || !op2.readable(
                m.mem,
            ) {
                Err(Fault::Generic(unresolved_message()))
            } else if test.holds(op1.int_value(m.mem), op2.int_value(m.mem)) {
                match jump_to(m, labels, label) {
                    Ok(next) => Ok((next, Step::Next)),
                    Err(f) => Err(f),
                }
            } else {
                Ok((m, Step::Next))
            },
            Op::Call { label } => match jump_to(m, labels, label) {
                Ok(next) => Ok((Machine { calls: m.calls.push(m.ip), ..next }, Step::Next)),
                Err(f) => Err(f),
            },
            Op::Ret => if m.calls.len() == 0 {
                Err(Fault::Generic(empty_return_message()))
            } else {
                Ok((Machine { ip: m.calls.last(), calls: m.calls.drop_last(), ..m }, Step::Next))
            },
            Op::Ext { name, val } => if is_registered(hosts, name) {
                Ok((m, Step::Host))
            } else {
                Err(Fault::NonExistent { typename: external_kind(), value: name })
            },
        }
    }
}

} // verus!
