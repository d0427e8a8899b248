//! What holds of the machine and the assembler whatever the program: laws,
//! each proved from the definitions that the executable code is proved
//! against.

use crate::assembler::{replacement, run_spec, Run};
use crate::bignum::bit_length;
use crate::error::{arity_fault, Fault};
use crate::instruction::{arity_of, assemble, instruction_kind};
use crate::syntax::{
    is_bracketed, lemma_pointer_parts_len, length_text, parse_operand, pointer_parts,
};
use crate::text::{lemma_trimmed_len, trimmed};
use crate::isa::{
    divide_message, empty_return_message, label_target, too_wide_message, BinaryKind, Machine, Op,
    Step,
};
use crate::util::{bits_value, int_bits, lemma_word_value_of_nat};
use crate::value::Shape;
use vstd::prelude::*;
use vstd::utf8::encode_utf8;

verus! {

/// Round trip: the digits of a natural number, as many as its width and
/// least significant first, spell that number.
pub proof fn law_round_trip(n: int)
    requires
        n >= 0,
    ensures
        bits_value(int_bits(n, bit_length(n))) == n,
{
    lemma_word_value_of_nat(n);
}

/// Push and pop are symmetric: after a `push` of a literal width, with or
/// without a value to store, a `pop` of the same width gives back the
/// machine as it was, every cell of the old memory untouched.
pub proof fn law_push_pop(
    m: Machine,
    size: Shape,
    init: Option<Shape>,
    labels: Seq<(String, usize)>,
    hosts: Seq<String>,
)
    requires
        size is Number || size is Bits,
        (Op::Push { size: size, init: init }).step(m, labels, hosts) is Ok,
    ensures
        ({
            let pushed = (Op::Push { size: size, init: init }).step(m, labels, hosts)->Ok_0.0;
            &&& pushed.mem.len() == m.mem.len() + size.word(m.mem)
            &&& pushed.mem.take(m.mem.len() as int) == m.mem
            &&& (Op::Pop { size: size }).step(pushed, labels, hosts) == Ok::<
                (Machine, Step),
                Fault,
            >((m, Step::Next))
        }),
{
    let pushed = (Op::Push { size: size, init: init }).step(m, labels, hosts)->Ok_0.0;
    assert(size.word(pushed.mem) == size.word(m.mem));
    assert(pushed.mem.take(m.mem.len() as int) =~= m.mem);
    let popped = (Op::Pop { size: size }).step(pushed, labels, hosts);
    assert(popped is Ok);
    assert(popped->Ok_0.0.mem =~= m.mem);
}

/// The memory changes its length at the tail only: a `push` keeps the old
/// cells and adds after them, a `pop` keeps a prefix of the old cells, and
/// every other instruction keeps the length.
pub proof fn law_memory_changes_at_tail(
    op: Op,
    m: Machine,
    labels: Seq<(String, usize)>,
    hosts: Seq<String>,
)
    requires
        op.step(m, labels, hosts) is Ok,
    ensures
        ({
            let next = op.step(m, labels, hosts)->Ok_0.0;
            &&& op is Push ==> next.mem.len() >= m.mem.len() && next.mem.take(m.mem.len() as int)
                == m.mem
            &&& op is Pop ==> next.mem.len() <= m.mem.len() && m.mem.take(next.mem.len() as int)
                == next.mem
            &&& !(op is Push) && !(op is Pop) ==> next.mem.len() == m.mem.len()
        }),
{
    let next = op.step(m, labels, hosts)->Ok_0.0;
    match op {
        Op::Push { size, init } => {
            assert(next.mem.take(m.mem.len() as int) =~= m.mem);
        },
        Op::Pop { size } => {
            assert(m.mem.take(next.mem.len() as int) =~= next.mem);
        },
        _ => {},
    }
}

/// A source wider than the destination is refused: `mov` into a pointer of
/// fewer bits than the source has halts with an error and stores nothing.
pub proof fn law_wide_source_refused(
    to: Shape,
    from: Shape,
    m: Machine,
    labels: Seq<(String, usize)>,
    hosts: Seq<String>,
)
    requires
        to.locatable(m.mem),
        from.readable(m.mem),
        from.width(m.mem) > to.extent(m.mem),
    ensures
        (Op::Mov { to: to, from: from }).step(m, labels, hosts) == Err::<(Machine, Step), Fault>(
            Fault::Generic(too_wide_message()),
        ),
{
}

/// Macro shadowing: the first definition of a name is the one that counts,
/// whatever definitions follow it.
pub proof fn law_first_definition_wins(defines: Seq<(String, String)>, at: int, word: Seq<char>)
    requires
        0 <= at < defines.len(),
        defines[at].0@ == word,
        forall|j: int| 0 <= j < at ==> defines[j].0@ != word,
    ensures
        replacement(defines, word) == defines[at].1@,
    decreases at,
{
    if at > 0 {
        let rest = defines.drop_first();
        assert(rest[at - 1] == defines[at]);
        assert forall|j: int| 0 <= j < at - 1 implies rest[j].0@ != word by {
            assert(rest[j] == defines[j + 1]);
        }
        law_first_definition_wins(rest, at - 1, word);
    }
}

/// A definition added after one of the same name changes nothing for that name.
pub proof fn law_later_definition_ignored(
    defines: Seq<(String, String)>,
    later: (String, String),
    word: Seq<char>,
)
    requires
        exists|i: int| 0 <= i < defines.len() && #[trigger] defines[i].0@ == word,
    ensures
        replacement(defines.push(later), word) == replacement(defines, word),
    decreases defines.len(),
{
    if defines[0].0@ != word {
        let rest = defines.drop_first();
        let i = choose|i: int| 0 <= i < defines.len() && #[trigger] defines[i].0@ == word;
        assert(rest[i - 1] == defines[i]);
        assert(defines.push(later).drop_first() =~= rest.push(later));
        law_later_definition_ignored(rest, later, word);
    }
}

/// Call and return: `ret` resumes at the instruction after the `call` that
/// was made last, and leaves the call stack as it was before that call,
/// whatever happened to the memory in between.
pub proof fn law_call_return(
    m: Machine,
    label: Seq<char>,
    later: Machine,
    labels: Seq<(String, usize)>,
    hosts: Seq<String>,
)
    requires
        (Op::Call { label: label }).step(m, labels, hosts) is Ok,
        later.calls == (Op::Call { label: label }).step(m, labels, hosts)->Ok_0.0.calls,
    ensures
        label_target(labels, label) == Some(
            (Op::Call { label: label }).step(m, labels, hosts)->Ok_0.0.ip,
        ),
        Op::Ret.step(later, labels, hosts) == Ok::<(Machine, Step), Fault>(
            (Machine { ip: m.ip, calls: m.calls, mem: later.mem }, Step::Next),
        ),
{
    let called = (Op::Call { label: label }).step(m, labels, hosts)->Ok_0.0;
    assert(called.calls == m.calls.push(m.ip));
    assert(later.calls.drop_last() =~= m.calls);
}

/// Division by zero: `div` and `mod` with a divisor that is zero halt with
/// an error, whatever the other operands are, and store nothing.
pub proof fn law_division_by_zero(
    kind: BinaryKind,
    to: Shape,
    op1: Shape,
    op2: Shape,
    m: Machine,
    labels: Seq<(String, usize)>,
    hosts: Seq<String>,
)
    requires
        kind is Div || kind is Mod,
        op2.int_value(m.mem) == 0,
    ensures
        (Op::Binary { kind: kind, to: to, op1: op1, op2: op2 }).step(m, labels, hosts) is Err,
        to.locatable(m.mem) && op1.readable(m.mem) && op2.readable(m.mem) && op1.width(m.mem)
            <= to.extent(m.mem) && op2.width(m.mem) <= to.extent(m.mem) && to.offset(m.mem)
            + to.extent(m.mem) <= m.mem.len() ==> (Op::Binary {
            kind: kind,
            to: to,
            op1: op1,
            op2: op2,
        }).step(m, labels, hosts) == Err::<(Machine, Step), Fault>(
            Fault::Generic(divide_message()),
        ),
{
}

/// A label resolves to its last declaration, wherever in the program the
/// jump to it stands: the table alone decides, not the order of the lines.
pub proof fn law_label_declared(labels: Seq<(String, usize)>, name: String, at: usize)
    ensures
        label_target(labels.push((name, at)), name@) == Some(at),
{
    let grown = labels.push((name, at));
    assert(grown.last() == (name, at));
}

/// Every operand that the grammar yields takes its addresses of pointers only.
pub proof fn law_operands_well_formed(text: Seq<char>)
    ensures
        match parse_operand(text) {
            Ok(Some(shape)) => shape.well_formed(),
            _ => true,
        },
    decreases text.len(),
{
    let t = trimmed(text);
    lemma_trimmed_len(text);
    if is_bracketed(t) {
        let parts = pointer_parts(t, encode_utf8(t).len() as int, t.len() as int);
        lemma_pointer_parts_len(t, encode_utf8(t).len() as int, t.len() as int);
        law_operands_well_formed(parts.pos);
        law_operands_well_formed(length_text(parts));
    } else if t.len() > 0 && t[0] == 'b' {
    } else if t.len() > 0 && (t[0] == '<' || t[0] == '>') {
        law_operands_well_formed(t.skip(1));
    }
}

/// Arity comes first: a name that is no instruction is refused as such, and
/// an instruction given a number of arguments that its arity does not admit
/// is refused with the arity error, whatever the arguments are.
pub proof fn law_arity_checked(name: Seq<char>, args: Seq<Seq<char>>)
    requires
        args.len() <= usize::MAX,
    ensures
        match arity_of(name) {
            None => assemble(name, args) == Err::<Op, Fault>(
                Fault::NonExistent { typename: instruction_kind(), value: name },
            ),
            Some(range) => !range.admits(args.len() as usize) ==> assemble(name, args) == Err::<
                Op,
                Fault,
            >(arity_fault(instruction_kind(), name, args.len() as usize, range)),
        },
{
    reveal_strlit("push");
    reveal_strlit("pop");
    reveal_strlit("mov");
    reveal_strlit("call");
    reveal_strlit("ret");
    reveal_strlit("ext");
    reveal_strlit("and");
    reveal_strlit("or");
    reveal_strlit("xor");
    reveal_strlit("not");
    reveal_strlit("shl");
    reveal_strlit("shr");
    reveal_strlit("add");
    reveal_strlit("sub");
    reveal_strlit("mul");
    reveal_strlit("div");
    reveal_strlit("mod");
    reveal_strlit("jmp");
    reveal_strlit("je");
    reveal_strlit("jne");
    reveal_strlit("jl");
    reveal_strlit("jle");
    reveal_strlit("jg");
    reveal_strlit("jge");
    assert("push"@.len() == 4 && "push"@[0] == 'p' && "push"@[1] == 'u' && "push"@[2] == 's' && "push"@[3] == 'h');
    assert("pop"@.len() == 3 && "pop"@[0] == 'p' && "pop"@[1] == 'o' && "pop"@[2] == 'p');
    assert("mov"@.len() == 3 && "mov"@[0] == 'm' && "mov"@[1] == 'o' && "mov"@[2] == 'v');
    assert("call"@.len() == 4 && "call"@[0] == 'c' && "call"@[1] == 'a' && "call"@[2] == 'l' && "call"@[3] == 'l');
    assert("ret"@.len() == 3 && "ret"@[0] == 'r' && "ret"@[1] == 'e' && "ret"@[2] == 't');
    assert("ext"@.len() == 3 && "ext"@[0] == 'e' && "ext"@[1] == 'x' && "ext"@[2] == 't');
    assert("and"@.len() == 3 && "and"@[0] == 'a' && "and"@[1] == 'n' && "and"@[2] == 'd');
    assert("or"@.len() == 2 && "or"@[0] == 'o' && "or"@[1] == 'r');
    assert("xor"@.len() == 3 && "xor"@[0] == 'x' && "xor"@[1] == 'o' && "xor"@[2] == 'r');
    assert("not"@.len() == 3 && "not"@[0] == 'n' && "not"@[1] == 'o' && "not"@[2] == 't');
    assert("shl"@.len() == 3 && "shl"@[0] == 's' && "shl"@[1] == 'h' && "shl"@[2] == 'l');
    assert("shr"@.len() == 3 && "shr"@[0] == 's' && "shr"@[1] == 'h' && "shr"@[2] == 'r');
    assert("add"@.len() == 3 && "add"@[0] == 'a' && "add"@[1] == 'd' && "add"@[2] == 'd');
    assert("sub"@.len() == 3 && "sub"@[0] == 's' && "sub"@[1] == 'u' && "sub"@[2] == 'b');
    assert("mul"@.len() == 3 && "mul"@[0] == 'm' && "mul"@[1] == 'u' && "mul"@[2] == 'l');
    assert("div"@.len() == 3 && "div"@[0] == 'd' && "div"@[1] == 'i' && "div"@[2] == 'v');
    assert("mod"@.len() == 3 && "mod"@[0] == 'm' && "mod"@[1] == 'o' && "mod"@[2] == 'd');
    assert("jmp"@.len() == 3 && "jmp"@[0] == 'j' && "jmp"@[1] == 'm' && "jmp"@[2] == 'p');
    assert("je"@.len() == 2 && "je"@[0] == 'j' && "je"@[1] == 'e');
    assert("jne"@.len() == 3 && "jne"@[0] == 'j' && "jne"@[1] == 'n' && "jne"@[2] == 'e');
    assert("jl"@.len() == 2 && "jl"@[0] == 'j' && "jl"@[1] == 'l');
    assert("jle"@.len() == 3 && "jle"@[0] == 'j' && "jle"@[1] == 'l' && "jle"@[2] == 'e');
    assert("jg"@.len() == 2 && "jg"@[0] == 'j' && "jg"@[1] == 'g');
    assert("jge"@.len() == 3 && "jge"@[0] == 'j' && "jge"@[1] == 'g' && "jge"@[2] == 'e');
}

/// A jump resolves through the table alone: a run that stands at `jmp`
/// goes on from the index registered under the label, be the label declared
/// before the jump or after it.
pub proof fn law_jump_resolves_by_table(
    code: Seq<Op>,
    m: Machine,
    labels: Seq<(String, usize)>,
    hosts: Seq<String>,
    fuel: nat,
    label: Seq<char>,
    target: usize,
)
    requires
        m.ip < code.len(),
        code[m.ip as int] == (Op::Jump { label: label }),
        label_target(labels, label) == Some(target),
        fuel > 0,
    ensures
        run_spec(code, m, labels, hosts, fuel) == run_spec(
            code,
            Machine { ip: target, ..m },
            labels,
            hosts,
            (fuel - 1) as nat,
        ),
{
}

/// A run that meets a jump to a label that was never declared halts with
/// the error that names the label.
pub proof fn law_unresolved_jump_halts(
    code: Seq<Op>,
    m: Machine,
    labels: Seq<(String, usize)>,
    hosts: Seq<String>,
    fuel: nat,
    label: Seq<char>,
)
    requires
        m.ip < code.len(),
        code[m.ip as int] == (Op::Jump { label: label }),
        label_target(labels, label) is None,
        fuel > 0,
    ensures
        run_spec(code, m, labels, hosts, fuel) is Failed,
        run_spec(code, m, labels, hosts, fuel)->Failed_1 == (Fault::NonExistent {
            typename: "label"@,
            value: label,
        }),
{
}

/// `ret` without a `call` before it halts the run with an error.
pub proof fn law_return_needs_call(m: Machine, labels: Seq<(String, usize)>, hosts: Seq<String>)
    requires
        m.calls.len() == 0,
    ensures
        Op::Ret.step(m, labels, hosts) == Err::<(Machine, Step), Fault>(
            Fault::Generic(empty_return_message()),
        ),
{
}

/// Only jumps, calls and returns move the instruction pointer or touch the
/// call stack: after any other instruction the run goes on with the next
/// one in the program.
pub proof fn law_only_control_transfers_move(
    op: Op,
    m: Machine,
    labels: Seq<(String, usize)>,
    hosts: Seq<String>,
)
    requires
        op.step(m, labels, hosts) is Ok,
        !(op is Jump) && !(op is Branch) && !(op is Call) && !(op is Ret),
    ensures
        op.step(m, labels, hosts)->Ok_0.0.ip == m.ip,
        op.step(m, labels, hosts)->Ok_0.0.calls == m.calls,
{
}

/// A run stops at once where the instruction pointer has left the program,
/// and leaves the machine as it is.
pub proof fn law_run_ends_past_program(
    code: Seq<Op>,
    m: Machine,
    labels: Seq<(String, usize)>,
    hosts: Seq<String>,
    fuel: nat,
)
    requires
        m.ip >= code.len(),
    ensures
        run_spec(code, m, labels, hosts, fuel) == Run::Finished(m),
{
}

} // verus!
