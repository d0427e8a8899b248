//! The state of one run: the bit memory, the call stack, the instruction
//! pointer, and what the host routines share.

use crate::assembler::Assembler;
use crate::bignum::{bit_length, decimal_text, mpz_to_decimal, mpz_value};
use crate::error::{fails_with, ErrorType, Fault};
use crate::isa::{empty_return_message, jump_to, pop_message, Machine};
use crate::util::{bignum_to_boolvec, bits_value, boolvec_to_bignum, int_bits};
use gmp::mpz::Mpz;
use gmp::rand::RandState;
use vstd::arithmetic::div_mod::lemma_div_denominator;
use vstd::arithmetic::power2::{lemma2_to64, lemma_pow2_pos, lemma_pow2_unfold, pow2};
use vstd::prelude::*;
use vstd::string::*;

verus! {

/// GMP's random number generator, `gmp::rand::RandState`, taken as it is:
/// nothing inside it is seen.
#[verifier::external_type_specification]
#[verifier::external_body]
pub struct ExRandState(gmp::rand::RandState);

/// `RandState::new`: GMP's default generator, not yet seeded by the caller.
#[verifier::external_body]
pub(crate) fn rand_new() -> RandState {
    RandState::new()
}

/// `RandState::seed_ui`: seeds the generator.
#[verifier::external_body]
pub(crate) fn rand_seed(state: &mut RandState, seed: u64) {
    state.seed_ui(seed)
}

/// `RandState::urandom`: a draw from 0 up to, not including, `bound`. GMP
/// divides by `bound`, so zero is left out; which number comes is not said.
#[verifier::external_body]
pub(crate) fn rand_below(state: &mut RandState, bound: &Mpz) -> (drawn: Mpz)
    requires
        mpz_value(*bound) > 0,
    ensures
        0 <= mpz_value(drawn) < mpz_value(*bound),
{
    state.urandom(bound)
}

/// `time::get_time`: the seconds of the wall clock, as the machine has it.
#[verifier::external_body]
pub(crate) fn clock_seconds() -> i64 {
    time::get_time().sec
}

/// Memory `mem` after `len` cells from `pos` on were overwritten with `src`,
/// a source shorter than `len` counting as zero on its high side.
pub open spec fn overwritten(mem: Seq<bool>, pos: int, len: int, src: Seq<bool>) -> Seq<bool> {
    Seq::new(
        mem.len(),
        |i: int|
            if pos <= i < pos + len {
                if i - pos < src.len() {
                    src[i - pos]
                } else {
                    false
                }
            } else {
                mem[i]
            },
    )
}

/// The first `n` groups of `width` cells of `mem`, each as a decimal number
/// followed by a comma and a blank.
pub open spec fn groups_text(mem: Seq<bool>, width: int, n: int) -> Seq<char>
    decreases n,
{
    if n <= 0 {
        Seq::empty()
    } else {
        groups_text(mem, width, n - 1) + decimal_text(
            bits_value(mem.subrange((n - 1) * width, n * width)) as int,
        ) + ", "@
    }
}

/// The state of one run.
pub struct Environment {
    /// The bit memory, cell 0 first. It grows and shrinks at its end only.
    pub stack: Vec<bool>,
    /// The instruction pointers that `call` has saved, the oldest first.
    pub callstack: Vec<usize>,
    /// The index of the instruction to run next.
    pub instruction: usize,
    /// Whether the input read last held a number.
    pub validity: bool,
    /// The input that the host has read last.
    pub input_string: String,
    /// The generator that `random` draws from.
    pub randstate: RandState,
}

impl View for Environment {
    type V = Machine;

    open spec fn view(&self) -> Machine {
        Machine { mem: self.stack@, calls: self.callstack@, ip: self.instruction }
    }
}

impl Environment {
    /// The bit memory, cell 0 first.
    pub open spec fn memory(&self) -> Seq<bool> {
        self.stack@
    }

    /// The saved instruction pointers, the oldest first.
    pub open spec fn calls(&self) -> Seq<usize> {
        self.callstack@
    }

    /// Whether `self` and `other` differ in nothing but the memory.
    pub open spec fn same_but_memory(&self, other: &Environment) -> bool {
        &&& self.calls() == other.calls()
        &&& self.instruction == other.instruction
        &&& self.validity == other.validity
        &&& self.input_string == other.input_string
        &&& self.randstate == other.randstate
    }

    /// Whether `self` and `other` agree in what the host routines share:
    /// the validity flag, the input buffer and the generator.
    pub open spec fn same_host(&self, other: &Environment) -> bool {
        &&& self.validity == other.validity
        &&& self.input_string == other.input_string
        &&& self.randstate == other.randstate
    }

    /// An empty machine at instruction 0, its generator seeded from the clock.
    pub fn new() -> (env: Environment)
        ensures
            env.memory() == Seq::<bool>::empty(),
            env.calls() == Seq::<usize>::empty(),
            env.instruction == 0,
            env.validity,
            env.input_string@ == Seq::<char>::empty(),
    {
        let mut ret = Environment {
            stack: Vec::new(),
            callstack: Vec::new(),
            instruction: 0,
            validity: true,
            input_string: String::new(),
            randstate: rand_new(),
        };
        let seconds = clock_seconds();
        rand_seed(&mut ret.randstate, seconds as u64);
        ret
    }

    /// How many cells the memory holds.
    pub fn stack_len(&self) -> (len: usize)
        ensures
            len == self.memory().len(),
    {
        self.stack.len()
    }

    /// Appends `bits` cells holding `value`.
    pub fn push(&mut self, bits: usize, value: bool)
        requires
            old(self).memory().len() + bits <= usize::MAX,
        ensures
            final(self).memory() == old(self).memory() + Seq::new(bits as nat, |i: int| value),
            final(self).same_but_memory(old(self)),
    {
        let mut i: usize = 0;
        while i < bits
            invariant
                i <= bits,
                old(self).stack@.len() + bits <= usize::MAX,
                self.stack@ == old(self).stack@ + Seq::new(i as nat, |i: int| value),
                self.same_but_memory(old(self)),
            decreases bits - i,
        {
            self.stack.push(value);
            i += 1;
            proof {
                assert(self.stack@ =~= old(self).stack@ + Seq::new(i as nat, |i: int| value));
            }
        }
    }

    /// Removes the last `bits` cells. Asking for more cells than there are
    /// is an error, and removes none.
    pub fn pop(&mut self, bits: usize) -> (r: Result<(), ErrorType>)
        ensures
            final(self).same_but_memory(old(self)),
            bits <= old(self).memory().len() ==> r is Ok && final(self).memory() == old(
                self,
            ).memory().take(old(self).memory().len() - bits),
            bits > old(self).memory().len() ==> fails_with(r, Fault::Generic(pop_message()))
                && final(self).memory() == old(self).memory(),
    {
        let len = self.stack.len();
        if bits > len {
            return Err(
                ErrorType::Generic(String::from_str("Attempt to pop more than memory holds!")),
            );
        }
        self.stack.truncate(len - bits);
        Ok(())
    }

    /// The cells from `start` up to `end`.
    pub fn slice(&self, start: usize, end: usize) -> (cells: &[bool])
        requires
            start <= end <= self.memory().len(),
        ensures
            cells@ == self.memory().subrange(start as int, end as int),
    {
        let all = self.stack.as_slice();
        &all[start..end]
    }

    /// The memory as text: its cells in groups of `bits_per_byte`, each group
    /// as a number; cells that do not fill a group are left out.
    pub fn print_bytes(&self, bits_per_byte: usize) -> (text: String)
        requires
            bits_per_byte > 0,
        ensures
            text@ == groups_text(
                self.memory(),
                bits_per_byte as int,
                self.memory().len() as int / bits_per_byte as int,
            ),
    {
        let count = self.stack_len() / bits_per_byte;
        let mut text = String::new();
        let mut i: usize = 0;
        while i < count
            invariant
                i <= count,
                bits_per_byte > 0,
                self.memory().len() <= usize::MAX,
                count == self.memory().len() as int / bits_per_byte as int,
                text@ == groups_text(self.memory(), bits_per_byte as int, i as int),
            decreases count - i,
        {
            proof {
                let total = self.memory().len() as int;
                let w = bits_per_byte as int;
                assert((i + 1) * w <= total) by (nonlinear_arith)
                    requires
                        i + 1 <= total / w,
                        w > 0,
                        total >= 0,
                ;
                assert(i * w <= (i + 1) * w) by (nonlinear_arith)
                    requires
                        w > 0,
                        i >= 0,
                ;
            }
            let bits = self.slice(i * bits_per_byte, (i + 1) * bits_per_byte);
            let num = boolvec_to_bignum(bits);
            let shown = mpz_to_decimal(&num);
            text.append(shown.as_str());
            text.append(", ");
            i += 1;
        }
        text
    }

    /// Overwrites `len` cells from `pos` on with `num`, zero where `num` is shorter.
    pub fn set_bits_boolvec(&mut self, num: &[bool], pos: usize, len: usize)
        requires
            pos + len <= old(self).memory().len(),
        ensures
            final(self).memory() == overwritten(old(self).memory(), pos as int, len as int, num@),
            final(self).same_but_memory(old(self)),
    {
        let total = self.stack.len();
        let mut i: usize = 0;
        while i < len
            invariant
                i <= len,
                pos + len <= old(self).stack@.len(),
                self.stack@.len() == old(self).stack@.len(),
                self.stack@.len() == total,
                self.stack@ == overwritten(old(self).stack@, pos as int, i as int, num@),
                self.same_but_memory(old(self)),
            decreases len - i,
        {
            let bit = if i < num.len() {
                num[i]
            } else {
                false
            };
            self.stack.set(pos + i, bit);
            i += 1;
            proof {
                assert(self.stack@ =~= overwritten(old(self).stack@, pos as int, i as int, num@));
            }
        }
    }

    /// Overwrites `len` cells from `pos` on with the binary digits of `num`,
    /// least significant first.
    pub fn set_bits_usize(&mut self, num: usize, pos: usize, len: usize)
        requires
            pos + len <= old(self).memory().len(),
        ensures
            final(self).memory() == overwritten(
                old(self).memory(),
                pos as int,
                len as int,
                int_bits(num as int, len as nat),
            ),
            final(self).same_but_memory(old(self)),
    {
        let total = self.stack.len();
        let mut i: usize = 0;
        let mut rest: usize = num;
        proof {
            lemma2_to64();
            assert(num as int / 1 == num as int);
        }
        while i < len
            invariant
                i <= len,
                pos + len <= old(self).stack@.len(),
                self.stack@.len() == old(self).stack@.len(),
                self.stack@.len() == total,
                rest == num as int / (pow2(i as nat) as int),
                self.stack@ == overwritten(
                    old(self).stack@,
                    pos as int,
                    i as int,
                    int_bits(num as int, len as nat),
                ),
                self.same_but_memory(old(self)),
            decreases len - i,
        {
            proof {
                lemma_pow2_pos(i as nat);
                lemma_pow2_unfold((i + 1) as nat);
                lemma_div_denominator(num as int, pow2(i as nat) as int, 2);
            }
            self.stack.set(pos + i, rest % 2 == 1);
            rest /= 2;
            i += 1;
            proof {
                assert(self.stack@ =~= overwritten(
                    old(self).stack@,
                    pos as int,
                    i as int,
                    int_bits(num as int, len as nat),
                ));
            }
        }
    }

    /// Overwrites `len` cells from `pos` on with the digits that GMP counts
    /// for `num`, least significant first, and zero above them.
    pub fn set_bits_bignum(&mut self, num: &Mpz, pos: usize, len: usize)
        requires
            pos + len <= old(self).memory().len(),
        ensures
            final(self).memory() == overwritten(
                old(self).memory(),
                pos as int,
                len as int,
                int_bits(mpz_value(*num), bit_length(mpz_value(*num))),
            ),
            final(self).same_but_memory(old(self)),
    {
        let bits = bignum_to_boolvec(num);
        self.set_bits_boolvec(bits.as_slice(), pos, len);
    }

    /// Saves the instruction pointer and jumps to the label `name`.
    pub fn call(&mut self, assembler: &Assembler, name: &str) -> (r: Result<(), ErrorType>)
        ensures
            final(self).same_host(old(self)),
            match jump_to(old(self)@, assembler.labels@, name@) {
                Ok(next) => r is Ok && final(self)@ == (Machine {
                    calls: old(self)@.calls.push(old(self)@.ip),
                    ..next
                }),
                Err(f) => fails_with(r, f) && final(self)@ == old(self)@,
            },
    {
        match assembler.find_label(name) {
            Some(target) => {
                self.callstack.push(self.instruction);
                self.instruction = target;
                Ok(())
            },
            None => Err(
                ErrorType::NonExistent {
                    typename: String::from_str("label"),
                    value: String::from_str(name),
                },
            ),
        }
    }

    /// Jumps back to the instruction pointer saved last.
    pub fn ret(&mut self) -> (r: Result<(), ErrorType>)
        ensures
            final(self).same_host(old(self)),
            old(self)@.calls.len() > 0 ==> r is Ok && final(self)@ == (Machine {
                ip: old(self)@.calls.last(),
                calls: old(self)@.calls.drop_last(),
                ..old(self)@
            }),
            old(self)@.calls.len() == 0 ==> fails_with(r, Fault::Generic(empty_return_message()))
                && final(self)@ == old(self)@,
    {
        match self.callstack.pop() {
            Some(pos) => {
                self.instruction = pos;
                Ok(())
            },
            None => Err(
                ErrorType::Generic(String::from_str("Attempt to return on empty call stack!")),
            ),
        }
    }

    /// Jumps to the label `name`.
    pub fn goto(&mut self, assembler: &Assembler, name: &str) -> (r: Result<(), ErrorType>)
        ensures
            final(self).same_host(old(self)),
            match jump_to(old(self)@, assembler.labels@, name@) {
                Ok(next) => r is Ok && final(self)@ == next,
                Err(f) => fails_with(r, f) && final(self)@ == old(self)@,
            },
    {
        match assembler.find_label(name) {
            Some(target) => {
                self.instruction = target;
                Ok(())
            },
            None => Err(
                ErrorType::NonExistent {
                    typename: String::from_str("label"),
                    value: String::from_str(name),
                },
            ),
        }
    }
}

} // verus!
