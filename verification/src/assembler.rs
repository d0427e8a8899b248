//! The assembler: it turns source lines into the program and its label
//! table, and runs the program on a machine.

use crate::environment::Environment;
use crate::error::{arity_fault, fails_with, ArgumentType, Error, ErrorType, Fault};
use crate::instruction::{assemble, create_instruction, texts, Instruction};
use crate::isa::{is_registered, label_target, Machine, Op, Step};
use crate::text::{
    after_first_word, char_is_whitespace, chars_to_string, first_word, is_whitespace, join_from,
    joined, slice_chars, split_first_word, split_words, str_to_chars, trim, trimmed, views, words,
};
use crate::util::{before_char, bytes_bits, char_to_boolvec, remove_comments};
use vstd::prelude::*;
use vstd::string::*;
use vstd::utf8::encode_utf8;

verus! {

/// The assembler: the program assembled so far and the tables it is
/// assembled with.
pub struct Assembler {
    /// The program, in the order its instructions were assembled.
    pub code: Vec<Instruction>,
    /// Each label with the index of the instruction that followed its
    /// declaration; of two declarations of one name the later counts.
    pub labels: Vec<(String, usize)>,
    /// Each definition with its replacement, in the order given; of two
    /// definitions of one name the earlier counts.
    pub defines: Vec<(String, String)>,
    /// The names under which the host has registered external routines.
    pub ext_calls: Vec<String>,
    /// Whether the host wants each instruction reported as it is assembled.
    pub print_parsed: bool,
}

/// Whether `a` and `b` are the same text.
pub fn same_text(a: &str, b: &str) -> (same: bool)
    ensures
        same == (a@ == b@),
{
    let left = String::from_str(a);
    let right = String::from_str(b);
    left == right
}

/// Appends `more` to `out`.
pub fn push_all(out: &mut Vec<char>, more: &Vec<char>)
    ensures
        final(out)@ == old(out)@ + more@,
{
    let mut k: usize = 0;
    proof {
        assert(out@ =~= old(out)@ + more@.take(0));
    }
    while k < more.len()
        invariant
            k <= more@.len(),
            out@ == old(out)@ + more@.take(k as int),
        decreases more@.len() - k,
    {
        out.push(more[k]);
        k += 1;
        proof {
            assert(out@ =~= old(out)@ + more@.take(k as int));
        }
    }
    proof {
        assert(more@.take(k as int) =~= more@);
    }
}

/// The digits `0` and `1` that spell `bits`.
pub open spec fn bit_chars(bits: Seq<bool>) -> Seq<char> {
    Seq::new(
        bits.len(),
        |i: int|
            if bits[i] {
                '1'
            } else {
                '0'
            },
    )
}

/// The character that stands behind a backslash inside a quoted text: `n`
/// is the line feed, `t` the tab, and any other is itself.
pub open spec fn unescaped(c: char) -> char {
    if c == 'n' {
        '\n'
    } else if c == 't' {
        '\t'
    } else {
        c
    }
}

/// Where the scan for quoted texts stands.
pub struct StringScan {
    /// What has been written out.
    pub out: Seq<char>,
    /// Whether the scan is inside a quoted text.
    pub in_string: bool,
    /// Whether the last character was a backslash that escapes the next.
    pub escaped: bool,
}

/// The scan after one more character. An opening quote becomes `b`; inside
/// the quotes each character becomes the bits of its UTF-8 encoding, most
/// significant bit first; outside of them a character stays as it is.
pub open spec fn string_step(st: StringScan, c: char) -> StringScan {
    if !st.in_string && c == '"' {
        StringScan { out: st.out.push('b'), in_string: true, escaped: false }
    } else if st.in_string {
        if c == '\\' && !st.escaped {
            StringScan { escaped: true, ..st }
        } else if c == '"' && !st.escaped {
            StringScan { in_string: false, ..st }
        } else {
            let shown = if st.escaped {
                unescaped(c)
            } else {
                c
            };
            StringScan {
                out: st.out + bit_chars(bytes_bits(encode_utf8(seq![shown]))),
                escaped: false,
                ..st
            }
        }
    } else {
        StringScan { out: st.out.push(c), ..st }
    }
}

/// The scan for quoted texts over the first `n` characters of `line`.
pub open spec fn string_scan(line: Seq<char>, n: int) -> StringScan
    decreases n,
{
    if n <= 0 {
        StringScan { out: Seq::empty(), in_string: false, escaped: false }
    } else {
        string_step(string_scan(line, n - 1), line[n - 1])
    }
}

/// `line` with each quoted text replaced by literal bits.
pub open spec fn encoded_strings(line: Seq<char>) -> Seq<char> {
    string_scan(line, line.len() as int).out
}

/// Replaces each quoted text in `line` by literal bits.
pub fn parse_strings(line: &Vec<char>) -> (new_line: Vec<char>)
    ensures
        new_line@ == encoded_strings(line@),
{
    let mut new_line: Vec<char> = Vec::new();
    let mut is_literal_char = false;
    let mut is_in_stringval = false;
    let mut i: usize = 0;
    while i < line.len()
        invariant
            i <= line@.len(),
            string_scan(line@, i as int) == (StringScan {
                out: new_line@,
                in_string: is_in_stringval,
                escaped: is_literal_char,
            }),
        decreases line@.len() - i,
    {
        let c = line[i];
        i += 1;
        if !is_in_stringval && c == '"' {
            is_in_stringval = true;
            is_literal_char = false;
            new_line.push('b');
        } else if is_in_stringval {
            if c == '\\' && !is_literal_char {
                is_literal_char = true;
            } else if c == '"' && !is_literal_char {
                is_in_stringval = false;
            } else {
                let mut char_add = c;
                if is_literal_char {
                    char_add = if c == 'n' {
                        '\n'
                    } else if c == 't' {
                        '\t'
                    } else {
                        c
                    };
                    is_literal_char = false;
                }
                let bits = char_to_boolvec(char_add);
                let ghost base = new_line@;
                let mut k: usize = 0;
                while k < bits.len()
                    invariant
                        k <= bits@.len(),
                        new_line@ == base + bit_chars(bits@).take(k as int),
                    decreases bits@.len() - k,
                {
                    new_line.push(
                        if bits[k] {
                            '1'
                        } else {
                            '0'
                        },
                    );
                    k += 1;
                    proof {
                        assert(new_line@ =~= base + bit_chars(bits@).take(k as int));
                    }
                }
                proof {
                    assert(bit_chars(bits@).take(k as int) =~= bit_chars(bits@));
                }
            }
        } else {
            new_line.push(c);
        }
    }
    new_line
}

/// Whether `c` parts two tokens: white space, or one of `, [ ] : - < >`.
pub open spec fn is_separator(c: char) -> bool {
    is_whitespace(c) || c == ',' || c == '[' || c == ']' || c == ':' || c == '-' || c == '<' || c
        == '>'
}

/// Tells whether `c` parts two tokens.
pub fn char_is_separator(c: char) -> (b: bool)
    ensures
        b == is_separator(c),
{
    char_is_whitespace(c) || c == ',' || c == '[' || c == ']' || c == ':' || c == '-' || c == '<'
        || c == '>'
}

/// What stands for the token `word`: the replacement of the first
/// definition of that name, or the token itself where none has it.
pub open spec fn replacement(defines: Seq<(String, String)>, word: Seq<char>) -> Seq<char>
    decreases defines.len(),
{
    if defines.len() == 0 {
        word
    } else if defines[0].0@ == word {
        defines[0].1@
    } else {
        replacement(defines.drop_first(), word)
    }
}

/// Where the scan for tokens stands.
pub struct DefineScan {
    /// What has been written out: the tokens so far, replaced, each with
    /// the separator that followed it.
    pub out: Seq<char>,
    /// The token that is being read.
    pub token: Seq<char>,
}

/// The scan for tokens over the first `n` characters of `line`: at each
/// separator the token before it is written out, replaced, and the
/// separator after it.
pub open spec fn define_scan(line: Seq<char>, defines: Seq<(String, String)>, n: int) -> DefineScan
    decreases n,
{
    if n <= 0 {
        DefineScan { out: Seq::empty(), token: Seq::empty() }
    } else {
        let st = define_scan(line, defines, n - 1);
        let c = line[n - 1];
        if is_separator(c) {
            DefineScan {
                out: st.out + replacement(defines, st.token) + seq![c],
                token: Seq::empty(),
            }
        } else {
            DefineScan { token: st.token.push(c), ..st }
        }
    }
}

/// `line` with each token replaced by what the definitions give for it,
/// the separators between the tokens kept as they are.
pub open spec fn substituted(line: Seq<char>, defines: Seq<(String, String)>) -> Seq<char> {
    let st = define_scan(line, defines, line.len() as int);
    st.out + replacement(defines, st.token)
}

/// Where the scan for arguments stands.
pub struct ArgumentScan {
    /// The arguments read so far.
    pub done: Seq<Seq<char>>,
    /// The piece that is being read.
    pub piece: Seq<char>,
}

/// `done` with `piece` added, trimmed, unless nothing is left of it then.
pub open spec fn with_piece(done: Seq<Seq<char>>, piece: Seq<char>) -> Seq<Seq<char>> {
    if trimmed(piece).len() == 0 {
        done
    } else {
        done.push(trimmed(piece))
    }
}

/// The scan for arguments over the first `n` characters of `text`: a comma
/// ends a piece.
pub open spec fn argument_scan(text: Seq<char>, n: int) -> ArgumentScan
    decreases n,
{
    if n <= 0 {
        ArgumentScan { done: Seq::empty(), piece: Seq::empty() }
    } else {
        let st = argument_scan(text, n - 1);
        if text[n - 1] == ',' {
            ArgumentScan { done: with_piece(st.done, st.piece), piece: Seq::empty() }
        } else {
            ArgumentScan { piece: st.piece.push(text[n - 1]), ..st }
        }
    }
}

/// The arguments in `text`: its pieces between commas, each trimmed, the
/// empty ones left out.
pub open spec fn arguments(text: Seq<char>) -> Seq<Seq<char>> {
    let st = argument_scan(text, text.len() as int);
    with_piece(st.done, st.piece)
}

/// Splits `text` into its arguments.
pub fn split_arguments(text: &Vec<char>) -> (args: Vec<String>)
    ensures
        texts(args@) == arguments(text@),
{
    let mut args: Vec<String> = Vec::new();
    let mut piece: Vec<char> = Vec::new();
    let mut i: usize = 0;
    proof {
        assert(texts(args@) =~= Seq::<Seq<char>>::empty());
    }
    while i < text.len()
        invariant
            i <= text@.len(),
            argument_scan(text@, i as int) == (ArgumentScan {
                done: texts(args@),
                piece: piece@,
            }),
        decreases text@.len() - i,
    {
        let c = text[i];
        i += 1;
        if c == ',' {
            let cut = trim(&piece);
            if cut.len() > 0 {
                let ghost before = texts(args@);
                args.push(chars_to_string(&cut, 0, cut.len()));
                proof {
                    assert(cut@.subrange(0, cut@.len() as int) =~= cut@);
                    assert(texts(args@) =~= before.push(cut@));
                }
            }
            piece = Vec::new();
        } else {
            piece.push(c);
        }
    }
    let cut = trim(&piece);
    if cut.len() > 0 {
        let ghost before = texts(args@);
        args.push(chars_to_string(&cut, 0, cut.len()));
        proof {
            assert(cut@.subrange(0, cut@.len() as int) =~= cut@);
            assert(texts(args@) =~= before.push(cut@));
        }
    }
    args
}

/// What a source line turned out to be.
#[derive(Debug, PartialEq, Eq)]
pub enum Parsed {
    /// Nothing but white space and comment.
    Blank,
    /// A definition, which is now in the table.
    Define,
    /// A request for the lines of the file of this name: the host is to read
    /// them and hand each to the assembler, numbered from 1, under this name.
    Include(String),
    /// A label, which is now in the table.
    Label,
    /// An instruction, which is now the last of the program, with the name
    /// and the arguments it was assembled from.
    Instruction { name: String, arguments: Vec<String> },
}

/// An error with the line it was met on.
pub struct Report {
    pub kind: ErrorType,
    pub place: Error,
}

/// How a run came to a stop.
#[derive(Clone, Copy, Debug, PartialEq, Eq, Structural)]
pub enum Halt {
    /// The instruction pointer has left the program.
    Finished,
    /// The instruction at this index asks for its external routine: the host
    /// is to run it and then to go on with the run.
    Host(usize),
    /// The steps asked for are done and the program is not.
    Paused,
}

/// What a source line is, as mathematics.
pub enum Line {
    Blank,
    Define { name: Seq<char>, text: Seq<char> },
    Include { path: Seq<char> },
    Label { name: Seq<char> },
    Instruction { name: Seq<char>, arguments: Seq<Seq<char>>, op: Op },
    Wrong(Fault),
}

/// How a run comes to a stop, as mathematics, with the machine it leaves.
pub enum Run {
    Finished(Machine),
    Host(Machine, usize),
    Paused(Machine),
    Failed(Machine, Fault),
}

/// What the errors call a directive.
pub open spec fn macro_kind() -> Seq<char> {
    "macro"@
}

/// The names under which the routines that every host offers are registered.
pub open spec fn builtin_names() -> Seq<Seq<char>> {
    seq![
        "printnum"@,
        "print"@,
        "valid"@,
        "prompt"@,
        "inputnumlen"@,
        "inputlen"@,
        "input"@,
        "inputnum"@,
        "random"@,
    ]
}

/// A raw line without its comment and the white space around what is left.
pub open spec fn clean_line(raw: Seq<char>) -> Seq<char> {
    trimmed(before_char(raw, ';'))
}

/// What a directive line, which starts with `!`, asks for.
pub open spec fn read_directive(line: Seq<char>) -> Line {
    let text = trimmed(line.skip(1));
    let all = words(text);
    if all.len() == 0 {
        Line::Wrong(Fault::Empty(macro_kind()))
    } else {
        let name = all[0];
        let args = all.skip(1);
        if name == "define"@ {
            if args.len() < 2 {
                Line::Wrong(
                    arity_fault(macro_kind(), name, args.len() as usize, ArgumentType::AtLeast(2)),
                )
            } else {
                Line::Define { name: args[0], text: joined(args.skip(1), ' ') }
            }
        } else if name == "include"@ {
            if args.len() < 1 {
                Line::Wrong(
                    arity_fault(macro_kind(), name, args.len() as usize, ArgumentType::AtLeast(1)),
                )
            } else {
                Line::Include { path: trimmed(after_first_word(text)) }
            }
        } else {
            Line::Wrong(Fault::NonExistent { typename: macro_kind(), value: name })
        }
    }
}

/// What an instruction line is, the definitions already applied to it: its
/// first word names the instruction, and what follows holds the arguments.
pub open spec fn read_instruction(line: Seq<char>) -> Line {
    if first_word(line).len() == 0 {
        Line::Blank
    } else {
        let name = first_word(line);
        let args = arguments(trimmed(after_first_word(line)));
        match assemble(name, args) {
            Ok(op) => Line::Instruction { name: name, arguments: args, op: op },
            Err(f) => Line::Wrong(f),
        }
    }
}

/// What the raw line `raw` is under the definitions `defines`. The comment
/// goes first, then quoted texts become literal bits; a line that then
/// starts with `!` is a directive, one that starts with `.` a label, and
/// any other an instruction, to which alone the definitions apply.
pub open spec fn read_line(raw: Seq<char>, defines: Seq<(String, String)>) -> Line {
    let line = encoded_strings(clean_line(raw));
    if line.len() > 0 && line[0] == '!' {
        read_directive(line)
    } else if line.len() > 0 && line[0] == '.' {
        Line::Label { name: line.skip(1) }
    } else {
        read_instruction(substituted(line, defines))
    }
}

/// The forms of the instructions of a program.
pub open spec fn program(code: Seq<Instruction>) -> Seq<Op> {
    Seq::new(code.len(), |i: int| code[i]@)
}

/// A run of at most `fuel` steps from the machine `m`. Each step fetches
/// the instruction that the instruction pointer names, advances the pointer
/// by one and then lets the instruction act.
pub open spec fn run_spec(
    code: Seq<Op>,
    m: Machine,
    labels: Seq<(String, usize)>,
    hosts: Seq<String>,
    fuel: nat,
) -> Run
    decreases fuel,
{
    if m.ip >= code.len() {
        Run::Finished(m)
    } else if fuel == 0 {
        Run::Paused(m)
    } else {
        let fetched = Machine { ip: (m.ip + 1) as usize, ..m };
        match code[m.ip as int].step(fetched, labels, hosts) {
            Err(f) => Run::Failed(fetched, f),
            Ok((next, Step::Host)) => Run::Host(next, m.ip),
            Ok((next, Step::Next)) => run_spec(code, next, labels, hosts, (fuel - 1) as nat),
        }
    }
}

/// Whether the assembler `after` and the outcome `r` are what the line
/// `line` asks of the assembler `before`: a definition, a label or an
/// instruction is added at the end of its table, and nothing else changes;
/// an error changes nothing.
pub open spec fn applied(
    before: &Assembler,
    after: &Assembler,
    line: Line,
    r: Result<Parsed, ErrorType>,
) -> bool {
    &&& after.ext_calls == before.ext_calls
    &&& after.print_parsed == before.print_parsed
    &&& match line {
        Line::Wrong(f) => fails_with(r, f) && after.code == before.code && after.labels
            == before.labels && after.defines == before.defines,
        Line::Blank => r matches Ok(Parsed::Blank) && after.code == before.code && after.labels
            == before.labels && after.defines == before.defines,
        Line::Include { path } => {
            &&& match r {
                Ok(Parsed::Include(p)) => p@ == path,
                _ => false,
            }
            &&& after.code == before.code
            &&& after.labels == before.labels
            &&& after.defines == before.defines
        },
        Line::Define { name, text } => {
            &&& r matches Ok(Parsed::Define)
            &&& after.code == before.code
            &&& after.labels == before.labels
            &&& after.defines@.len() == before.defines@.len() + 1
            &&& after.defines@.drop_last() == before.defines@
            &&& after.defines@.last().0@ == name
            &&& after.defines@.last().1@ == text
        },
        Line::Label { name } => {
            &&& r matches Ok(Parsed::Label)
            &&& after.code == before.code
            &&& after.defines == before.defines
            &&& after.labels@.len() == before.labels@.len() + 1
            &&& after.labels@.drop_last() == before.labels@
            &&& after.labels@.last().0@ == name
            &&& after.labels@.last().1 == before.code@.len()
        },
        Line::Instruction { name, arguments, op } => {
            &&& match r {
                Ok(Parsed::Instruction { name: n, arguments: a }) => n@ == name && texts(a@)
                    == arguments,
                _ => false,
            }
            &&& after.labels == before.labels
            &&& after.defines == before.defines
            &&& program(after.code@) == program(before.code@).push(op)
        },
    }
}

/// The outcome `r` without the place of its error.
pub open spec fn without_place(r: Result<Parsed, Report>) -> Result<Parsed, ErrorType> {
    match r {
        Ok(p) => Ok(p),
        Err(report) => Err(report.kind),
    }
}

impl Assembler {
    /// The index registered under the label `name`.
    pub fn find_label(&self, name: &str) -> (target: Option<usize>)
        ensures
            target == label_target(self.labels@, name@),
    {
        let mut i: usize = self.labels.len();
        proof {
            assert(self.labels@.take(i as int) =~= self.labels@);
        }
        while i > 0
            invariant
                i <= self.labels@.len(),
                label_target(self.labels@, name@) == label_target(self.labels@.take(i as int), name@),
            decreases i,
        {
            proof {
                let seen = self.labels@.take(i as int);
                assert(seen.drop_last() =~= self.labels@.take(i - 1));
                assert(seen.last() == self.labels@[i - 1]);
            }
            i -= 1;
            if same_text(self.labels[i].0.as_str(), name) {
                return Some(self.labels[i].1);
            }
        }
        None
    }

    /// Whether an external routine is registered under `name`.
    pub fn has_external_call(&self, name: &str) -> (found: bool)
        ensures
            found == is_registered(self.ext_calls@, name@),
    {
        let mut i: usize = 0;
        while i < self.ext_calls.len()
            invariant
                i <= self.ext_calls@.len(),
                forall|j: int| 0 <= j < i ==> self.ext_calls@[j]@ != name@,
            decreases self.ext_calls@.len() - i,
        {
            if same_text(self.ext_calls[i].as_str(), name) {
                return true;
            }
            i += 1;
        }
        false
    }

    /// What the definitions give for the token `word`.
    pub fn lookup_define(&self, word: &Vec<char>) -> (out: Vec<char>)
        ensures
            out@ == replacement(self.defines@, word@),
    {
        let key = chars_to_string(word, 0, word.len());
        proof {
            assert(key@ =~= word@);
            assert(self.defines@.skip(0) =~= self.defines@);
        }
        let mut i: usize = 0;
        while i < self.defines.len()
            invariant
                i <= self.defines@.len(),
                key@ == word@,
                replacement(self.defines@, word@) == replacement(
                    self.defines@.skip(i as int),
                    word@,
                ),
            decreases self.defines@.len() - i,
        {
            proof {
                let rest = self.defines@.skip(i as int);
                assert(rest[0] == self.defines@[i as int]);
                assert(rest.drop_first() =~= self.defines@.skip(i + 1));
            }
            if self.defines[i].0 == key {
                return str_to_chars(self.defines[i].1.as_str());
            }
            i += 1;
        }
        str_to_chars(key.as_str())
    }

    /// Replaces each token of `line` by what the definitions give for it.
    pub fn parse_defines(&self, line: &Vec<char>) -> (out: Vec<char>)
        ensures
            out@ == substituted(line@, self.defines@),
    {
        let mut out: Vec<char> = Vec::new();
        let mut token: Vec<char> = Vec::new();
        let mut i: usize = 0;
        while i < line.len()
            invariant
                i <= line@.len(),
                define_scan(line@, self.defines@, i as int) == (DefineScan {
                    out: out@,
                    token: token@,
                }),
            decreases line@.len() - i,
        {
            let c = line[i];
            i += 1;
            if char_is_separator(c) {
                let word = self.lookup_define(&token);
                push_all(&mut out, &word);
                out.push(c);
                token = Vec::new();
                proof {
                    let st = define_scan(line@, self.defines@, i - 1);
                    assert(out@ =~= st.out + replacement(self.defines@, st.token) + seq![c]);
                }
            } else {
                token.push(c);
            }
        }
        let word = self.lookup_define(&token);
        push_all(&mut out, &word);
        out
    }

    /// An assembler with an empty program and empty tables, and the names
    /// of the routines that every host offers registered.
    pub fn new(do_print_parsed: bool) -> (assembler: Assembler)
        ensures
            assembler.code@.len() == 0,
            assembler.labels@.len() == 0,
            assembler.defines@.len() == 0,
            assembler.print_parsed == do_print_parsed,
            texts(assembler.ext_calls@) == builtin_names(),
    {
        let mut assembler = Assembler {
            code: Vec::new(),
            labels: Vec::new(),
            defines: Vec::new(),
            ext_calls: Vec::new(),
            print_parsed: do_print_parsed,
        };
        assembler.ext_calls.push(String::from_str("printnum"));
        assembler.ext_calls.push(String::from_str("print"));
        assembler.ext_calls.push(String::from_str("valid"));
        assembler.ext_calls.push(String::from_str("prompt"));
        assembler.ext_calls.push(String::from_str("inputnumlen"));
        assembler.ext_calls.push(String::from_str("inputlen"));
        assembler.ext_calls.push(String::from_str("input"));
        assembler.ext_calls.push(String::from_str("inputnum"));
        assembler.ext_calls.push(String::from_str("random"));
        proof {
            assert(texts(assembler.ext_calls@) =~= builtin_names());
        }
        assembler
    }

    /// Registers the name of an external routine. The routine itself stays
    /// with the host.
    pub fn add_external_call(&mut self, name: &str)
        ensures
            final(self).ext_calls@.len() == old(self).ext_calls@.len() + 1,
            final(self).ext_calls@.drop_last() == old(self).ext_calls@,
            final(self).ext_calls@.last()@ == name@,
            is_registered(final(self).ext_calls@, name@),
            final(self).code == old(self).code,
            final(self).labels == old(self).labels,
            final(self).defines == old(self).defines,
            final(self).print_parsed == old(self).print_parsed,
    {
        self.ext_calls.push(String::from_str(name));
        proof {
            assert(self.ext_calls@.drop_last() =~= old(self).ext_calls@);
            assert(self.ext_calls@[self.ext_calls@.len() - 1]@ == name@);
        }
    }

    /// Assembles one instruction and appends it to the program.
    pub fn parse_args(&mut self, iname: &String, arguments: &Vec<String>, err: &Error) -> (r:
        Result<(), ErrorType>)
        ensures
            final(self).labels == old(self).labels,
            final(self).defines == old(self).defines,
            final(self).ext_calls == old(self).ext_calls,
            final(self).print_parsed == old(self).print_parsed,
            match assemble(iname@, texts(arguments@)) {
                Ok(op) => r is Ok && program(final(self).code@) == program(old(self).code@).push(
                    op,
                ),
                Err(f) => fails_with(r, f) && final(self).code == old(self).code,
            },
    {
        match create_instruction(iname.as_str(), arguments, err) {
            Ok(instruction) => {
                self.code.push(instruction);
                proof {
                    assert(program(self.code@) =~= program(old(self).code@).push(instruction@));
                }
                Ok(())
            },
            Err(e) => Err(e),
        }
    }

    /// Handles a directive line. Gives `None`, and does nothing, for a line
    /// that does not start with `!`.
    pub fn parse_macros(&mut self, line: &Vec<char>, err: &Error) -> (r: Result<
        Option<Parsed>,
        ErrorType,
    >)
        ensures
            if line@.len() > 0 && line@[0] == '!' {
                match r {
                    Ok(Some(p)) => applied(
                        old(self),
                        final(self),
                        read_directive(line@),
                        Ok(p),
                    ),
                    Ok(None) => false,
                    Err(e) => applied(old(self), final(self), read_directive(line@), Err(e)),
                }
            } else {
                r matches Ok(None) && *final(self) == *old(self)
            },
    {
        if !(line.len() > 0 && line[0] == '!') {
            return Ok(None);
        }
        let macro_text = trim(&slice_chars(line, 1, line.len()));
        let macro_args = split_words(&macro_text);
        proof {
            assert(line@.subrange(1, line@.len() as int) =~= line@.skip(1));
        }
        if macro_args.len() < 1 {
            return Err(ErrorType::Empty(String::from_str("macro")));
        }
        let macro_name = chars_to_string(&macro_args[0], 0, macro_args[0].len());
        let count: usize = macro_args.len() - 1;
        proof {
            let all = words(macro_text@);
            assert(all[0] == macro_args@[0]@);
            assert(macro_name@ =~= all[0]);
            assert(all.skip(1).len() == count);
        }
        if same_text(macro_name.as_str(), "define") {
            match err.check_args("macro", macro_name.as_str(), count, ArgumentType::AtLeast(2)) {
                Err(e) => {
                    return Err(e);
                },
                Ok(()) => {},
            }
            let name = chars_to_string(&macro_args[1], 0, macro_args[1].len());
            let joined_text = join_from(&macro_args, 2, ' ');
            let text = chars_to_string(&joined_text, 0, joined_text.len());
            proof {
                let all = words(macro_text@);
                assert(name@ =~= all.skip(1)[0]);
                assert(views(macro_args@).skip(2) =~= all.skip(1).skip(1));
                assert(text@ =~= joined_text@);
            }
            self.defines.push((name, text));
            proof {
                assert(self.defines@.drop_last() =~= old(self).defines@);
            }
            Ok(Some(Parsed::Define))
        } else if same_text(macro_name.as_str(), "include") {
            match err.check_args("macro", macro_name.as_str(), count, ArgumentType::AtLeast(1)) {
                Err(e) => {
                    return Err(e);
                },
                Ok(()) => {},
            }
            let (_, rest) = split_first_word(&macro_text);
            let path = trim(&rest);
            let path_text = chars_to_string(&path, 0, path.len());
            proof {
                assert(path_text@ =~= path@);
            }
            Ok(Some(Parsed::Include(path_text)))
        } else {
            Err(
                ErrorType::NonExistent {
                    typename: String::from_str("macro"),
                    value: macro_name,
                },
            )
        }
    }

    /// Handles a label line: registers the length of the program under the
    /// name that follows the `.`. Tells whether the line was one.
    pub fn parse_labels(&mut self, line: &Vec<char>) -> (found: bool)
        ensures
            found == (line@.len() > 0 && line@[0] == '.'),
            found ==> applied(
                old(self),
                final(self),
                Line::Label { name: line@.skip(1) },
                Ok(Parsed::Label),
            ),
            !found ==> *final(self) == *old(self),
    {
        if line.len() > 0 && line[0] == '.' {
            let name = chars_to_string(line, 1, line.len());
            proof {
                assert(name@ =~= line@.skip(1));
            }
            let at = self.code.len();
            self.labels.push((name, at));
            proof {
                assert(self.labels@.drop_last() =~= old(self).labels@);
            }
            return true;
        }
        false
    }

    /// Assembles one source line. An error comes with the line it was met
    /// on: its text without comment, its number and the name of its file.
    pub fn parse_line(&mut self, linearg: &String, linenum: usize, filename: Option<String>) -> (r:
        Result<Parsed, Report>)
        ensures
            applied(
                old(self),
                final(self),
                read_line(linearg@, old(self).defines@),
                without_place(r),
            ),
            match r {
                Err(report) => report.place.text@ == clean_line(linearg@) && report.place.line
                    == linenum && report.place.file == filename,
                Ok(_) => true,
            },
    {
        let mut raw = linearg.clone();
        remove_comments(&mut raw, ';');
        let clean = trim(&str_to_chars(raw.as_str()));
        let clean_text = chars_to_string(&clean, 0, clean.len());
        proof {
            assert(clean_text@ =~= clean@);
        }
        let err = Error::new(clean_text, linenum, filename);
        let line = parse_strings(&clean);
        match self.parse_macros(&line, &err) {
            Err(e) => {
                return Err(Report { kind: e, place: err });
            },
            Ok(Some(parsed)) => {
                return Ok(parsed);
            },
            Ok(None) => {},
        }
        if self.parse_labels(&line) {
            return Ok(Parsed::Label);
        }
        let line = self.parse_defines(&line);
        let (name, rest) = split_first_word(&line);
        if name.len() == 0 {
            return Ok(Parsed::Blank);
        }
        let name_text = chars_to_string(&name, 0, name.len());
        let arg_vec = split_arguments(&trim(&rest));
        proof {
            assert(name_text@ =~= name@);
        }
        match self.parse_args(&name_text, &arg_vec, &err) {
            Ok(()) => Ok(Parsed::Instruction { name: name_text, arguments: arg_vec }),
            Err(e) => Err(Report { kind: e, place: err }),
        }
    }

    /// Runs the program on `env` for at most `fuel` steps. The run stops
    /// early where the program ends, at an error, and at an instruction
    /// that asks for an external routine.
    pub fn run(&self, env: &mut Environment, fuel: usize) -> (r: Result<Halt, ErrorType>)
        ensures
            final(env).same_host(old(env)),
            match run_spec(
                program(self.code@),
                old(env)@,
                self.labels@,
                self.ext_calls@,
                fuel as nat,
            ) {
                Run::Finished(m) => r == Ok::<Halt, ErrorType>(Halt::Finished) && final(env)@ == m,
                Run::Host(m, at) => r == Ok::<Halt, ErrorType>(Halt::Host(at)) && final(env)@
                    == m,
                Run::Paused(m) => r == Ok::<Halt, ErrorType>(Halt::Paused) && final(env)@ == m,
                Run::Failed(m, f) => fails_with(r, f) && final(env)@ == m,
            },
    {
        let len = self.code.len();
        let mut left: usize = fuel;
        while env.instruction < len && left > 0
            invariant
                len == self.code@.len(),
                env.same_host(old(env)),
                run_spec(
                    program(self.code@),
                    old(env)@,
                    self.labels@,
                    self.ext_calls@,
                    fuel as nat,
                ) == run_spec(
                    program(self.code@),
                    env@,
                    self.labels@,
                    self.ext_calls@,
                    left as nat,
                ),
            decreases left,
        {
            let at = env.instruction;
            env.instruction += 1;
            match self.code[at].exec(env, self) {
                Err(e) => {
                    return Err(e);
                },
                Ok(Step::Host) => {
                    return Ok(Halt::Host(at));
                },
                Ok(Step::Next) => {},
            }
            left -= 1;
        }
        if env.instruction >= len {
            Ok(Halt::Finished)
        } else {
            Ok(Halt::Paused)
        }
    }
}

} // verus!
