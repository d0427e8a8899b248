use bit_asm::assembler::{Assembler, Halt};
use bit_asm::environment::Environment;
use bit_asm::error::ErrorType;

fn bits(text: &str) -> Vec<bool> {
    text.chars().map(|c| c == '1').collect()
}

fn assemble(lines: &[&str]) -> Assembler {
    let mut assembler = Assembler::new(false);
    let mut number = 0;
    for line in lines {
        number += 1;
        if let Err(report) = assembler.parse_line(&line.to_string(), number, None) {
            panic!("{}", report.place.report(&report.kind));
        }
    }
    assembler
}

fn run(lines: &[&str]) -> (Result<Halt, ErrorType>, Environment) {
    let assembler = assemble(lines);
    let mut env = Environment::new();
    let outcome = assembler.run(&mut env, 10000);
    (outcome, env)
}

fn memory_after(lines: &[&str]) -> Vec<bool> {
    let (outcome, env) = run(lines);
    match outcome {
        Ok(Halt::Finished) => env.stack,
        Ok(_) => panic!("the program did not finish"),
        Err(e) => panic!("{}", e.to_text()),
    }
}

fn failure(lines: &[&str]) -> (String, Environment) {
    let (outcome, env) = run(lines);
    match outcome {
        Err(e) => (e.to_text(), env),
        Ok(_) => panic!("an error was expected"),
    }
}

#[test]
fn width_truncation_is_refused() {
    let (message, env) = failure(&["push 4", "mov [0:4], 17"]);
    assert_eq!(message, "Generic: Argument is bigger than assignment!");
    assert_eq!(env.stack, bits("0000"));
    assert_eq!(memory_after(&["push 4", "mov [0:4], 15"]), bits("1111"));
}

#[test]
fn push_then_pop_restores_memory() {
    let memory = memory_after(&["push 8", "mov [0:8], 65", "push 8", "pop 8"]);
    assert_eq!(memory, bits("10000010"));
    let with_value = memory_after(&["push 8", "mov [0:8], 65", "push 8, 255", "pop 8"]);
    assert_eq!(with_value, bits("10000010"));
    assert_eq!(memory_after(&["push 8", "pop 8"]), Vec::<bool>::new());
}

#[test]
fn number_is_laid_out_little_endian() {
    assert_eq!(memory_after(&["push 8", "mov [0:8], 65"]), bits("10000010"));
}

#[test]
fn reverse_addressing_reaches_the_tail() {
    assert_eq!(memory_after(&["push 16", "mov [-8:8], 1"]), bits("0000000010000000"));
}

#[test]
fn earlier_definition_shadows_later() {
    assert_eq!(memory_after(&["!define X 3", "!define X 5", "push X"]).len(), 3);
    let assembler = assemble(&["!define X 3", "!define X 5"]);
    assert_eq!(assembler.lookup_define(&vec!['X']), vec!['3']);
    assert_eq!(assembler.lookup_define(&vec!['Y']), vec!['Y']);
}

#[test]
fn call_resumes_after_the_call() {
    let memory = memory_after(&[
        "call foo",
        "push 4, 15",
        "jmp end",
        ".foo",
        "push 4",
        "ret",
        ".end",
    ]);
    assert_eq!(memory, bits("00001111"));
}

#[test]
fn nested_calls_return_in_order() {
    let memory = memory_after(&[
        "call outer",
        "push 1, 1",
        "jmp end",
        ".outer",
        "call inner",
        "push 2, 3",
        "ret",
        ".inner",
        "push 3",
        "ret",
        ".end",
    ]);
    assert_eq!(memory, bits("000111"));
}

#[test]
fn division_by_zero_halts() {
    let (message, env) = failure(&["push 8", "mov [0:8], 9", "div [0:8], 1, 0"]);
    assert_eq!(message, "Generic: divide by zero");
    assert_eq!(env.stack, bits("10010000"));
    let (message, _) = failure(&["push 8", "mod [0:8], [0:8], [0:4]"]);
    assert_eq!(message, "Generic: divide by zero");
}

#[test]
fn forward_label_resolves() {
    assert_eq!(memory_after(&["jmp end", "push 8", ".end", "push 1"]).len(), 1);
}

#[test]
fn redeclared_label_counts_last() {
    assert_eq!(memory_after(&[".a", "jmp a", "push 8", ".a", "push 1"]).len(), 1);
}

#[test]
fn arithmetic_gives_exact_values() {
    assert_eq!(memory_after(&["push 8", "add [0:8], 20, 22"]), bits("01010100"));
    assert_eq!(memory_after(&["push 8", "sub [0:8], 50, 8"]), bits("01010100"));
    assert_eq!(memory_after(&["push 8", "mul [0:8], 6, 7"]), bits("01010100"));
    assert_eq!(memory_after(&["push 8", "div [0:8], 85, 2"]), bits("01010100"));
    assert_eq!(memory_after(&["push 8", "mod [0:8], 142, 100"]), bits("01010100"));
}

#[test]
fn division_rounds_toward_zero() {
    assert_eq!(memory_after(&["push 8", "div [0:8], 7, 2"]), bits("11000000"));
    assert_eq!(memory_after(&["push 8", "div [0:8], -7, 2"]), bits("10000000"));
    assert_eq!(memory_after(&["push 8", "mod [0:8], -7, 2"]), bits("10000000"));
    assert_eq!(memory_after(&["push 8", "mod [0:8], 7, -2"]), bits("10000000"));
}

#[test]
fn overflowing_result_is_cut_to_the_destination() {
    assert_eq!(memory_after(&["push 4", "add [0:4], 15, 1"]), bits("0000"));
    assert_eq!(memory_after(&["push 4", "mul [0:4], 15, 15"]), bits("1000"));
    assert_eq!(memory_after(&["push 4", "shl [0:4], 15, 1"]), bits("0111"));
}

#[test]
fn negative_result_stores_its_low_digits() {
    assert_eq!(memory_after(&["push 8", "sub [0:8], 0, 1"]), bits("10000000"));
    assert_eq!(memory_after(&["push 8", "sub [0:8], 1, 4"]), bits("10000000"));
}

#[test]
fn logic_gives_exact_values() {
    assert_eq!(memory_after(&["push 4", "and [0:4], 12, 10"]), bits("0001"));
    assert_eq!(memory_after(&["push 4", "or [0:4], 12, 10"]), bits("0111"));
    assert_eq!(memory_after(&["push 4", "xor [0:4], 12, 10"]), bits("0110"));
    assert_eq!(memory_after(&["push 8", "shl [0:8], 5, 3"]), bits("00010100"));
    assert_eq!(memory_after(&["push 8", "shr [0:8], 40, 3"]), bits("10100000"));
    assert_eq!(memory_after(&["push 8", "shr [0:8], 5, 8"]), bits("00000000"));
}

#[test]
fn not_inverts_and_pads_with_ones() {
    assert_eq!(memory_after(&["push 8", "not [0:8], b1010"]), bits("01011111"));
    assert_eq!(memory_after(&["push 4", "not [0:4], [0:4]"]), bits("1111"));
    assert_eq!(memory_after(&["push 4", "not [0:4], 5"]), bits("0101"));
}

#[test]
fn logic_refuses_wide_sources_in_its_own_words() {
    let (message, _) = failure(&["push 4", "and [0:4], 17, 1"]);
    assert_eq!(message, "Generic: Arguments are not all same size!");
    let (message, _) = failure(&["push 4", "not [0:4], b00000"]);
    assert_eq!(message, "Generic: Arguments are not all same size!");
    let (message, _) = failure(&["push 4", "add [0:4], 1, 17"]);
    assert_eq!(message, "Generic: Argument is bigger than assignment!");
}

#[test]
fn mov_copies_between_regions() {
    let memory = memory_after(&["push 8, 65", "push 8", "mov [8:8], [0:8]"]);
    assert_eq!(memory, bits("1000001010000010"));
    let narrow = memory_after(&["push 4, 5", "push 8", "mov [4:8], [0:4]"]);
    assert_eq!(narrow, bits("101010100000"));
}

#[test]
fn push_with_value_stores_and_cuts() {
    assert_eq!(memory_after(&["push 8, 65"]), bits("10000010"));
    assert_eq!(memory_after(&["push 4, 255"]), bits("1111"));
    assert_eq!(memory_after(&["push 8, b01000001"]), bits("01000001"));
    assert_eq!(memory_after(&["push 0"]), Vec::<bool>::new());
    assert_eq!(memory_after(&["push 4, 5", "push 4, [0:4]"]), bits("10101010"));
}

#[test]
fn push_reads_its_value_against_the_grown_memory() {
    assert_eq!(memory_after(&["push 4, 5", "push 4, [-8:4]"]), bits("10101010"));
    let (message, env) = failure(&["push 4, 5", "push 4, [-9:4]"]);
    assert_eq!(message, "Generic: Operand does not resolve against memory!");
    assert_eq!(env.stack, bits("1010"));
}

#[test]
fn pop_beyond_memory_halts() {
    let (message, env) = failure(&["push 4", "pop 5"]);
    assert_eq!(message, "Generic: Attempt to pop more than memory holds!");
    assert_eq!(env.stack.len(), 4);
}

#[test]
fn store_outside_memory_halts() {
    let (message, _) = failure(&["push 4", "mov [1:4], 1"]);
    assert_eq!(message, "Generic: Operand does not resolve against memory!");
    let (message, _) = failure(&["push 4", "mov [0:4], [2:4]"]);
    assert_eq!(message, "Generic: Operand does not resolve against memory!");
}

#[test]
fn conditional_jumps_compare_integers() {
    let taken = |line: &str| memory_after(&[line, "push 1", ".skip"]).is_empty();
    assert!(taken("je 5, 5, skip"));
    assert!(!taken("je 5, 6, skip"));
    assert!(taken("jne 5, 6, skip"));
    assert!(!taken("jne 5, 5, skip"));
    assert!(taken("jg 6, 5, skip"));
    assert!(!taken("jg 5, 5, skip"));
    assert!(taken("jge 5, 5, skip"));
    assert!(!taken("jge 4, 5, skip"));
    assert!(taken("jl 4, 5, skip"));
    assert!(!taken("jl 5, 5, skip"));
    assert!(taken("jle 5, 5, skip"));
    assert!(!taken("jle 6, 5, skip"));
    assert!(taken("jl -1, 0, skip"));
    assert!(taken("je b1000001, 65, skip"));
}

#[test]
fn loop_counts_down() {
    let memory = memory_after(&[
        "push 8, 3",
        ".again",
        "je [0:8], 0, done",
        "sub [0:8], [0:8], 1",
        "push 1, 1",
        "jmp again",
        ".done",
    ]);
    assert_eq!(memory, bits("00000000111"));
}

#[test]
fn missing_label_halts_only_when_jumped_to() {
    let (message, _) = failure(&["jmp nowhere"]);
    assert_eq!(message, "NameError: no such label of name 'nowhere'");
    let (message, _) = failure(&["call nowhere"]);
    assert_eq!(message, "NameError: no such label of name 'nowhere'");
    let (message, _) = failure(&["je 1, 1, nowhere"]);
    assert_eq!(message, "NameError: no such label of name 'nowhere'");
    assert_eq!(memory_after(&["je 1, 2, nowhere", "push 1"]).len(), 1);
}

#[test]
fn return_on_empty_call_stack_halts() {
    let (message, _) = failure(&["ret"]);
    assert_eq!(message, "Generic: Attempt to return on empty call stack!");
}

#[test]
fn external_call_hands_over_to_the_host() {
    let assembler = assemble(&["push 8", "ext print, [0:8]", "push 1"]);
    let mut env = Environment::new();
    match assembler.run(&mut env, 100) {
        Ok(Halt::Host(at)) => assert_eq!(at, 1),
        _ => panic!("a host call was expected"),
    }
    assert_eq!(env.instruction, 2);
    assert_eq!(env.stack.len(), 8);
    match assembler.run(&mut env, 100) {
        Ok(Halt::Finished) => {},
        _ => panic!("the program was to finish"),
    }
    assert_eq!(env.stack.len(), 9);
}

#[test]
fn unknown_external_call_halts() {
    let (message, _) = failure(&["ext launch"]);
    assert_eq!(message, "NameError: no such external call of name 'launch'");
    let mut assembler = assemble(&["ext launch"]);
    assert!(!assembler.has_external_call("launch"));
    assembler.add_external_call("launch");
    assert!(assembler.has_external_call("launch"));
    let mut env = Environment::new();
    match assembler.run(&mut env, 100) {
        Ok(Halt::Host(0)) => {},
        _ => panic!("a host call was expected"),
    }
}

#[test]
fn run_pauses_when_fuel_is_spent() {
    let assembler = assemble(&[".again", "push 1", "jmp again"]);
    let mut env = Environment::new();
    match assembler.run(&mut env, 10) {
        Ok(Halt::Paused) => {},
        _ => panic!("a pause was expected"),
    }
    assert_eq!(env.stack.len(), 5);
    match assembler.run(&mut env, 0) {
        Ok(Halt::Paused) => {},
        _ => panic!("a pause was expected"),
    }
    assert_eq!(env.stack.len(), 5);
}

#[test]
fn empty_program_finishes_at_once() {
    let (outcome, env) = run(&[]);
    assert!(matches!(outcome, Ok(Halt::Finished)));
    assert_eq!(env.instruction, 0);
    assert!(env.stack.is_empty());
}

#[test]
fn address_operands_store_offsets() {
    assert_eq!(memory_after(&["push 16", "mov [0:8], >[4:8]"]), bits("0011000000000000"));
    assert_eq!(memory_after(&["push 16", "mov [0:8], <[4:8]"]), bits("0010000000000000"));
}

#[test]
fn label_table_is_searched_from_the_end() {
    let assembler = assemble(&[".a", "push 1", ".b", "push 1", ".a"]);
    assert_eq!(assembler.find_label("a"), Some(2));
    assert_eq!(assembler.find_label("b"), Some(1));
    assert_eq!(assembler.find_label("c"), None);
}

#[test]
fn environment_control_transfer() {
    let assembler = assemble(&[".start", "push 1", ".next"]);
    let mut env = Environment::new();
    env.instruction = 7;
    assert!(env.call(&assembler, "next").is_ok());
    assert_eq!(env.instruction, 1);
    assert_eq!(env.callstack, vec![7]);
    assert!(env.goto(&assembler, "start").is_ok());
    assert_eq!(env.instruction, 0);
    assert!(env.call(&assembler, "missing").is_err());
    assert_eq!(env.callstack, vec![7]);
    assert!(env.ret().is_ok());
    assert_eq!(env.instruction, 7);
    assert!(env.ret().is_err());
    assert!(env.goto(&assembler, "missing").is_err());
    assert_eq!(env.instruction, 7);
}

#[test]
fn memory_primitives() {
    let mut env = Environment::new();
    assert_eq!(env.stack_len(), 0);
    env.push(4, true);
    env.push(4, false);
    assert_eq!(env.stack, bits("11110000"));
    assert_eq!(env.slice(2, 6), &bits("1100")[..]);
    env.set_bits_usize(5, 4, 4);
    assert_eq!(env.stack, bits("11111010"));
    env.set_bits_boolvec(&bits("01"), 0, 4);
    assert_eq!(env.stack, bits("01001010"));
    env.set_bits_boolvec(&bits("111111"), 0, 2);
    assert_eq!(env.stack, bits("11001010"));
    env.set_bits_usize(usize::MAX, 0, 3);
    assert_eq!(env.stack, bits("11101010"));
    assert!(env.pop(3).is_ok());
    assert_eq!(env.stack, bits("11101"));
    match env.pop(6) {
        Err(e) => assert_eq!(e.to_text(), "Generic: Attempt to pop more than memory holds!"),
        Ok(()) => panic!("an error was expected"),
    }
    assert_eq!(env.stack, bits("11101"));
    assert!(env.pop(0).is_ok());
    assert_eq!(env.stack, bits("11101"));
    assert_eq!(env.print_bytes(2), "3, 1, ");
    assert_eq!(env.print_bytes(5), "23, ");
    assert_eq!(env.print_bytes(6), "");
}

#[test]
fn wide_write_of_a_word_pads_with_zero() {
    let mut env = Environment::new();
    env.push(80, true);
    env.set_bits_usize(1, 0, 80);
    let mut expected = vec![false; 80];
    expected[0] = true;
    assert_eq!(env.stack, expected);
}
