use bit_asm::assembler::{parse_strings, split_arguments, Assembler, Parsed};
use bit_asm::error::{ArgumentType, Error, ErrorType};
use bit_asm::instruction::{create_instruction, Instruction};
use bit_asm::text::{char_is_whitespace, split_words, str_to_chars, trim};

fn chars(text: &str) -> Vec<char> {
    text.chars().collect()
}

fn text(chars: &Vec<char>) -> String {
    chars.iter().collect()
}

fn line(assembler: &mut Assembler, source: &str) -> Result<Parsed, String> {
    match assembler.parse_line(&source.to_string(), 3, Some("main.asm".to_string())) {
        Ok(parsed) => Ok(parsed),
        Err(report) => Err(report.kind.to_text()),
    }
}

fn place() -> Error {
    Error::new("text".to_string(), 1, None)
}

fn strings(items: &[&str]) -> Vec<String> {
    items.iter().map(|s| s.to_string()).collect()
}

#[test]
fn whitespace_is_the_unicode_property() {
    for c in [' ', '\t', '\n', '\r', '\u{b}', '\u{c}', '\u{85}', '\u{a0}', '\u{1680}', '\u{2000}',
        '\u{200a}', '\u{2028}', '\u{2029}', '\u{202f}', '\u{205f}', '\u{3000}'] {
        assert!(char_is_whitespace(c));
    }
    for c in ['a', '0', '[', '\u{8}', '\u{e}', '\u{200b}', '\u{feff}', '\u{1f}'] {
        assert!(!char_is_whitespace(c));
    }
    let mut code: u32 = 0;
    while code < 0x3100 {
        if let Some(c) = char::from_u32(code) {
            assert_eq!(char_is_whitespace(c), c.is_whitespace());
        }
        code += 1;
    }
}

#[test]
fn trim_and_words_follow_whitespace() {
    assert_eq!(text(&trim(&chars("  push 8 \t"))), "push 8");
    assert_eq!(text(&trim(&chars(" \t "))), "");
    assert_eq!(text(&trim(&chars(""))), "");
    assert_eq!(text(&trim(&chars("x"))), "x");
    let words: Vec<String> = split_words(&chars("  define   X  a b ")).iter().map(text).collect();
    assert_eq!(words, vec!["define", "X", "a", "b"]);
    assert!(split_words(&chars("   ")).is_empty());
    assert_eq!(str_to_chars("a\u{e9}b"), vec!['a', '\u{e9}', 'b']);
}

#[test]
fn quoted_text_becomes_big_endian_bits() {
    assert_eq!(text(&parse_strings(&chars("push 8, \"A\""))), "push 8, b01000001");
    assert_eq!(text(&parse_strings(&chars("\"AB\""))), "b0100000101000010");
    assert_eq!(text(&parse_strings(&chars("\"\""))), "b");
    assert_eq!(text(&parse_strings(&chars("mov [0:8], 1"))), "mov [0:8], 1");
}

#[test]
fn quoted_text_honours_escapes() {
    assert_eq!(text(&parse_strings(&chars("\"\\n\""))), "b00001010");
    assert_eq!(text(&parse_strings(&chars("\"\\t\""))), "b00001001");
    assert_eq!(text(&parse_strings(&chars("\"\\\\\""))), "b01011100");
    assert_eq!(text(&parse_strings(&chars("\"\\\"\""))), "b00100010");
    assert_eq!(text(&parse_strings(&chars("\"\\a\""))), "b01100001");
    assert_eq!(text(&parse_strings(&chars("\"n\" \"t\""))), "b01101110 b01110100");
}

#[test]
fn definitions_replace_whole_tokens_only() {
    let mut assembler = Assembler::new(false);
    assert!(matches!(line(&mut assembler, "!define W 8"), Ok(Parsed::Define)));
    assert!(matches!(line(&mut assembler, "!define dest [0:W]"), Ok(Parsed::Define)));
    assert_eq!(text(&assembler.parse_defines(&chars("push W"))), "push 8");
    assert_eq!(text(&assembler.parse_defines(&chars("mov [0:W],W"))), "mov [0:8],8");
    assert_eq!(text(&assembler.parse_defines(&chars("mov dest, 1"))), "mov [0:W], 1");
    assert_eq!(text(&assembler.parse_defines(&chars("push WW"))), "push WW");
    assert_eq!(text(&assembler.parse_defines(&chars("<[-W:W]>"))), "<[-8:8]>");
    assert_eq!(text(&assembler.parse_defines(&chars(""))), "");
}

#[test]
fn definition_keeps_the_rest_of_the_line() {
    let mut assembler = Assembler::new(false);
    assert!(matches!(line(&mut assembler, "!define  greet   mov   [0:8],  65 ; hello"), Ok(Parsed::Define)));
    assert_eq!(assembler.defines.len(), 1);
    assert_eq!(assembler.defines[0].0, "greet");
    assert_eq!(assembler.defines[0].1, "mov [0:8], 65");
}

#[test]
fn arguments_are_split_trimmed_and_filtered() {
    assert_eq!(split_arguments(&chars("[0:8] ,  65")), strings(&["[0:8]", "65"]));
    assert_eq!(split_arguments(&chars("")), Vec::<String>::new());
    assert_eq!(split_arguments(&chars(" , ,a,, b ,")), strings(&["a", "b"]));
    assert_eq!(split_arguments(&chars("one")), strings(&["one"]));
}

#[test]
fn lines_are_told_apart() {
    let mut assembler = Assembler::new(false);
    assert!(matches!(line(&mut assembler, ""), Ok(Parsed::Blank)));
    assert!(matches!(line(&mut assembler, "   ; only a comment"), Ok(Parsed::Blank)));
    assert!(matches!(line(&mut assembler, ".start"), Ok(Parsed::Label)));
    match line(&mut assembler, "  push 8 , 1; grow") {
        Ok(Parsed::Instruction { name, arguments }) => {
            assert_eq!(name, "push");
            assert_eq!(arguments, strings(&["8", "1"]));
        },
        _ => panic!("an instruction was expected"),
    }
    assert!(matches!(line(&mut assembler, "!define X 1"), Ok(Parsed::Define)));
    match line(&mut assembler, "!include  lib/io.asm  ") {
        Ok(Parsed::Include(path)) => assert_eq!(path, "lib/io.asm"),
        _ => panic!("an include was expected"),
    }
    match line(&mut assembler, "!include my file.asm") {
        Ok(Parsed::Include(path)) => assert_eq!(path, "my file.asm"),
        _ => panic!("an include was expected"),
    }
    assert_eq!(assembler.code.len(), 1);
    assert_eq!(assembler.labels.len(), 1);
    assert_eq!(assembler.labels[0].0, "start");
    assert_eq!(assembler.labels[0].1, 0);
    assert_eq!(assembler.defines.len(), 1);
}

#[test]
fn label_records_the_program_length() {
    let mut assembler = Assembler::new(false);
    assert!(line(&mut assembler, "push 1").is_ok());
    assert!(line(&mut assembler, "push 1").is_ok());
    assert!(assembler.parse_labels(&chars(".here")));
    assert!(!assembler.parse_labels(&chars("here")));
    assert_eq!(assembler.find_label("here"), Some(2));
}

#[test]
fn comment_marker_cuts_even_inside_quotes() {
    let mut assembler = Assembler::new(false);
    assert!(matches!(line(&mut assembler, "push 8, \"A;B\""), Ok(Parsed::Instruction { .. })));
    match &assembler.code[0] {
        Instruction::Push(push) => match &push.1 {
            Some(value) => assert_eq!(value.to_text(), "v130"),
            None => panic!("a value was expected"),
        },
        _ => panic!("a push was expected"),
    }
}

#[test]
fn definitions_do_not_reach_labels_or_directives() {
    let mut assembler = Assembler::new(false);
    assert!(line(&mut assembler, "!define start other").is_ok());
    assert!(line(&mut assembler, ".start").is_ok());
    assert_eq!(assembler.labels[0].0, "start");
    assert!(line(&mut assembler, "!define start third").is_ok());
    assert_eq!(assembler.defines[1].0, "start");
}

#[test]
fn every_error_kind_is_reported() {
    let mut assembler = Assembler::new(false);
    assert_eq!(
        line(&mut assembler, "mov [0:4]"),
        Err("ArgumentError: instruction 'mov' was given 1 argument(s), expected 2 argument(s)".to_string())
    );
    assert_eq!(
        line(&mut assembler, "push"),
        Err("ArgumentError: instruction 'push' was given 0 argument(s), expected 1-2 argument(s)".to_string())
    );
    assert_eq!(
        line(&mut assembler, "!define X"),
        Err("ArgumentError: macro 'define' was given 1 argument(s), expected at least 2 argument(s)".to_string())
    );
    assert_eq!(
        line(&mut assembler, "!include"),
        Err("ArgumentError: macro 'include' was given 0 argument(s), expected at least 1 argument(s)".to_string())
    );
    assert_eq!(
        line(&mut assembler, "launch 1"),
        Err("NameError: no such instruction of name 'launch'".to_string())
    );
    assert_eq!(
        line(&mut assembler, "!undef X"),
        Err("NameError: no such macro of name 'undef'".to_string())
    );
    assert_eq!(line(&mut assembler, "!"), Err("macro is empty".to_string()));
    assert_eq!(line(&mut assembler, "push zz"), Err("InvalidValue: zz".to_string()));
    assert_eq!(
        line(&mut assembler, "mov 5, 1"),
        Err("n5 is not a valid pointer!".to_string())
    );
    assert_eq!(
        line(&mut assembler, "push b012"),
        Err("Generic: '2' is not a valid character in a boolvec!".to_string())
    );
    assert!(assembler.code.is_empty());
    assert!(assembler.labels.is_empty());
    assert!(assembler.defines.is_empty());
}

#[test]
fn report_names_line_file_and_text() {
    let mut assembler = Assembler::new(false);
    match assembler.parse_line(&"  launch 1 ; go".to_string(), 12, Some("main.asm".to_string())) {
        Err(report) => {
            assert_eq!(report.place.line, 12);
            assert_eq!(report.place.text, "launch 1");
            assert_eq!(report.place.file, Some("main.asm".to_string()));
            assert_eq!(
                report.place.report(&report.kind),
                "Error on line 12 in file \"main.asm\", NameError: no such instruction of name 'launch'.\n>>> launch 1"
            );
        },
        Ok(_) => panic!("an error was expected"),
    }
    match assembler.parse_line(&"!".to_string(), 1, None) {
        Err(report) => assert_eq!(
            report.place.report(&report.kind),
            "Error on line 1, macro is empty.\n>>> !"
        ),
        Ok(_) => panic!("an error was expected"),
    }
}

#[test]
fn arity_is_checked_against_the_kind() {
    assert!(ArgumentType::Exact(2).is_valid(2));
    assert!(!ArgumentType::Exact(2).is_valid(3));
    assert!(ArgumentType::Range(1, 2).is_valid(1));
    assert!(ArgumentType::Range(1, 2).is_valid(2));
    assert!(!ArgumentType::Range(1, 2).is_valid(0));
    assert!(!ArgumentType::Range(1, 2).is_valid(3));
    assert!(ArgumentType::AtLeast(2).is_valid(2));
    assert!(ArgumentType::AtLeast(2).is_valid(9));
    assert!(!ArgumentType::AtLeast(2).is_valid(1));
    assert!(ArgumentType::AtMost(2).is_valid(0));
    assert!(ArgumentType::AtMost(2).is_valid(2));
    assert!(!ArgumentType::AtMost(2).is_valid(3));
    assert_eq!(ArgumentType::Exact(3).to_text(), "3 argument(s)");
    assert_eq!(ArgumentType::Range(1, 2).to_text(), "1-2 argument(s)");
    assert_eq!(ArgumentType::AtLeast(2).to_text(), "at least 2 argument(s)");
    assert_eq!(ArgumentType::AtMost(4).to_text(), "at most 4 argument(s)");
}

#[test]
fn check_args_gives_the_arity_error() {
    let err = place();
    assert!(err.check_args("instruction", "mov", 2, ArgumentType::Exact(2)).is_ok());
    match err.check_args("instruction", "mov", 3, ArgumentType::Exact(2)) {
        Err(ErrorType::ArgumentError { typename, name, num, range }) => {
            assert_eq!(typename, "instruction");
            assert_eq!(name, "mov");
            assert_eq!(num, 3);
            assert_eq!(range, ArgumentType::Exact(2));
        },
        _ => panic!("an arity error was expected"),
    }
}

#[test]
fn every_opcode_assembles() {
    let err = place();
    let three = strings(&["[0:8]", "1", "2"]);
    for name in ["add", "sub", "mul", "div", "mod", "and", "or", "xor", "shl", "shr"] {
        assert!(create_instruction(name, &three, &err).is_ok());
        assert_eq!(Instruction::get_num_arguments(name), Some(ArgumentType::Exact(3)));
    }
    let jump = strings(&["1", "2", "there"]);
    for name in ["je", "jne", "jg", "jge", "jl", "jle"] {
        assert!(create_instruction(name, &jump, &err).is_ok());
        assert_eq!(Instruction::get_num_arguments(name), Some(ArgumentType::Exact(3)));
    }
    assert!(create_instruction("mov", &strings(&["[0:8]", "1"]), &err).is_ok());
    assert!(create_instruction("not", &strings(&["[0:8]", "1"]), &err).is_ok());
    assert!(create_instruction("push", &strings(&["8"]), &err).is_ok());
    assert!(create_instruction("push", &strings(&["8", "1"]), &err).is_ok());
    assert!(create_instruction("pop", &strings(&["8"]), &err).is_ok());
    assert!(create_instruction("jmp", &strings(&["there"]), &err).is_ok());
    assert!(create_instruction("call", &strings(&["there"]), &err).is_ok());
    assert!(create_instruction("ret", &strings(&[]), &err).is_ok());
    assert!(create_instruction("ext", &strings(&["print"]), &err).is_ok());
    assert!(create_instruction("ext", &strings(&["print", "[0:8]"]), &err).is_ok());
    assert!(Instruction::new("ret", &strings(&[]), &err).is_ok());
    assert_eq!(Instruction::get_num_arguments("push"), Some(ArgumentType::Range(1, 2)));
    assert_eq!(Instruction::get_num_arguments("ext"), Some(ArgumentType::Range(1, 2)));
    assert_eq!(Instruction::get_num_arguments("pop"), Some(ArgumentType::Exact(1)));
    assert_eq!(Instruction::get_num_arguments("mov"), Some(ArgumentType::Exact(2)));
    assert_eq!(Instruction::get_num_arguments("ret"), Some(ArgumentType::Exact(0)));
    assert_eq!(Instruction::get_num_arguments("launch"), None);
}

#[test]
fn operands_land_in_their_slots() {
    let err = place();
    match create_instruction("sub", &strings(&["[0:8]", "7", "b11"]), &err) {
        Ok(Instruction::Sub(sub)) => {
            assert_eq!(sub.to.to_text(), "[n0:n8]");
            assert_eq!(sub.op1.to_text(), "n7");
            assert_eq!(sub.op2.to_text(), "v3");
        },
        _ => panic!("a sub was expected"),
    }
    match create_instruction("jl", &strings(&["7", "9", "there"]), &err) {
        Ok(Instruction::JumpLess(jump)) => {
            assert_eq!(jump.op1.to_text(), "n7");
            assert_eq!(jump.op2.to_text(), "n9");
            assert_eq!(jump.label, "there");
        },
        _ => panic!("a jl was expected"),
    }
    match create_instruction("ext", &strings(&["print"]), &err) {
        Ok(Instruction::Ext(ext)) => {
            assert_eq!(ext.name, "print");
            assert_eq!(ext.val.to_text(), "n1");
        },
        _ => panic!("an ext was expected"),
    }
}

#[test]
fn destination_must_be_a_pointer_at_construction() {
    let err = place();
    for name in ["mov", "not"] {
        match create_instruction(name, &strings(&["8", "1"]), &err) {
            Err(ErrorType::InvalidPointer(v)) => assert_eq!(v.to_text(), "n8"),
            _ => panic!("an invalid pointer was expected"),
        }
    }
    match create_instruction("add", &strings(&["b1", "1", "2"]), &err) {
        Err(ErrorType::InvalidPointer(v)) => assert_eq!(v.to_text(), "v1"),
        _ => panic!("an invalid pointer was expected"),
    }
}

#[test]
fn push_reads_its_value_first() {
    let err = place();
    match create_instruction("push", &strings(&["zz", "b2"]), &err) {
        Err(ErrorType::Generic(message)) => {
            assert_eq!(message, "'2' is not a valid character in a boolvec!")
        },
        _ => panic!("a generic error was expected"),
    }
    match create_instruction("mov", &strings(&["zz", "b2"]), &err) {
        Err(ErrorType::InvalidValue(text)) => assert_eq!(text, "zz"),
        _ => panic!("an invalid value was expected"),
    }
}

#[test]
fn new_assembler_knows_the_built_in_routines() {
    let assembler = Assembler::new(true);
    assert!(assembler.print_parsed);
    assert!(assembler.code.is_empty());
    for name in ["printnum", "print", "valid", "prompt", "inputnumlen", "inputlen", "input",
        "inputnum", "random"] {
        assert!(assembler.has_external_call(name));
    }
    assert!(!assembler.has_external_call("launch"));
    assert!(!Assembler::new(false).print_parsed);
}
