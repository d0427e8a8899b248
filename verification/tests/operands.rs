use bit_asm::environment::Environment;
use bit_asm::error::ErrorType;
use bit_asm::syntax::number_operand;
use bit_asm::util::{bignum_to_usize, str_to_boolvec};
use bit_asm::value::Value;

fn bits(text: &str) -> Vec<bool> {
    text.chars().map(|c| c == '1').collect()
}

fn operand(text: &str) -> Value {
    match Value::new(text, false) {
        Ok(v) => v,
        Err(e) => panic!("{}", e.to_text()),
    }
}

fn memory(cells: &str) -> Environment {
    let mut env = Environment::new();
    env.push(cells.len(), false);
    env.set_bits_boolvec(&bits(cells), 0, cells.len());
    env
}

#[test]
fn integer_literal_is_read() {
    assert_eq!(operand("65").to_text(), "n65");
    assert_eq!(operand("  65  ").to_text(), "n65");
    assert_eq!(operand("-7").to_text(), "n-7");
    assert_eq!(operand("0").to_text(), "n0");
}

#[test]
fn bit_literal_keeps_written_order() {
    let value = operand("b1100");
    let env = Environment::new();
    assert_eq!(value.get_boolvec(&env), bits("1100"));
    assert_eq!(value.get_size(&env), 4);
    assert_eq!(value.get_usize(&env), 3);
    assert_eq!(value.to_text(), "v3");
    assert_eq!(operand("b").get_size(&env), 0);
}

#[test]
fn pointer_forms_are_read() {
    assert_eq!(operand("[0:8]").to_text(), "[n0:n8]");
    assert_eq!(operand("[-8:8]").to_text(), "[-n8:n8]");
    assert_eq!(operand("[3]").to_text(), "[n3:n1]");
    assert_eq!(operand("[ 0 : 8 ]").to_text(), "[n0:n8]");
    assert_eq!(operand("[[0:4]:[4:4]]").to_text(), "[[n0:n4]:[n4:n4]]");
    assert!(operand("[0:8]").is_ptr());
    assert!(!operand("8").is_ptr());
}

#[test]
fn empty_brackets_are_no_operand() {
    match Value::new("[]", false) {
        Err(ErrorType::InvalidValue(text)) => assert_eq!(text, "[]"),
        _ => panic!("an invalid value was expected"),
    }
}

#[test]
fn address_forms_are_read() {
    assert_eq!(operand("<[2:4]").to_text(), "<[n2:n4]");
    assert_eq!(operand(">[2:4]").to_text(), ">[n2:n4]");
}

#[test]
fn address_of_what_is_no_pointer_is_refused() {
    match Value::new("<5", false) {
        Err(ErrorType::InvalidPointer(v)) => assert_eq!(v.to_text(), "n5"),
        _ => panic!("an invalid pointer was expected"),
    }
    match Value::new(">b01", false) {
        Err(ErrorType::InvalidPointer(v)) => assert_eq!(v.to_text(), "v2"),
        _ => panic!("an invalid pointer was expected"),
    }
}

#[test]
fn required_pointer_is_checked() {
    assert!(Value::new("[0:4]", true).is_ok());
    match Value::new("17", true) {
        Err(ErrorType::InvalidPointer(v)) => assert_eq!(v.to_text(), "n17"),
        _ => panic!("an invalid pointer was expected"),
    }
}

#[test]
fn text_that_is_no_operand_is_refused() {
    for text in ["zz", "", "[0:4", "0:4]", "1x", "<", "[q]"] {
        match Value::new(text, false) {
            Err(ErrorType::InvalidValue(t)) => assert_eq!(t, text),
            _ => panic!("an invalid value was expected for {}", text),
        }
    }
}

#[test]
fn pointer_with_line_feed_inside_is_no_pointer() {
    match Value::new("[0\n:4]", false) {
        Err(ErrorType::InvalidValue(_)) => {},
        _ => panic!("an invalid value was expected"),
    }
}

#[test]
fn bad_bit_is_named() {
    match Value::new("b0120", false) {
        Err(ErrorType::Generic(message)) => {
            assert_eq!(message, "'2' is not a valid character in a boolvec!")
        },
        _ => panic!("a generic error was expected"),
    }
}

#[test]
fn error_in_position_comes_before_error_in_length() {
    match Value::new("[b2:b3]", false) {
        Err(ErrorType::Generic(message)) => {
            assert_eq!(message, "'2' is not a valid character in a boolvec!")
        },
        _ => panic!("a generic error was expected"),
    }
    match Value::new("[zz:b3]", false) {
        Err(ErrorType::Generic(message)) => {
            assert_eq!(message, "'3' is not a valid character in a boolvec!")
        },
        _ => panic!("a generic error was expected"),
    }
}

#[test]
fn number_operand_follows_the_reader() {
    assert!(number_operand("12".parse()).is_some());
    assert!(number_operand("twelve".parse()).is_none());
    match number_operand("12".parse()) {
        Some(Value::Bignum(num)) => assert_eq!(bignum_to_usize(&num), 12),
        _ => panic!("an integer was expected"),
    }
}

#[test]
fn pointer_reads_memory_at_use() {
    let env = memory("1000001000000000");
    let ptr = operand("[0:8]");
    assert!(ptr.is_readable(&env));
    assert_eq!(ptr.get_ptr_position(&env), 0);
    assert_eq!(ptr.get_ptr_size(&env), 8);
    assert_eq!(ptr.get_size(&env), 8);
    assert_eq!(ptr.get_usize(&env), 65);
    assert_eq!(ptr.get_boolvec(&env), bits("10000010"));
    assert_eq!(bignum_to_usize(&ptr.get_bignum(&env)), 65);
}

#[test]
fn reverse_pointer_counts_from_the_current_end() {
    let mut env = memory("0000000010000010");
    let ptr = operand("[-8:8]");
    assert_eq!(ptr.get_ptr_position(&env), 8);
    assert_eq!(ptr.get_usize(&env), 65);
    env.push(8, false);
    assert_eq!(ptr.get_ptr_position(&env), 16);
    assert_eq!(ptr.get_usize(&env), 0);
}

#[test]
fn pointer_outside_memory_is_not_readable() {
    let env = memory("00000000");
    assert!(operand("[0:8]").is_readable(&env));
    assert!(!operand("[1:8]").is_readable(&env));
    assert!(operand("[1:8]").is_locatable(&env));
    assert!(operand("[1:8]").is_measurable(&env));
    assert!(!operand("[-9:1]").is_locatable(&env));
    assert!(operand("[8:0]").is_readable(&env));
    assert!(!operand("17").is_locatable(&env));
    assert!(operand("17").is_measurable(&env));
    assert!(!operand("[340282366920938463463374607431768211456:1]").is_locatable(&env));
}

#[test]
fn nested_pointer_resolves_through_memory() {
    let env = memory("0010000011110000");
    let ptr = operand("[[0:4]:4]");
    assert_eq!(ptr.get_ptr_position(&env), 4);
    assert_eq!(ptr.get_usize(&env), 0);
    let other = operand("[[0:4]:[8:3]]");
    assert_eq!(other.get_ptr_size(&env), 7);
}

#[test]
fn address_gives_start_or_end_offset() {
    let env = memory("0000000000000000");
    let start = operand("<[4:8]");
    let end = operand(">[4:8]");
    assert_eq!(start.get_usize(&env), 4);
    assert_eq!(end.get_usize(&env), 12);
    assert_eq!(start.get_size(&env), 3);
    assert_eq!(end.get_size(&env), 4);
    assert_eq!(end.get_boolvec(&env), bits("0011"));
    assert_eq!(operand("<[0:8]").get_size(&env), 0);
    assert!(operand(">[12:8]").is_readable(&env));
    assert!(!operand("[12:8]").is_readable(&env));
}

#[test]
fn width_of_integer_is_its_bit_length() {
    let env = Environment::new();
    assert_eq!(operand("17").get_size(&env), 5);
    assert_eq!(operand("15").get_size(&env), 4);
    assert_eq!(operand("0").get_size(&env), 1);
    assert_eq!(operand("-17").get_size(&env), 5);
    assert!(operand("15").can_coerce(4, &env));
    assert!(!operand("17").can_coerce(4, &env));
    assert!(operand("17").can_coerce(5, &env));
}

#[test]
fn quoted_text_bits_are_a_bit_literal() {
    let env = Environment::new();
    let text: String = str_to_boolvec("A").iter().map(|b| if *b { '1' } else { '0' }).collect();
    let value = operand(&format!("b{}", text));
    assert_eq!(value.get_boolvec(&env), bits("01000001"));
    assert_eq!(value.get_usize(&env), 130);
}
