use bit_asm::environment::Environment;
use bit_asm::error::ErrorType;
use bit_asm::external::{
    accept_input, destination, input, input_number, inputlen, inputnum, inputnumlen,
    print_text_bytes, printnum_text, random, store_drawn, valid,
};
use bit_asm::util::{bignum_to_usize, usize_to_bignum};
use bit_asm::value::Value;

fn bits(text: &str) -> Vec<bool> {
    text.chars().map(|c| c == '1').collect()
}

fn operand(text: &str) -> Value {
    match Value::new(text, false) {
        Ok(v) => v,
        Err(e) => panic!("{}", e.to_text()),
    }
}

fn memory(cells: &str) -> Environment {
    let mut env = Environment::new();
    env.push(cells.len(), false);
    env.set_bits_boolvec(&bits(cells), 0, cells.len());
    env
}

fn done(r: Result<(), ErrorType>) {
    if let Err(e) = r {
        panic!("{}", e.to_text());
    }
}

fn message<T>(r: Result<T, ErrorType>) -> String {
    match r {
        Err(e) => e.to_text(),
        Ok(_) => panic!("an error was expected"),
    }
}

#[test]
fn printnum_shows_the_number() {
    let env = memory("1000001000000000");
    match printnum_text(&operand("[0:8]"), &env) {
        Ok(text) => assert_eq!(text, "65"),
        Err(e) => panic!("{}", e.to_text()),
    }
    match printnum_text(&operand("1234"), &env) {
        Ok(text) => assert_eq!(text, "1234"),
        Err(e) => panic!("{}", e.to_text()),
    }
    assert_eq!(
        message(printnum_text(&operand("[10:8]"), &env)),
        "Generic: Operand does not resolve against memory!"
    );
}

#[test]
fn print_decodes_bytes_up_to_a_zero() {
    let env = memory("010010000110100100000000010000010000");
    match print_text_bytes(&operand("[0:36]"), &env) {
        Ok(bytes) => assert_eq!(bytes, vec![72, 105]),
        Err(e) => panic!("{}", e.to_text()),
    }
    match print_text_bytes(&operand("[0:16]"), &env) {
        Ok(bytes) => assert_eq!(bytes, vec![72, 105]),
        Err(e) => panic!("{}", e.to_text()),
    }
    match print_text_bytes(&operand("[0:15]"), &env) {
        Ok(bytes) => assert_eq!(bytes, vec![72]),
        Err(e) => panic!("{}", e.to_text()),
    }
    match print_text_bytes(&operand("[16:8]"), &env) {
        Ok(bytes) => assert_eq!(bytes, Vec::<u8>::new()),
        Err(e) => panic!("{}", e.to_text()),
    }
    assert!(print_text_bytes(&operand("[30:8]"), &env).is_err());
}

#[test]
fn valid_stores_the_flag() {
    let mut env = memory("11111111");
    done(valid(&operand("[0:4]"), &mut env));
    assert_eq!(env.stack, bits("10001111"));
    env.validity = false;
    done(valid(&operand("[4:4]"), &mut env));
    assert_eq!(env.stack, bits("10000000"));
    assert_eq!(
        message(valid(&operand("5"), &mut env)),
        "Generic: Operand does not resolve against memory!"
    );
    assert_eq!(
        message(valid(&operand("[6:4]"), &mut env)),
        "Generic: Operand does not resolve against memory!"
    );
    assert_eq!(env.stack, bits("10000000"));
}

#[test]
fn prompt_input_loses_its_line_endings() {
    let mut env = Environment::new();
    accept_input(&mut env, "hello\n");
    assert_eq!(env.input_string, "hello");
    accept_input(&mut env, "hello\r\n");
    assert_eq!(env.input_string, "hello");
    accept_input(&mut env, "a\rb\r");
    assert_eq!(env.input_string, "a\rb\r");
    accept_input(&mut env, "one\ntwo\r\nthree");
    assert_eq!(env.input_string, "onetwothree");
    accept_input(&mut env, "");
    assert_eq!(env.input_string, "");
    for text in ["x\r\r\ny", "\n\n", "\r\n\r\n", "tail\r", "a\n\rb"] {
        accept_input(&mut env, text);
        let expected: String = text.lines().collect();
        assert_eq!(env.input_string, expected);
    }
}

#[test]
fn inputnum_stores_the_number_and_notes_validity() {
    let mut env = memory("0000000000000000");
    accept_input(&mut env, "65\n");
    done(inputnum(&operand("[0:8]"), &mut env));
    assert_eq!(env.stack, bits("1000001000000000"));
    assert!(env.validity);
    accept_input(&mut env, "sixty\n");
    done(inputnum(&operand("[0:8]"), &mut env));
    assert_eq!(env.stack, bits("0000000000000000"));
    assert!(!env.validity);
    accept_input(&mut env, "7");
    assert!(inputnum(&operand("[12:8]"), &mut env).is_err());
    assert!(!env.validity);
    let (num, found) = input_number(&env);
    assert!(found);
    assert_eq!(bignum_to_usize(&num), 7);
}

#[test]
fn inputnumlen_stores_the_width() {
    let mut env = memory("11111111");
    env.validity = false;
    accept_input(&mut env, "65");
    done(inputnumlen(&operand("[0:8]"), &mut env));
    assert_eq!(env.stack, bits("11100000"));
    assert!(env.validity);
    accept_input(&mut env, "none");
    done(inputnumlen(&operand("[0:8]"), &mut env));
    assert_eq!(env.stack, bits("10000000"));
    assert!(!env.validity);
}

#[test]
fn inputlen_counts_bits_of_the_encoding() {
    let mut env = memory("1111111111111111");
    accept_input(&mut env, "abc");
    done(inputlen(&operand("[0:8]"), &mut env));
    assert_eq!(env.stack, bits("0001100011111111"));
    accept_input(&mut env, "\u{e9}");
    done(inputlen(&operand("[8:8]"), &mut env));
    assert_eq!(env.stack, bits("0001100000001000"));
}

#[test]
fn input_stores_text_big_endian() {
    let mut env = memory("111111111111111111111111");
    accept_input(&mut env, "Hi");
    done(input(&operand("[0:24]"), &mut env));
    assert_eq!(env.stack, bits("010010000110100100000000"));
    done(input(&operand("[16:4]"), &mut env));
    assert_eq!(env.stack, bits("010010000110100101000000"));
}

#[test]
fn random_draws_below_the_bound() {
    let bound = operand("[0:8]");
    let mut seen_change = false;
    for _ in 0..200 {
        let mut env = memory("0101000000000000");
        done(random(&bound, &mut env));
        let drawn = bound.get_usize(&env);
        assert!(drawn < 10);
        assert_eq!(&env.stack[8..], &bits("00000000")[..]);
        if drawn != 10 {
            seen_change = true;
        }
    }
    assert!(seen_change);
    let mut one = memory("10000000");
    done(random(&bound, &mut one));
    assert_eq!(one.stack, bits("00000000"));
}

#[test]
fn random_with_zero_bound_is_an_error() {
    let mut env = memory("00000000");
    assert_eq!(message(random(&operand("[0:8]"), &mut env)), "Generic: divide by zero");
    assert_eq!(env.stack, bits("00000000"));
    assert!(random(&operand("[4:8]"), &mut env).is_err());
}

#[test]
fn drawn_number_is_stored_through_the_pointer() {
    let mut env = memory("1111111111111111");
    done(store_drawn(&operand("[-8:8]"), &mut env, &usize_to_bignum(6)));
    assert_eq!(env.stack, bits("1111111101100000"));
    assert!(store_drawn(&operand("[-4:8]"), &mut env, &usize_to_bignum(6)).is_err());
}

#[test]
fn destination_gives_offset_and_extent() {
    let env = memory("0000000000000000");
    match destination(&operand("[-6:4]"), &env) {
        Ok(place) => assert_eq!(place, (10, 4)),
        Err(e) => panic!("{}", e.to_text()),
    }
    assert!(destination(&operand("[13:4]"), &env).is_err());
    assert!(destination(&operand("4"), &env).is_err());
}

#[test]
fn new_environment_is_empty() {
    let env = Environment::new();
    assert!(env.stack.is_empty());
    assert!(env.callstack.is_empty());
    assert_eq!(env.instruction, 0);
    assert!(env.validity);
    assert_eq!(env.input_string, "");
}
