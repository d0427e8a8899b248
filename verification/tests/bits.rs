use bit_asm::util::{
    bignum_to_boolvec, bignum_to_usize, boolvec_to_bignum, boolvec_to_u8, boolvec_to_usize,
    char_to_boolvec, checked_bignum_to_usize, checked_boolvec_to_usize, remove_comments,
    str_to_boolvec, usize_len, usize_text, usize_to_bignum, usize_to_boolvec,
};
use bit_asm::value::Value;

fn bits(text: &str) -> Vec<bool> {
    text.chars().map(|c| c == '1').collect()
}

#[test]
fn usize_len_counts_binary_digits() {
    assert_eq!(usize_len(0), 0);
    assert_eq!(usize_len(1), 1);
    assert_eq!(usize_len(2), 2);
    assert_eq!(usize_len(255), 8);
    assert_eq!(usize_len(256), 9);
    assert_eq!(usize_len(usize::MAX), usize::BITS as usize);
}

#[test]
fn usize_to_boolvec_is_little_endian() {
    assert_eq!(usize_to_boolvec(0), Vec::<bool>::new());
    assert_eq!(usize_to_boolvec(1), bits("1"));
    assert_eq!(usize_to_boolvec(6), bits("011"));
    assert_eq!(usize_to_boolvec(65), bits("1000001"));
}

#[test]
fn boolvec_to_usize_weighs_index_as_power_of_two() {
    assert_eq!(boolvec_to_usize(&bits("")), 0);
    assert_eq!(boolvec_to_usize(&bits("1")), 1);
    assert_eq!(boolvec_to_usize(&bits("011")), 6);
    assert_eq!(boolvec_to_usize(&bits("10000010")), 65);
    assert_eq!(boolvec_to_usize(&bits("0000000000")), 0);
}

#[test]
fn usize_round_trip() {
    for n in [0usize, 1, 2, 3, 17, 255, 256, 65535, 123456789, usize::MAX] {
        assert_eq!(boolvec_to_usize(&usize_to_boolvec(n)), n);
    }
}

#[test]
fn checked_boolvec_to_usize_tells_overflow() {
    assert_eq!(checked_boolvec_to_usize(&bits("101")), Some(5));
    let mut wide = vec![false; usize::BITS as usize];
    wide.push(true);
    assert_eq!(checked_boolvec_to_usize(&wide), None);
    let mut padded = vec![true; usize::BITS as usize];
    padded.push(false);
    padded.push(false);
    assert_eq!(checked_boolvec_to_usize(&padded), Some(usize::MAX));
}

#[test]
fn boolvec_to_u8_is_big_endian() {
    assert_eq!(boolvec_to_u8(&bits("")), 0);
    assert_eq!(boolvec_to_u8(&bits("1")), 128);
    assert_eq!(boolvec_to_u8(&bits("01000001")), 65);
    assert_eq!(boolvec_to_u8(&bits("11111111")), 255);
    assert_eq!(boolvec_to_u8(&bits("0000001")), 2);
    assert_eq!(boolvec_to_u8(&bits("0100000100000")), 65);
}

#[test]
fn str_to_boolvec_packs_each_byte_most_significant_bit_first() {
    assert_eq!(str_to_boolvec(""), Vec::<bool>::new());
    assert_eq!(str_to_boolvec("A"), bits("01000001"));
    assert_eq!(str_to_boolvec("AB"), bits("0100000101000010"));
    assert_eq!(str_to_boolvec("\u{e9}"), bits("1100001110101001"));
}

#[test]
fn char_to_boolvec_encodes_one_character() {
    assert_eq!(char_to_boolvec('A'), bits("01000001"));
    assert_eq!(char_to_boolvec('\n'), bits("00001010"));
    assert_eq!(char_to_boolvec('\u{e9}'), bits("1100001110101001"));
}

#[test]
fn text_and_number_packing_differ() {
    let as_text = char_to_boolvec('A');
    let as_number = usize_to_boolvec(65);
    assert_eq!(as_text, bits("01000001"));
    assert_eq!(as_number, bits("1000001"));
    assert_eq!(boolvec_to_u8(&as_text), 65);
    assert_eq!(boolvec_to_usize(&as_number), 65);
    assert_ne!(boolvec_to_usize(&as_text), 65);
}

#[test]
fn remove_comments_cuts_at_first_marker() {
    let mut line = "push 8 ; grow; more".to_string();
    remove_comments(&mut line, ';');
    assert_eq!(line, "push 8 ");
    let mut plain = "push 8".to_string();
    remove_comments(&mut plain, ';');
    assert_eq!(plain, "push 8");
    let mut only = ";".to_string();
    remove_comments(&mut only, ';');
    assert_eq!(only, "");
    let mut empty = String::new();
    remove_comments(&mut empty, ';');
    assert_eq!(empty, "");
}

#[test]
fn bignum_conversions_agree_with_words() {
    for n in [0usize, 1, 2, 65, 255, 256, 1 << 40] {
        let big = usize_to_bignum(n);
        assert_eq!(bignum_to_usize(&big), n);
        assert_eq!(checked_bignum_to_usize(&big), Some(n));
        assert_eq!(usize_text(n), format!("{}", n));
    }
}

#[test]
fn bignum_of_zero_has_one_digit() {
    let zero = usize_to_bignum(0);
    assert_eq!(bignum_to_boolvec(&zero), bits("0"));
    assert_eq!(bignum_to_boolvec(&usize_to_bignum(65)), bits("1000001"));
}

#[test]
fn boolvec_to_bignum_sets_and_clears_bits() {
    let big = boolvec_to_bignum(&bits("10000010"));
    assert_eq!(bignum_to_usize(&big), 65);
    assert_eq!(bignum_to_boolvec(&big), bits("1000001"));
    let none = boolvec_to_bignum(&bits("0000"));
    assert_eq!(bignum_to_usize(&none), 0);
}

#[test]
fn big_round_trip_beyond_a_word() {
    let text = "123456789012345678901234567890123456789";
    let value = match Value::new(text, false) {
        Ok(v) => v,
        Err(e) => panic!("{}", e.to_text()),
    };
    assert_eq!(value.to_text(), format!("n{}", text));
    let big = match &value {
        Value::Bignum(num) => bignum_to_boolvec(num),
        _ => panic!("an integer was expected"),
    };
    assert_eq!(big.len(), 127);
    assert_eq!(checked_boolvec_to_usize(&big), None);
    assert_eq!(Value::Boolvec(big.clone()).to_text(), format!("v{}", text));
    assert_eq!(bignum_to_boolvec(&boolvec_to_bignum(&big)), big);
}

#[test]
fn negative_number_shows_low_twos_complement_digits() {
    let value = match Value::new("-3", false) {
        Ok(v) => v,
        Err(e) => panic!("{}", e.to_text()),
    };
    match &value {
        Value::Bignum(num) => {
            assert_eq!(bignum_to_boolvec(num), bits("10"));
            assert_eq!(bignum_to_usize(num), 1);
        },
        _ => panic!("an integer was expected"),
    }
    assert_eq!(value.to_text(), "n-3");
}
