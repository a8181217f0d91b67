use negroni::mix::char_codes::{get_char, get_code};
use negroni::mix::{decode_field_spec, field_spec, Address, CharCodeError, Instruction, Sign, Word};

fn word(sign: Sign, bytes: [u8; 5]) -> Word {
    Word { sign, bytes }
}

#[test]
fn zero_and_negative_zero_are_distinct_words_of_value_zero() {
    assert_eq!(Word::zero(), word(Sign::Positive, [0, 0, 0, 0, 0]));
    assert_eq!(Word::negative_zero(), word(Sign::Negative, [0, 0, 0, 0, 0]));
    assert_ne!(Word::zero(), Word::negative_zero());
    assert_eq!(Word::zero().value(), 0);
    assert_eq!(Word::negative_zero().value(), 0);
}

#[test]
fn from_value_gives_the_bytes_of_radix_64() {
    assert_eq!(Word::from_value(1000), word(Sign::Positive, [0, 0, 0, 15, 40]));
    assert_eq!(Word::from_value(-1), word(Sign::Negative, [0, 0, 0, 0, 1]));
    assert_eq!(Word::from_value(0), word(Sign::Positive, [0, 0, 0, 0, 0]));
    assert_eq!(Word::from_value(1073741823), word(Sign::Positive, [63, 63, 63, 63, 63]));
    assert_eq!(Word::from_value(-1073741823), word(Sign::Negative, [63, 63, 63, 63, 63]));
    assert_eq!(Word::from_value(16777216), word(Sign::Positive, [1, 0, 0, 0, 0]));
}

#[test]
fn value_is_the_signed_magnitude() {
    assert_eq!(word(Sign::Negative, [1, 14, 3, 5, 4]).value(), -20459844);
    assert_eq!(word(Sign::Positive, [63, 63, 63, 63, 63]).value(), 1073741823);
}

#[test]
fn from_value_and_value_round_trip() {
    for v in [-1073741823isize, -4096, -64, -1, 0, 1, 63, 64, 4095, 262144, 1073741823] {
        let w = Word::from_value(v);
        assert_eq!(w.value(), v);
        for b in w.bytes.iter() {
            assert!(*b < 64);
        }
    }
}

#[test]
fn fits_in_word_at_the_edges() {
    assert!(Word::fits_in_word(1073741823));
    assert!(Word::fits_in_word(-1073741823));
    assert!(!Word::fits_in_word(1073741824));
    assert!(!Word::fits_in_word(-1073741824));
}

#[test]
fn overflowing_values_lose_one_word_limit() {
    assert_eq!(Word::from_value_with_overflow(1073741824), Word::zero());
    assert_eq!(Word::from_value_with_overflow(1073741829).value(), 5);
    assert_eq!(
        Word::from_value_with_overflow(-1073741829),
        word(Sign::Negative, [0, 0, 0, 0, 5])
    );
    assert_eq!(Word::from_value_with_overflow(-1073741824), Word::zero());
    assert_eq!(Word::from_value_with_overflow(2147483646).value(), 1073741822);
}

#[test]
fn field_spec_encodes_and_decodes() {
    assert_eq!(field_spec(0, 5), 5);
    assert_eq!(field_spec(1, 3), 11);
    assert_eq!(field_spec(4, 4), 36);
    assert_eq!(decode_field_spec(11), (1, 3));
    assert_eq!(decode_field_spec(5), (0, 5));
    assert_eq!(decode_field_spec(0), (0, 0));
}

#[test]
fn field_spec_of_any_two_ends() {
    assert_eq!(field_spec(31, 7), 255);
    assert_eq!(field_spec(6, 2), 50);
    assert_eq!(field_spec(0, 7), 7);
    for left in 0..32u8 {
        for right in 0..8u8 {
            assert_eq!(field_spec(left, right), 8 * left + right);
            assert_eq!(decode_field_spec(field_spec(left, right)), (left, right));
        }
    }
}

#[test]
fn an_address_keeps_two_bytes_of_a_wider_value() {
    // 5000 = 4096 + 904, 904 = 14 * 64 + 8
    assert_eq!(Address::from_value(5000), Address { sign: Sign::Positive, bytes: [14, 8] });
    assert_eq!(Address::from_value(-5000), Address { sign: Sign::Negative, bytes: [14, 8] });
    assert_eq!(Address::from_value(-5000).value(), -904);
    assert_eq!(Address::from_value(4096), Address { sign: Sign::Positive, bytes: [0, 0] });
    assert_eq!(Address::from_value(-4096), Address { sign: Sign::Negative, bytes: [0, 0] });
    assert_eq!(Address::from_value(4095).value(), 4095);
    assert_eq!(Address::from_value(isize::MAX).sign, Sign::Positive);
    assert_eq!(Address::from_value(isize::MIN).sign, Sign::Negative);
    for v in [isize::MIN, -8191, -4097, 4097, 123456789, isize::MAX] {
        let a = Address::from_value(v);
        assert!(a.bytes[0] < 64 && a.bytes[1] < 64);
    }
}

#[test]
fn fields_of_a_word() {
    let w = word(Sign::Negative, [1, 14, 3, 5, 4]);
    assert_eq!(w.apply_field_spec(field_spec(0, 5)), w);
    assert_eq!(w.apply_field_spec(field_spec(1, 5)), word(Sign::Positive, [1, 14, 3, 5, 4]));
    assert_eq!(w.apply_field_spec(field_spec(3, 5)), word(Sign::Positive, [0, 0, 3, 5, 4]));
    assert_eq!(w.apply_field_spec(field_spec(0, 3)), word(Sign::Negative, [0, 0, 1, 14, 3]));
    assert_eq!(w.apply_field_spec(field_spec(4, 4)), word(Sign::Positive, [0, 0, 0, 0, 5]));
    assert_eq!(w.apply_field_spec(field_spec(0, 0)), word(Sign::Negative, [0, 0, 0, 0, 0]));
    assert_eq!(w.apply_field_spec(field_spec(1, 1)), word(Sign::Positive, [0, 0, 0, 0, 1]));
}

#[test]
fn the_whole_field_of_a_field_is_that_field() {
    let w = word(Sign::Negative, [1, 14, 3, 5, 4]);
    for left in 0..6u8 {
        for right in left..6u8 {
            let field = w.apply_field_spec(field_spec(left, right));
            assert_eq!(field.apply_field_spec(field_spec(0, 5)), field);
            if left > 0 {
                assert_eq!(field.sign, Sign::Positive);
            } else {
                assert_eq!(field.sign, Sign::Negative);
            }
        }
    }
}

#[test]
fn toggle_sign_keeps_the_bytes() {
    let w = word(Sign::Negative, [1, 2, 3, 4, 5]);
    assert_eq!(w.toggle_sign(), word(Sign::Positive, [1, 2, 3, 4, 5]));
    assert_eq!(w.toggle_sign().toggle_sign(), w);
}

#[test]
fn a_word_casts_to_the_address_in_its_last_two_bytes() {
    let w = word(Sign::Negative, [1, 2, 3, 4, 5]);
    assert_eq!(w.cast_to_address(), Address { sign: Sign::Negative, bytes: [4, 5] });
}

#[test]
fn address_values() {
    assert_eq!(Address::zero(), Address { sign: Sign::Positive, bytes: [0, 0] });
    assert_eq!(Address::negative_zero(), Address { sign: Sign::Negative, bytes: [0, 0] });
    assert_eq!(Address::from_value(1000), Address { sign: Sign::Positive, bytes: [15, 40] });
    assert_eq!(Address::from_value(-4095), Address { sign: Sign::Negative, bytes: [63, 63] });
    assert_eq!(Address::from_value(-4095).value(), -4095);
    assert_eq!(Address::from_value(2000).value(), 2000);
    assert_eq!(
        Address::from_value(-1000).cast_to_word(),
        word(Sign::Negative, [0, 0, 0, 15, 40])
    );
    assert!(Address::fits_in_address(4095));
    assert!(!Address::fits_in_address(4096));
    assert!(!Address::fits_in_address(-4096));
}

#[test]
fn instruction_and_word_round_trip() {
    let w = word(Sign::Negative, [31, 16, 2, 3, 8]);
    let instruction = Instruction::from_word(w);
    assert_eq!(instruction.address, Address { sign: Sign::Negative, bytes: [31, 16] });
    assert_eq!(instruction.address.value(), -2000);
    assert_eq!(instruction.index_specification, 2);
    assert_eq!(instruction.modification, 3);
    assert_eq!(instruction.operation, 8);
    assert_eq!(Word::from_instruction(&instruction), w);
    let other = Instruction {
        operation: 39,
        modification: 1,
        address: Address::from_value(77),
        index_specification: 6,
    };
    assert_eq!(Instruction::from_word(Word::from_instruction(&other)), other);
}

#[test]
fn character_codes_of_the_table() {
    assert_eq!(get_code(&' '), Some(0));
    assert_eq!(get_code(&'A'), Some(1));
    assert_eq!(get_code(&'I'), Some(9));
    assert_eq!(get_code(&'\u{394}'), Some(10));
    assert_eq!(get_code(&'J'), Some(11));
    assert_eq!(get_code(&'R'), Some(19));
    assert_eq!(get_code(&'\u{3a3}'), Some(20));
    assert_eq!(get_code(&'\u{3a0}'), Some(21));
    assert_eq!(get_code(&'S'), Some(22));
    assert_eq!(get_code(&'Z'), Some(29));
    assert_eq!(get_code(&'0'), Some(30));
    assert_eq!(get_code(&'9'), Some(39));
    assert_eq!(get_code(&'.'), Some(40));
    assert_eq!(get_code(&'\''), Some(55));
    assert_eq!(get_code(&'a'), None);
    assert_eq!(get_code(&'"'), None);
    assert_eq!(get_char(&0), Some(' '));
    assert_eq!(get_char(&10), Some('\u{394}'));
    assert_eq!(get_char(&55), Some('\''));
    assert_eq!(get_char(&56), None);
    assert_eq!(get_char(&63), None);
}

#[test]
fn the_character_table_is_a_bijection() {
    for code in 0..56u8 {
        let ch = get_char(&code).unwrap();
        assert_eq!(get_code(&ch), Some(code));
    }
}

#[test]
fn words_of_characters() {
    assert_eq!(Word::from_char_code("HELLO"), Ok(word(Sign::Positive, [8, 5, 13, 13, 16])));
    assert_eq!(Word::from_char_code("AB"), Ok(word(Sign::Positive, [1, 2, 0, 0, 0])));
    assert_eq!(Word::from_char_code(""), Ok(Word::zero()));
    assert_eq!(Word::from_char_code("TOOLONG"), Err(CharCodeError::TooLong));
    assert_eq!(Word::from_char_code("ab"), Err(CharCodeError::BadCharCode));
    assert_eq!(
        word(Sign::Positive, [8, 5, 13, 13, 16]).to_char_code(),
        Ok("HELLO".to_string())
    );
    assert_eq!(word(Sign::Negative, [0, 30, 39, 40, 55]).to_char_code(), Ok(" 09.'".to_string()));
    assert_eq!(
        word(Sign::Positive, [8, 5, 13, 13, 63]).to_char_code(),
        Err(CharCodeError::BadCharCode)
    );
}
