//! The character table: 56 characters, each with a code from 0 to 55.
//!
//! Code 0 is the blank; 1 to 29 are the letters, with the Greek capitals
//! delta, sigma and pi at 10, 20 and 21; 30 to 39 are the digits; 40 to 55
//! are the punctuation marks.

use vstd::prelude::*;

verus! {

/// The code of a character, where the table holds it.
pub open spec fn spec_code_of(ch: char) -> Option<u8> {
    match ch {
        ' ' => Some(0u8),
        'A' => Some(1u8),
        'B' => Some(2u8),
        'C' => Some(3u8),
        'D' => Some(4u8),
        'E' => Some(5u8),
        'F' => Some(6u8),
        'G' => Some(7u8),
        'H' => Some(8u8),
        'I' => Some(9u8),
        '\u{394}' => Some(10u8),
        'J' => Some(11u8),
        'K' => Some(12u8),
        'L' => Some(13u8),
        'M' => Some(14u8),
        'N' => Some(15u8),
        'O' => Some(16u8),
        'P' => Some(17u8),
        'Q' => Some(18u8),
        'R' => Some(19u8),
        '\u{3a3}' => Some(20u8),
        '\u{3a0}' => Some(21u8),
        'S' => Some(22u8),
        'T' => Some(23u8),
        'U' => Some(24u8),
        'V' => Some(25u8),
        'W' => Some(26u8),
        'X' => Some(27u8),
        'Y' => Some(28u8),
        'Z' => Some(29u8),
        '0' => Some(30u8),
        '1' => Some(31u8),
        '2' => Some(32u8),
        '3' => Some(33u8),
        '4' => Some(34u8),
        '5' => Some(35u8),
        '6' => Some(36u8),
        '7' => Some(37u8),
        '8' => Some(38u8),
        '9' => Some(39u8),
        '.' => Some(40u8),
        ',' => Some(41u8),
        '(' => Some(42u8),
        ')' => Some(43u8),
        '+' => Some(44u8),
        '-' => Some(45u8),
        '*' => Some(46u8),
        '/' => Some(47u8),
        '=' => Some(48u8),
        '$' => Some(49u8),
        '<' => Some(50u8),
        '>' => Some(51u8),
        '@' => Some(52u8),
        ';' => Some(53u8),
        ':' => Some(54u8),
        '\'' => Some(55u8),
        _ => None,
    }
}

/// The character of a code, where the code is below 56.
pub open spec fn spec_char_of(byte: u8) -> Option<char> {
    match byte {
        0 => Some(' '),
        1 => Some('A'),
        2 => Some('B'),
        3 => Some('C'),
        4 => Some('D'),
        5 => Some('E'),
        6 => Some('F'),
        7 => Some('G'),
        8 => Some('H'),
        9 => Some('I'),
        10 => Some('\u{394}'),
        11 => Some('J'),
        12 => Some('K'),
        13 => Some('L'),
        14 => Some('M'),
        15 => Some('N'),
        16 => Some('O'),
        17 => Some('P'),
        18 => Some('Q'),
        19 => Some('R'),
        20 => Some('\u{3a3}'),
        21 => Some('\u{3a0}'),
        22 => Some('S'),
        23 => Some('T'),
        24 => Some('U'),
        25 => Some('V'),
        26 => Some('W'),
        27 => Some('X'),
        28 => Some('Y'),
        29 => Some('Z'),
        30 => Some('0'),
        31 => Some('1'),
        32 => Some('2'),
        33 => Some('3'),
        34 => Some('4'),
        35 => Some('5'),
        36 => Some('6'),
        37 => Some('7'),
        38 => Some('8'),
        39 => Some('9'),
        40 => Some('.'),
        41 => Some(','),
        42 => Some('('),
        43 => Some(')'),
        44 => Some('+'),
        45 => Some('-'),
        46 => Some('*'),
        47 => Some('/'),
        48 => Some('='),
        49 => Some('$'),
        50 => Some('<'),
        51 => Some('>'),
        52 => Some('@'),
        53 => Some(';'),
        54 => Some(':'),
        55 => Some('\''),
        _ => None,
    }
}

/// The code of `char_code`, or `None` for a character outside the table.
pub fn get_code(char_code: &char) -> (code: Option<u8>)
    ensures
        code == spec_code_of(*char_code),
        code matches Some(b) ==> b < 56,
{
    match *char_code {
        ' ' => Some(0u8),
        'A' => Some(1u8),
        'B' => Some(2u8),
        'C' => Some(3u8),
        'D' => Some(4u8),
        'E' => Some(5u8),
        'F' => Some(6u8),
        'G' => Some(7u8),
        'H' => Some(8u8),
        'I' => Some(9u8),
        '\u{394}' => Some(10u8),
        'J' => Some(11u8),
        'K' => Some(12u8),
        'L' => Some(13u8),
        'M' => Some(14u8),
        'N' => Some(15u8),
        'O' => Some(16u8),
        'P' => Some(17u8),
        'Q' => Some(18u8),
        'R' => Some(19u8),
        '\u{3a3}' => Some(20u8),
        '\u{3a0}' => Some(21u8),
        'S' => Some(22u8),
        'T' => Some(23u8),
        'U' => Some(24u8),
        'V' => Some(25u8),
        'W' => Some(26u8),
        'X' => Some(27u8),
        'Y' => Some(28u8),
        'Z' => Some(29u8),
        '0' => Some(30u8),
        '1' => Some(31u8),
        '2' => Some(32u8),
        '3' => Some(33u8),
        '4' => Some(34u8),
        '5' => Some(35u8),
        '6' => Some(36u8),
        '7' => Some(37u8),
        '8' => Some(38u8),
        '9' => Some(39u8),
        '.' => Some(40u8),
        ',' => Some(41u8),
        '(' => Some(42u8),
        ')' => Some(43u8),
        '+' => Some(44u8),
        '-' => Some(45u8),
        '*' => Some(46u8),
        '/' => Some(47u8),
        '=' => Some(48u8),
        '$' => Some(49u8),
        '<' => Some(50u8),
        '>' => Some(51u8),
        '@' => Some(52u8),
        ';' => Some(53u8),
        ':' => Some(54u8),
        '\'' => Some(55u8),
        _ => None,
    }
}

/// The character of `byte`, or `None` for a byte of 56 or more.
pub fn get_char(byte: &u8) -> (ch: Option<char>)
    ensures
        ch == spec_char_of(*byte),
        ch is Some <==> *byte < 56,
{
    match *byte {
        0 => Some(' '),
        1 => Some('A'),
        2 => Some('B'),
        3 => Some('C'),
        4 => Some('D'),
        5 => Some('E'),
        6 => Some('F'),
        7 => Some('G'),
        8 => Some('H'),
        9 => Some('I'),
        10 => Some('\u{394}'),
        11 => Some('J'),
        12 => Some('K'),
        13 => Some('L'),
        14 => Some('M'),
        15 => Some('N'),
        16 => Some('O'),
        17 => Some('P'),
        18 => Some('Q'),
        19 => Some('R'),
        20 => Some('\u{3a3}'),
        21 => Some('\u{3a0}'),
        22 => Some('S'),
        23 => Some('T'),
        24 => Some('U'),
        25 => Some('V'),
        26 => Some('W'),
        27 => Some('X'),
        28 => Some('Y'),
        29 => Some('Z'),
        30 => Some('0'),
        31 => Some('1'),
        32 => Some('2'),
        33 => Some('3'),
        34 => Some('4'),
        35 => Some('5'),
        36 => Some('6'),
        37 => Some('7'),
        38 => Some('8'),
        39 => Some('9'),
        40 => Some('.'),
        41 => Some(','),
        42 => Some('('),
        43 => Some(')'),
        44 => Some('+'),
        45 => Some('-'),
        46 => Some('*'),
        47 => Some('/'),
        48 => Some('='),
        49 => Some('$'),
        50 => Some('<'),
        51 => Some('>'),
        52 => Some('@'),
        53 => Some(';'),
        54 => Some(':'),
        55 => Some('\''),
        _ => None,
    }
}

/// The table is a bijection between its 56 characters and the codes below
/// 56: a code's character has that code, and a character's code has that
/// character.
pub proof fn lemma_char_table_bijective(byte: u8, ch: char)
    ensures
        spec_char_of(byte) is Some <==> byte < 56,
        spec_char_of(byte) == Some(ch) <==> spec_code_of(ch) == Some(byte),
{
}

} // verus!
