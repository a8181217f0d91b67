//! Text as sequences of characters.

use vstd::prelude::*;

verus! {

/// `String::push` of std: appends one character to the end of the string.
#[verifier::external_body]
pub(crate) fn push_char(s: &mut String, ch: char)
    ensures
        final(s)@ == old(s)@.push(ch),
{
    s.push(ch)
}

/// The string made of the characters of `chars`, in order.
pub fn string_from_chars(chars: &Vec<char>) -> (s: String)
    ensures
        s@ == chars@,
{
    let mut s = String::new();
    let mut i: usize = 0;
    while i < chars.len()
        invariant
            i <= chars.len(),
            s@ == chars@.take(i as int),
        decreases chars.len() - i,
    {
        push_char(&mut s, chars[i]);
        assert(chars@.take(i as int).push(chars@[i as int]) =~= chars@.take(i + 1));
        i += 1;
    }
    assert(chars@.take(chars.len() as int) =~= chars@);
    s
}

/// The characters of `s`, in order.
pub fn chars_of(s: &str) -> (chars: Vec<char>)
    ensures
        chars@ == s@,
{
    let mut chars: Vec<char> = Vec::new();
    for ch in it: s.chars()
        invariant
            it.seq() == s@,
            chars@ == it.seq().take(it.index() as int),
    {
        chars.push(ch);
        assert(it.seq().take(it.index() as int).push(ch) =~= it.seq().take(it.index() + 1));
    }
    assert(s@.take(s@.len() as int) =~= s@);
    chars
}

/// The character of a decimal digit.
pub open spec fn spec_digit_char(digit: int) -> char {
    if digit == 0 {
        '0'
    } else if digit == 1 {
        '1'
    } else if digit == 2 {
        '2'
    } else if digit == 3 {
        '3'
    } else if digit == 4 {
        '4'
    } else if digit == 5 {
        '5'
    } else if digit == 6 {
        '6'
    } else if digit == 7 {
        '7'
    } else if digit == 8 {
        '8'
    } else {
        '9'
    }
}

/// The decimal digits of a natural number, without leading zeros.
pub open spec fn spec_decimal_digits(n: nat) -> Seq<char>
    decreases n,
{
    if n < 10 {
        seq![spec_digit_char(n as int)]
    } else {
        spec_decimal_digits(n / 10).push(spec_digit_char((n % 10) as int))
    }
}

/// The decimal text of an integer: a minus sign for a negative one, then
/// the digits of its magnitude.
pub open spec fn spec_decimal_text(value: int) -> Seq<char> {
    if value < 0 {
        seq!['-'] + spec_decimal_digits((-value) as nat)
    } else {
        spec_decimal_digits(value as nat)
    }
}

/// The last `width` decimal digits of a natural number, with leading zeros
/// where it has fewer.
pub open spec fn spec_padded_digits(n: nat, width: nat) -> Seq<char>
    decreases width,
{
    if width == 0 {
        Seq::empty()
    } else {
        spec_padded_digits(n / 10, (width - 1) as nat).push(spec_digit_char((n % 10) as int))
    }
}

/// The character of a decimal digit.
pub fn digit_char(digit: u8) -> (ch: char)
    requires
        digit < 10,
    ensures
        ch == spec_digit_char(digit as int),
{
    match digit {
        0 => '0',
        1 => '1',
        2 => '2',
        3 => '3',
        4 => '4',
        5 => '5',
        6 => '6',
        7 => '7',
        8 => '8',
        _ => '9',
    }
}

/// The characters of `chars` in the opposite order.
pub fn reversed(chars: &Vec<char>) -> (r: Vec<char>)
    ensures
        r@ == chars@.reverse(),
{
    let mut r: Vec<char> = Vec::new();
    let mut i: usize = chars.len();
    while i > 0
        invariant
            i <= chars@.len(),
            r@.len() == chars@.len() - i,
            forall|k: int| 0 <= k < r@.len() ==> r@[k] == chars@[chars@.len() - 1 - k],
        decreases i,
    {
        i -= 1;
        r.push(chars[i]);
    }
    assert(r@ =~= chars@.reverse());
    r
}

/// The decimal digits of a number, least significant first.
fn digits_reversed(n: u128) -> (r: Vec<char>)
    ensures
        r@.reverse() == spec_decimal_digits(n as nat),
    decreases n,
{
    let mut r: Vec<char> = Vec::new();
    r.push(digit_char((n % 10) as u8));
    if n >= 10 {
        let mut rest = digits_reversed(n / 10);
        let ghost higher = rest@;
        r.append(&mut rest);
        assert(r@ =~= seq![spec_digit_char((n % 10) as int)] + higher);
        assert(r@.reverse() =~= higher.reverse().push(spec_digit_char((n % 10) as int)));
    } else {
        assert(r@.reverse() =~= seq![spec_digit_char(n as int)]);
    }
    r
}

/// The decimal text of an integer.
pub fn decimal_text(value: i64) -> (text: String)
    ensures
        text@ == spec_decimal_text(value as int),
{
    let magnitude: u128 = if value < 0 {
        (-(value as i128)) as u128
    } else {
        value as u128
    };
    let digits = reversed(&digits_reversed(magnitude));
    let mut text = String::new();
    if value < 0 {
        push_char(&mut text, '-');
    }
    let mut i: usize = 0;
    while i < digits.len()
        invariant
            i <= digits@.len(),
            text@ == (if value < 0 {
                seq!['-']
            } else {
                Seq::<char>::empty()
            }) + digits@.take(i as int),
        decreases digits@.len() - i,
    {
        push_char(&mut text, digits[i]);
        assert(digits@.take(i as int).push(digits@[i as int]) =~= digits@.take(i + 1));
        i += 1;
    }
    assert(digits@.take(digits@.len() as int) =~= digits@);
    text
}

/// The last `width` decimal digits of a number, with leading zeros where it
/// has fewer.
pub fn padded_digits(n: u64, width: usize) -> (digits: Vec<char>)
    ensures
        digits@ == spec_padded_digits(n as nat, width as nat),
{
    let mut low_first: Vec<char> = Vec::new();
    let mut rest = n;
    let mut i: usize = 0;
    while i < width
        invariant
            i <= width,
            low_first@.len() == i,
            spec_padded_digits(n as nat, width as nat) == spec_padded_digits(
                rest as nat,
                (width - i) as nat,
            ) + low_first@.reverse(),
        decreases width - i,
    {
        let ghost before = low_first@;
        low_first.push(digit_char((rest % 10) as u8));
        proof {
            let d = spec_digit_char((rest % 10) as int);
            assert(low_first@.reverse() =~= seq![d] + before.reverse());
            assert(spec_padded_digits(rest as nat, (width - i) as nat) + before.reverse()
                =~= spec_padded_digits((rest / 10) as nat, (width - i - 1) as nat) + (seq![d]
                + before.reverse()));
        }
        rest = rest / 10;
        i += 1;
    }
    let digits = reversed(&low_first);
    assert(spec_padded_digits(rest as nat, 0) + low_first@.reverse() =~= low_first@.reverse());
    digits
}

/// Whether two texts hold the same characters.
pub fn same_text(a: &str, b: &str) -> (r: bool)
    ensures
        r == (a@ == b@),
{
    let left = chars_of(a);
    let right = chars_of(b);
    if left.len() != right.len() {
        return false;
    }
    let mut i: usize = 0;
    while i < left.len()
        invariant
            i <= left@.len(),
            left@.len() == right@.len(),
            left@ == a@,
            right@ == b@,
            forall|k: int| 0 <= k < i ==> left@[k] == right@[k],
        decreases left@.len() - i,
    {
        if left[i] != right[i] {
            return false;
        }
        i += 1;
    }
    assert(left@ =~= right@);
    true
}

} // verus!
