//! Constants and small helpers shared by the other modules.

use vstd::prelude::*;

verus! {

/// Number of columns that a tab moves the cursor.
pub const TABS: usize = 8;

/// The standard baud rates, from the fastest to the slowest.
pub const BAUDS: [u32; 30] = [
    4000000,
    3500000,
    3000000,
    2500000,
    2000000,
    1500000,
    1152000,
    1000000,
    921600,
    576000,
    500000,
    460800,
    230400,
    115200,
    57600,
    38400,
    19200,
    9600,
    4800,
    2400,
    1800,
    1200,
    600,
    300,
    200,
    150,
    134,
    110,
    75,
    50,
];

/// Whether `c` is one of the 128 ASCII characters.
pub open spec fn is_ascii_char(c: char) -> bool {
    (c as u32) < 128
}

/// The byte of an ASCII character.
pub fn get_ascii_byte(c: char) -> (byte: u8)
    requires
        is_ascii_char(c),
    ensures
        byte == c as u8,
        byte as u32 == c as u32,
{
    c as u8
}

/// Whether `c` is one of the ten decimal digits.
pub open spec fn is_digit(c: char) -> bool {
    '0' <= c && c <= '9'
}

/// Whether `chars` holds decimal digits only.
pub open spec fn all_digits(chars: Seq<char>) -> bool {
    forall|i: int| 0 <= i < chars.len() ==> is_digit(#[trigger] chars[i])
}

/// The number that a string of decimal digits stands for.
pub open spec fn decimal_value(digits: Seq<char>) -> nat
    decreases digits.len(),
{
    if digits.len() == 0 {
        0
    } else {
        decimal_value(digits.drop_last()) * 10 + (digits.last() as u32 - '0' as u32) as nat
    }
}

/// The digits of a typed number: the line without the plus sign that may
/// stand in front.
pub open spec fn unsigned_part(line: Seq<char>) -> Seq<char> {
    if line.len() > 0 && line[0] == '+' {
        line.drop_first()
    } else {
        line
    }
}

/// The number that a typed line stands for: one or more decimal digits, with
/// or without a plus sign in front, that make a number no greater than
/// `u32::MAX`. Any other line stands for none.
pub open spec fn parsed_u32(line: Seq<char>) -> Option<u32> {
    let digits = unsigned_part(line);
    if digits.len() > 0 && all_digits(digits) && decimal_value(digits) <= u32::MAX {
        Some(decimal_value(digits) as u32)
    } else {
        None
    }
}

/// A string of digits stands for no less than any of its beginnings.
proof fn lemma_decimal_value_grows(digits: Seq<char>, n: int)
    requires
        all_digits(digits),
        0 <= n <= digits.len(),
    ensures
        decimal_value(digits.take(n)) <= decimal_value(digits),
    decreases digits.len() - n,
{
    if n == digits.len() {
        assert(digits.take(n) == digits);
    } else {
        lemma_decimal_value_grows(digits.drop_last(), n);
        assert(digits.drop_last().take(n) == digits.take(n));
        assert(is_digit(digits[digits.len() - 1]));
    }
}

/// Reads a typed line as a decimal number, as `u32::from_str_radix` with
/// radix 10 reads a string.
pub fn parse_u32(line: &Vec<char>) -> (number: Option<u32>)
    ensures
        number == parsed_u32(line@),
{
    let start: usize = if line.len() > 0 && line[0] == '+' {
        1
    } else {
        0
    };
    let ghost digits = unsigned_part(line@);
    assert(digits == line@.skip(start as int));
    if start == line.len() {
        return None;
    }
    let mut value: u32 = 0;
    let mut i: usize = start;
    while i < line.len()
        invariant
            start <= i <= line.len(),
            digits == unsigned_part(line@),
            digits == line@.skip(start as int),
            all_digits(digits.take(i - start)),
            value == decimal_value(digits.take(i - start)),
        decreases line.len() - i,
    {
        let c = line[i];
        assert(c == digits[i - start]);
        if !('0' <= c && c <= '9') {
            return None;
        }
        let digit: u32 = c as u32 - '0' as u32;
        proof {
            let before = digits.take(i - start);
            let after = digits.take(i - start + 1);
            assert(after.drop_last() == before);
            assert(after.last() == c);
            assert forall|j: int| 0 <= j < after.len() implies is_digit(#[trigger] after[j]) by {
                if j < before.len() {
                    assert(after[j] == before[j]);
                }
            }
            assert(decimal_value(after) == value * 10 + digit);
            if all_digits(digits) {
                lemma_decimal_value_grows(digits, i - start + 1);
            }
        }
        if value > (u32::MAX - digit) / 10 {
            return None;
        }
        value = value * 10 + digit;
        i += 1;
    }
    assert(digits.take(i - start) == digits);
    Some(value)
}

/// `String::push` of the standard library, for which `vstd` has no
/// specification: it appends the character to the end of the string.
/// Trusted.
pub assume_specification[ String::push ](text: &mut String, c: char)
    ensures
        final(text)@ == old(text)@.push(c),
;

/// The character of a decimal digit.
pub open spec fn digit_char(digit: nat) -> char {
    ((48 + digit) as u8) as char
}

/// A number written in decimal, without leading zeros.
pub open spec fn decimal(n: nat) -> Seq<char>
    decreases n,
{
    if n < 10 {
        seq![digit_char(n)]
    } else {
        decimal(n / 10).push(digit_char(n % 10))
    }
}

/// Appends a number, written in decimal, to a text.
pub fn push_decimal(text: &mut String, n: u32)
    ensures
        final(text)@ == old(text)@ + decimal(n as nat),
    decreases n,
{
    if n >= 10 {
        push_decimal(text, n / 10);
    }
    let digit: u8 = (n % 10) as u8;
    text.push((48 + digit) as char);
    proof {
        if n >= 10 {
            assert(final(text)@ == (old(text)@ + decimal((n / 10) as nat)).push(
                digit_char((n % 10) as nat),
            ));
        }
        assert(final(text)@ =~= old(text)@ + decimal(n as nat));
    }
}

/// A number that was written in decimal is read back as itself.
pub proof fn lemma_decimal_is_parsed(n: u32)
    ensures
        parsed_u32(decimal(n as nat)) == Some(n),
{
    lemma_decimal_value(n as nat);
    let text = decimal(n as nat);
    assert(text[0] != '+');
}

/// What is written for a number is made of digits and stands for the number.
proof fn lemma_decimal_value(n: nat)
    ensures
        decimal(n).len() > 0,
        all_digits(decimal(n)),
        decimal_value(decimal(n)) == n,
    decreases n,
{
    if n < 10 {
        let text = decimal(n);
        assert(text.drop_last() == Seq::<char>::empty());
        assert(decimal_value(text.drop_last()) == 0);
    } else {
        lemma_decimal_value(n / 10);
        let head = decimal(n / 10);
        let text = decimal(n);
        assert(text.drop_last() == head);
        assert forall|i: int| 0 <= i < text.len() implies is_digit(#[trigger] text[i]) by {
            if i < head.len() {
                assert(text[i] == head[i]);
            }
        }
    }
}

} // verus!
