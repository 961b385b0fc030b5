//! Single hexadecimal digits and the four-bit values they stand for.

use vstd::prelude::*;

verus! {

/// Whether `c` is one of `0-9`, `a-f` or `A-F`.
pub open spec fn is_hex_digit(c: char) -> bool {
    ||| '0' <= c <= '9'
    ||| 'a' <= c <= 'f'
    ||| 'A' <= c <= 'F'
}

/// The value, 0 to 15, that the hex digit `c` stands for. A letter counts
/// the same in either case.
pub open spec fn digit_value(c: char) -> int
    recommends
        is_hex_digit(c),
{
    if '0' <= c <= '9' {
        c as int - '0' as int
    } else if 'a' <= c <= 'f' {
        c as int - 'a' as int + 10
    } else {
        c as int - 'A' as int + 10
    }
}

/// The digit that writes the value `v`, with letters in the chosen case.
pub open spec fn hex_digit(v: int, uppercase: bool) -> char
    recommends
        0 <= v < 16,
{
    if v < 10 {
        ('0' as int + v) as char
    } else if uppercase {
        ('A' as int + v - 10) as char
    } else {
        ('a' as int + v - 10) as char
    }
}

/// `c` with an ASCII capital letter replaced by its small letter.
pub open spec fn ascii_lower(c: char) -> char {
    if 'A' <= c <= 'Z' {
        (c as int + 32) as char
    } else {
        c
    }
}

/// `c` with an ASCII small letter replaced by its capital letter.
pub open spec fn ascii_upper(c: char) -> char {
    if 'a' <= c <= 'z' {
        (c as int - 32) as char
    } else {
        c
    }
}

/// Reads one hex digit: `Some` of its value for a digit, `None` for any
/// other character.
pub fn parse_digit(c: char) -> (r: Option<u8>)
    ensures
        r is Some <==> is_hex_digit(c),
        r matches Some(v) ==> v as int == digit_value(c) && v < 16,
{
    if '0' <= c && c <= '9' {
        Some(c as u8 - '0' as u8)
    } else if 'a' <= c && c <= 'f' {
        Some(c as u8 - 'a' as u8 + 10)
    } else if 'A' <= c && c <= 'F' {
        Some(c as u8 - 'A' as u8 + 10)
    } else {
        None
    }
}

/// Writes the value `v` as one hex digit, with letters in the chosen case.
pub fn digit_char(v: u8, uppercase: bool) -> (c: char)
    requires
        v < 16,
    ensures
        c == hex_digit(v as int, uppercase),
{
    if v < 10 {
        ('0' as u8 + v) as char
    } else if uppercase {
        ('A' as u8 + (v - 10)) as char
    } else {
        ('a' as u8 + (v - 10)) as char
    }
}

/// Every value below sixteen is written as a hex digit, and reading that
/// digit gives the value back, whichever case was chosen.
pub proof fn lemma_digit_value_of_hex_digit(v: int, uppercase: bool)
    requires
        0 <= v < 16,
    ensures
        is_hex_digit(hex_digit(v, uppercase)),
        digit_value(hex_digit(v, uppercase)) == v,
{
}

/// A hex digit stands for a value below sixteen, and writing that value
/// gives the digit back in the chosen case.
pub proof fn lemma_hex_digit_of_digit_value(c: char)
    requires
        is_hex_digit(c),
    ensures
        0 <= digit_value(c) < 16,
        hex_digit(digit_value(c), false) == ascii_lower(c),
        hex_digit(digit_value(c), true) == ascii_upper(c),
{
}

/// Changing the case of a character changes neither whether it is a hex
/// digit nor its value.
pub proof fn lemma_case_keeps_digit(c: char)
    ensures
        is_hex_digit(ascii_lower(c)) == is_hex_digit(c),
        is_hex_digit(ascii_upper(c)) == is_hex_digit(c),
        is_hex_digit(c) ==> digit_value(ascii_lower(c)) == digit_value(c),
        is_hex_digit(c) ==> digit_value(ascii_upper(c)) == digit_value(c),
{
}

} // verus!
