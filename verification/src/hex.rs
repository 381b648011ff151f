//! Hexadecimal digits.

use vstd::prelude::*;

verus! {

/// The value of a hexadecimal digit.
pub open spec fn hex_value(c: char) -> Option<int> {
    if '0' <= c && c <= '9' {
        Some(c as int - '0' as int)
    } else if 'a' <= c && c <= 'f' {
        Some(c as int - 'a' as int + 10)
    } else if 'A' <= c && c <= 'F' {
        Some(c as int - 'A' as int + 10)
    } else {
        None
    }
}

/// The value of two characters as a hexadecimal number, which may have a
/// plus sign.
pub open spec fn hex_pair(a: char, b: char) -> Option<int> {
    match hex_value(b) {
        Some(low) => if a == '+' {
            Some(low)
        } else {
            match hex_value(a) {
                Some(high) => Some(16 * high + low),
                None => None,
            }
        },
        None => None,
    }
}

fn hex_digit(c: char) -> (r: Option<u8>)
    ensures
        match r {
            Some(v) => v < 16 && hex_value(c) == Some(v as int),
            None => hex_value(c) is None,
        },
{
    if '0' <= c && c <= '9' {
        Some(c as u8 - 48)
    } else if 'a' <= c && c <= 'f' {
        Some(c as u8 - 87)
    } else if 'A' <= c && c <= 'F' {
        Some(c as u8 - 55)
    } else {
        None
    }
}

/// [`hex_pair`], computed.
pub fn parse_hex_pair(a: char, b: char) -> (r: Option<u8>)
    ensures
        match r {
            Some(v) => hex_pair(a, b) == Some(v as int),
            None => hex_pair(a, b) is None,
        },
{
    match hex_digit(b) {
        Some(low) => if a == '+' {
            Some(low)
        } else {
            match hex_digit(a) {
                Some(high) => Some(16 * high + low),
                None => None,
            }
        },
        None => None,
    }
}

/// The lower-case hexadecimal digit for `n < 16`.
pub open spec fn hex_char_of(n: int) -> char {
    if n < 10 {
        ((48 + n) as u32) as char
    } else {
        ((87 + n) as u32) as char
    }
}

/// Bytes in lower-case hexadecimal.
pub open spec fn hex_text(bytes: Seq<u8>) -> Seq<char>
    decreases bytes.len(),
{
    if bytes.len() == 0 {
        Seq::empty()
    } else {
        let b = bytes.last() as int;
        hex_text(bytes.drop_last()).push(hex_char_of(b / 16)).push(hex_char_of(b % 16))
    }
}

/// [`hex_char_of`], computed.
pub fn hex_char(n: u8) -> (c: char)
    requires
        n < 16,
    ensures
        c == hex_char_of(n as int),
{
    if n < 10 {
        (48 + n) as char
    } else {
        (87 + n) as char
    }
}

} // verus!
