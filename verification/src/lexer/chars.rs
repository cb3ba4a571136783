//! Character classes of the token grammar.

use vstd::prelude::*;

verus! {

/// Whether a character has the Unicode property `Alphabetic`, as
/// `char::is_alphabetic` reports it.
pub uninterp spec fn alphabetic(c: char) -> bool;

/// `char::is_alphabetic` of the standard library, which vstd leaves
/// unspecified. The answer depends on the character alone; it is given the
/// name [`alphabetic`], and nothing more is claimed of it.
pub assume_specification[ char::is_alphabetic ](c: char) -> (b: bool)
    ensures
        b == alphabetic(c),
;

/// A space, a tab or a newline: the characters between tokens.
pub open spec fn is_blank(c: char) -> bool {
    c == ' ' || c == '\t' || c == '\n'
}

/// One of the ten digits `0` to `9`.
pub open spec fn is_decimal_digit(c: char) -> bool {
    '0' <= c <= '9'
}

/// A character that may follow the first one of an identifier.
pub open spec fn is_identifier_part(c: char) -> bool {
    alphabetic(c) || is_decimal_digit(c) || c == '_'
}

/// A character of a numeric literal other than the decimal point.
pub open spec fn is_number_part(c: char) -> bool {
    is_decimal_digit(c) || c == '_'
}

/// The character that an escape stands for, by the character that follows
/// the backslash.
pub open spec fn unescape(c: char) -> Option<char> {
    if c == 'n' {
        Some('\n')
    } else if c == 'r' {
        Some('\r')
    } else if c == 't' {
        Some('\t')
    } else if c == '\\' {
        Some('\\')
    } else if c == '\'' {
        Some('\'')
    } else if c == '"' {
        Some('"')
    } else if c == '0' {
        Some('\0')
    } else {
        None
    }
}

/// What a character that is neither blank, punctuation, operator nor quote
/// begins.
#[derive(Clone, Copy, Debug, PartialEq, Eq, Structural)]
pub enum Lead {
    /// An identifier or a keyword.
    Word,
    /// A numeric literal.
    Number,
    /// No token.
    Nothing,
}

/// What `c` begins, where `alphabetic` tells whether `c` is alphabetic.
/// An alphabetic character begins a word even if it is a digit as well.
pub open spec fn lead_of(c: char, alphabetic: bool) -> Lead {
    if alphabetic {
        Lead::Word
    } else if is_decimal_digit(c) {
        Lead::Number
    } else {
        Lead::Nothing
    }
}

/// Tells whether `c` is one of the digits `0` to `9`.
pub fn decimal_digit(c: char) -> (b: bool)
    ensures
        b == is_decimal_digit(c),
{
    '0' <= c && c <= '9'
}

/// Tells what `c` begins, given whether it is alphabetic.
pub fn lead(c: char, alphabetic: bool) -> (l: Lead)
    ensures
        l == lead_of(c, alphabetic),
{
    if alphabetic {
        Lead::Word
    } else if decimal_digit(c) {
        Lead::Number
    } else {
        Lead::Nothing
    }
}

/// Tells whether `c` may follow the first character of an identifier, given
/// whether it is alphabetic.
pub fn continues_identifier(c: char, alphabetic: bool) -> (b: bool)
    ensures
        b == (alphabetic || is_decimal_digit(c) || c == '_'),
{
    alphabetic || decimal_digit(c) || c == '_'
}

/// Tells whether `c` may stand in a numeric literal, the decimal point
/// aside.
pub fn continues_number(c: char) -> (b: bool)
    ensures
        b == is_number_part(c),
{
    decimal_digit(c) || c == '_'
}

/// Decodes the character that follows a backslash.
pub fn decode_escape(c: char) -> (r: Option<char>)
    ensures
        r == unescape(c),
{
    match c {
        'n' => Some('\n'),
        'r' => Some('\r'),
        't' => Some('\t'),
        '\\' => Some('\\'),
        '\'' => Some('\''),
        '"' => Some('"'),
        '0' => Some('\0'),
        _ => None,
    }
}

} // verus!
