//! The token grammar, as mathematics.
//!
//! Everything here is a specification over a source text `src`, a sequence
//! of characters indexed by code point. [`scan`] says which token starts
//! at or after a cursor position, where the cursor stands afterwards, and
//! on which line; the lexer is proved to compute exactly that.
//!
//! Decisions that the grammar takes:
//!
//! * The quote that closes a character literal is looked at but not
//!   consumed: the cursor rests on it.
//! * A string literal that meets the end of the input is closed there,
//!   without an error.
//! * Only newlines between tokens count as line breaks. A newline inside
//!   a literal is an ordinary character of the literal.
//! * The cursor and the line number are machine integers: both stop at
//!   `usize::MAX` instead of overflowing.

use super::chars::{alphabetic, is_blank, is_decimal_digit, is_identifier_part, is_number_part, unescape};
use super::errors::LexerError;
use super::kw::keyword_of;
use super::tokens::TokenKindView;
use vstd::prelude::*;

verus! {

/// `n + k`, except that counting stops at `usize::MAX`.
pub open spec fn saturate(n: nat, k: nat) -> nat {
    if n + k <= usize::MAX {
        n + k
    } else if n <= usize::MAX {
        usize::MAX as nat
    } else {
        n
    }
}

/// The character at `pos`, if `pos` is inside the text.
pub open spec fn char_at(src: Seq<char>, pos: nat) -> Option<char> {
    if pos < src.len() {
        Some(src[pos as int])
    } else {
        None
    }
}

/// The classes of characters that tokens consume in runs.
pub enum CharClass {
    Blank,
    IdentifierPart,
    NumberPart,
}

/// Whether `c` belongs to `class`.
pub open spec fn in_class(c: char, class: CharClass) -> bool {
    match class {
        CharClass::Blank => is_blank(c),
        CharClass::IdentifierPart => is_identifier_part(c),
        CharClass::NumberPart => is_number_part(c),
    }
}

/// Where the longest run of characters of `class` that starts at `pos`
/// ends: the first position at or after `pos` that is outside the text or
/// holds a character of another class.
pub open spec fn run_end(src: Seq<char>, pos: nat, class: CharClass) -> nat
    decreases src.len() - pos,
{
    if pos < src.len() && in_class(src[pos as int], class) {
        run_end(src, pos + 1, class)
    } else {
        pos
    }
}

/// The number of newline characters in `src` from `from` up to, and
/// without, `to`.
pub open spec fn newlines(src: Seq<char>, from: nat, to: nat) -> nat
    decreases to,
{
    if from < to <= src.len() {
        newlines(src, from, (to - 1) as nat) + if src[to - 1] == '\n' {
            1nat
        } else {
            0nat
        }
    } else {
        0
    }
}

/// Where a numeric literal ends whose first digit stands just before
/// `pos`: after a run of digits and underscores, then, if a decimal point
/// follows, after the point and one more such run.
pub open spec fn number_end(src: Seq<char>, pos: nat) -> nat {
    let whole = run_end(src, pos, CharClass::NumberPart);
    if char_at(src, whole) == Some('.') {
        run_end(src, whole + 1, CharClass::NumberPart)
    } else {
        whole
    }
}

/// What reading a part of a literal gives, and where the cursor stands
/// afterwards.
pub struct Read<T> {
    pub value: Result<T, LexerError>,
    pub end: nat,
}

/// Reads the character after a backslash, at `pos`, and decodes the
/// escape. Exactly one position is consumed, also where the input has
/// ended.
pub open spec fn escape(src: Seq<char>, pos: nat, line: nat) -> Read<char> {
    match char_at(src, pos) {
        None => Read {
            value: Err(LexerError::ExpectedCharacter { line: line as usize }),
            end: saturate(pos, 1),
        },
        Some(c) => Read {
            value: match unescape(c) {
                Some(decoded) => Ok(decoded),
                None => Err(LexerError::InvalidEscapeSequence { line: line as usize }),
            },
            end: pos + 1,
        },
    }
}

/// The value of a character literal once its content has been read up to
/// `end`: the content, if a closing quote stands at `end`.
pub open spec fn closed_char(src: Seq<char>, content: char, end: nat, line: nat) -> Read<char> {
    Read {
        value: if char_at(src, end) == Some('\'') {
            Ok(content)
        } else {
            Err(LexerError::MultipleCharsInCharLiteral { line: line as usize })
        },
        end,
    }
}

/// Reads a character literal whose opening quote stands just before
/// `pos`.
pub open spec fn char_literal(src: Seq<char>, pos: nat, line: nat) -> Read<char> {
    match char_at(src, pos) {
        None => Read {
            value: Err(LexerError::ExpectedCharacter { line: line as usize }),
            end: saturate(pos, 1),
        },
        Some(c) => if c == '\'' {
            Read {
                value: Err(LexerError::EmptyCharacterLiteral { line: line as usize }),
                end: pos + 1,
            }
        } else if c == '\\' {
            let escaped = escape(src, pos + 1, line);
            match escaped.value {
                Ok(decoded) => closed_char(src, decoded, escaped.end, line),
                Err(_) => escaped,
            }
        } else {
            closed_char(src, c, pos + 1, line)
        },
    }
}

/// Puts `c` in front of the text that `rest` read.
pub open spec fn prepend(c: char, rest: Read<Seq<char>>) -> Read<Seq<char>> {
    Read {
        value: match rest.value {
            Ok(text) => Ok(seq![c] + text),
            Err(e) => Err(e),
        },
        end: rest.end,
    }
}

/// Reads the rest of a string literal from `pos` on: up to and with the
/// closing quote, or to the end of the input. The first escape that
/// cannot be decoded ends the reading with its error.
pub open spec fn string_literal(src: Seq<char>, pos: nat, line: nat) -> Read<Seq<char>>
    decreases src.len() - pos,
{
    match char_at(src, pos) {
        None => Read { value: Ok(Seq::empty()), end: saturate(pos, 1) },
        Some(c) => if c == '"' {
            Read { value: Ok(Seq::empty()), end: pos + 1 }
        } else if c == '\\' {
            let escaped = escape(src, pos + 1, line);
            match escaped.value {
                Ok(decoded) => prepend(decoded, string_literal(src, pos + 2, line)),
                Err(e) => Read { value: Err(e), end: escaped.end },
            }
        } else {
            prepend(c, string_literal(src, pos + 1, line))
        },
    }
}

/// The token that `c` alone is, for the punctuation that never combines
/// with what follows.
pub open spec fn punctuation(c: char) -> Option<TokenKindView> {
    if c == '(' {
        Some(TokenKindView::LeftParen)
    } else if c == ')' {
        Some(TokenKindView::RightParen)
    } else if c == '[' {
        Some(TokenKindView::LeftSquare)
    } else if c == ']' {
        Some(TokenKindView::RightSquare)
    } else if c == '{' {
        Some(TokenKindView::LeftBracket)
    } else if c == '}' {
        Some(TokenKindView::RightBracket)
    } else if c == '.' {
        Some(TokenKindView::Dot)
    } else if c == ';' {
        Some(TokenKindView::Semicolon)
    } else if c == ':' {
        Some(TokenKindView::Colon)
    } else if c == ',' {
        Some(TokenKindView::Comma)
    } else if c == '^' {
        Some(TokenKindView::Exponent)
    } else if c == '~' {
        Some(TokenKindView::BitwiseNot)
    } else {
        None
    }
}

/// An operator, and the number of characters that it spans.
pub struct Operator {
    pub kind: TokenKindView,
    pub width: nat,
}

/// The operator that starts with `c`, where `next` is the character
/// after `c`. One character of lookahead decides; where `next` can
/// continue the operator in two ways, `=` is tried first.
pub open spec fn operator(c: char, next: Option<char>) -> Option<Operator> {
    let one = |kind: TokenKindView| Some(Operator { kind, width: 1 });
    let two = |kind: TokenKindView| Some(Operator { kind, width: 2 });
    if c == '=' {
        if next == Some('=') { two(TokenKindView::Equals) } else { one(TokenKindView::Assign) }
    } else if c == '+' {
        if next == Some('=') { two(TokenKindView::PlusEquals) } else { one(TokenKindView::Plus) }
    } else if c == '-' {
        if next == Some('=') { two(TokenKindView::MinusEquals) } else { one(TokenKindView::Minus) }
    } else if c == '*' {
        if next == Some('=') { two(TokenKindView::MulEquals) } else { one(TokenKindView::Mul) }
    } else if c == '/' {
        if next == Some('=') { two(TokenKindView::DivEquals) } else { one(TokenKindView::Div) }
    } else if c == '!' {
        if next == Some('=') { two(TokenKindView::NotEquals) } else { one(TokenKindView::Not) }
    } else if c == '<' {
        if next == Some('=') {
            two(TokenKindView::LessThanEqualTo)
        } else {
            one(TokenKindView::LessThan)
        }
    } else if c == '>' {
        if next == Some('=') {
            two(TokenKindView::GreaterThanEqualTo)
        } else {
            one(TokenKindView::GreaterThan)
        }
    } else if c == '&' {
        if next == Some('=') {
            two(TokenKindView::BitwiseAndEquals)
        } else if next == Some('&') {
            two(TokenKindView::And)
        } else {
            one(TokenKindView::BitwiseAnd)
        }
    } else if c == '|' {
        if next == Some('=') {
            two(TokenKindView::BitwiseOrEquals)
        } else if next == Some('|') {
            two(TokenKindView::Or)
        } else {
            one(TokenKindView::BitwiseOr)
        }
    } else {
        None
    }
}

/// The identifier or keyword that `text` is.
pub open spec fn word(text: Seq<char>) -> TokenKindView {
    match keyword_of(text) {
        Some(kw) => TokenKindView::Keyword(kw),
        None => TokenKindView::Identifier(text),
    }
}

/// One production of a token: the token's kind or the error, the cursor
/// afterwards, and the line on which the token started.
pub struct Step {
    pub outcome: Result<TokenKindView, LexerError>,
    pub end: nat,
    pub line: nat,
}

/// The token that starts at `start` with the character `c`, on `line`.
pub open spec fn token_at(src: Seq<char>, start: nat, c: char, line: nat) -> Step {
    if punctuation(c) is Some {
        Step { outcome: Ok(punctuation(c)->0), end: start + 1, line }
    } else if operator(c, char_at(src, start + 1)) is Some {
        let op = operator(c, char_at(src, start + 1))->0;
        Step { outcome: Ok(op.kind), end: start + op.width, line }
    } else if c == '\'' {
        let literal = char_literal(src, start + 1, line);
        Step {
            outcome: match literal.value {
                Ok(decoded) => Ok(TokenKindView::Char(decoded)),
                Err(e) => Err(e),
            },
            end: literal.end,
            line,
        }
    } else if c == '"' {
        let literal = string_literal(src, start + 1, line);
        Step {
            outcome: match literal.value {
                Ok(text) => Ok(TokenKindView::String(text)),
                Err(e) => Err(e),
            },
            end: literal.end,
            line,
        }
    } else if alphabetic(c) {
        let end = run_end(src, start + 1, CharClass::IdentifierPart);
        Step { outcome: Ok(word(src.subrange(start as int, end as int))), end, line }
    } else if is_decimal_digit(c) {
        let end = number_end(src, start + 1);
        Step {
            outcome: Ok(TokenKindView::Number(src.subrange(start as int, end as int))),
            end,
            line,
        }
    } else {
        Step {
            outcome: Err(LexerError::UnexpectedCharacter { line: line as usize }),
            end: start + 1,
            line,
        }
    }
}

/// Produces one token with the cursor at `pos` on line `line`: blanks are
/// skipped, each newline among them counting one line, and the token that
/// follows is read; where nothing follows, the token is the end of the
/// input, and one more position is consumed.
pub open spec fn scan(src: Seq<char>, pos: nat, line: nat) -> Step {
    let start = run_end(src, pos, CharClass::Blank);
    let line = saturate(line, newlines(src, pos, start));
    match char_at(src, start) {
        None => Step { outcome: Ok(TokenKindView::EOF), end: saturate(start, 1), line },
        Some(c) => token_at(src, start, c, line),
    }
}

} // verus!
