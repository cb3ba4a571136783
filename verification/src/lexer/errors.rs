use vstd::prelude::*;

verus! {

/// Why no token could be produced. Each error carries the line on which the
/// offending token started.
#[derive(Clone, Copy, Debug, PartialEq, Eq, Structural)]
pub enum LexerError {
    /// A character that starts no token.
    UnexpectedCharacter { line: usize },
    /// The input ended where a character was required.
    ExpectedCharacter { line: usize },
    /// A character literal that holds more than one character.
    MultipleCharsInCharLiteral { line: usize },
    /// A character literal that holds nothing: `''`.
    EmptyCharacterLiteral { line: usize },
    /// A backslash followed by a character that names no escape.
    InvalidEscapeSequence { line: usize },
}

} // verus!
