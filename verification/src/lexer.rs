//! The lexer: a cursor over a source text that hands out one token per
//! call.

pub mod chars;
pub mod errors;
pub mod grammar;
pub mod kw;
pub mod laws;
pub mod text;
pub mod tokens;

use self::chars::{continues_identifier, continues_number, decode_escape, lead, Lead};
use self::errors::LexerError;
use self::grammar::{
    char_at, char_literal, escape, newlines, number_end, run_end, saturate, scan, string_literal,
    CharClass, Read, Step,
};
use self::kw::Keyword;
use self::text::{chars_of, string_of};
use self::tokens::{Token, TokenKind, TokenView};
use vstd::prelude::*;

verus! {

/// A cursor over a source text.
pub struct Lexer {
    chars: Vec<char>,
    filename: String,
    pos: usize,
    line: usize,
}

/// The mathematical value of a [`Lexer`].
pub struct LexerView {
    /// The source text, one element for each code point.
    pub source: Seq<char>,
    /// The name that every token carries.
    pub filename: Seq<char>,
    /// Index of the next unread character. It may lie past the end.
    pub pos: nat,
    /// Line of the cursor, counted from 1.
    pub line: nat,
}

impl LexerView {
    /// The lexer that has read nothing of `source` yet.
    pub open spec fn start(filename: Seq<char>, source: Seq<char>) -> LexerView {
        LexerView { source, filename, pos: 0, line: 1 }
    }

    /// The character under the cursor.
    pub open spec fn peek(self) -> Option<char> {
        char_at(self.source, self.pos)
    }

    /// The lexer with the cursor one position further.
    pub open spec fn advance(self) -> LexerView {
        LexerView { pos: saturate(self.pos, 1), ..self }
    }

    /// The next production of a token.
    pub open spec fn step(self) -> Step {
        scan(self.source, self.pos, self.line)
    }

    /// What the next call for a token returns.
    pub open spec fn next_token(self) -> Result<TokenView, LexerError> {
        match self.step().outcome {
            Ok(kind) => Ok(TokenView { kind, line: self.step().line, filename: self.filename }),
            Err(e) => Err(e),
        }
    }

    /// The lexer after the next call for a token.
    pub open spec fn after_token(self) -> LexerView {
        LexerView { pos: self.step().end, line: self.step().line, ..self }
    }

    /// The lexer after `n` calls for a token.
    pub open spec fn after_tokens(self, n: nat) -> LexerView
        decreases n,
    {
        if n == 0 {
            self
        } else {
            self.after_tokens((n - 1) as nat).after_token()
        }
    }
}

/// The mathematical value of what a call for a token returns.
pub open spec fn outcome_view(r: Result<Token, LexerError>) -> Result<TokenView, LexerError> {
    match r {
        Ok(token) => Ok(token@),
        Err(e) => Err(e),
    }
}

impl View for Lexer {
    type V = LexerView;

    closed spec fn view(&self) -> LexerView {
        LexerView {
            source: self.chars@,
            filename: self.filename@,
            pos: self.pos as nat,
            line: self.line as nat,
        }
    }
}

impl Lexer {
    /// Lines are counted from 1.
    #[verifier::type_invariant]
    spec fn counts_lines_from_one(&self) -> bool {
        self.line >= 1
    }

    /// The source text, the cursor and the line number fit in a machine
    /// word.
    pub proof fn view_fits(&self)
        ensures
            self@.source.len() <= usize::MAX,
            self@.pos <= usize::MAX,
            self@.line <= usize::MAX,
    {
        assert(self.chars@.len() == self.chars.len());
    }

    /// A lexer at the start of `source`, on line 1. Any text is accepted.
    pub fn new(filename: String, source: String) -> (lexer: Lexer)
        ensures
            lexer@ == LexerView::start(filename@, source@),
    {
        let chars = chars_of(source.as_str());
        Lexer { chars, filename, pos: 0, line: 1 }
    }

    /// The character under the cursor, which stays where it is.
    pub fn peek(&self) -> (c: Option<char>)
        ensures
            c == self@.peek(),
    {
        if self.pos < self.chars.len() {
            Some(self.chars[self.pos])
        } else {
            None
        }
    }

    /// The character under the cursor, which then moves one position
    /// further, also where it is past the end already.
    pub fn advance(&mut self) -> (c: Option<char>)
        ensures
            c == old(self)@.peek(),
            final(self)@ == old(self)@.advance(),
    {
        proof {
            use_type_invariant(&*self);
        }
        let c = self.peek();
        self.pos = self.pos.saturating_add(1);
        c
    }

    /// A token of `kind` at the cursor's line.
    fn make_token(&self, kind: TokenKind) -> (token: Token)
        ensures
            token@ == (TokenView { kind: kind@, line: self@.line, filename: self@.filename }),
    {
        Token { kind, line: self.line, filename: self.filename.clone() }
    }

    /// Tells whether `c` stands under the cursor.
    fn next_is(&self, c: char) -> (b: bool)
        ensures
            b == (self@.peek() == Some(c)),
    {
        match self.peek() {
            Some(next) => next == c,
            None => false,
        }
    }

    /// Produces the next token, or the error that stands in its place.
    ///
    /// Blanks before the token are skipped, and each newline among them
    /// counts one line. At the end of the input the token is
    /// [`TokenKind::EOF`], on every call. After an error the cursor stays
    /// where the reading stopped, and the next call goes on from there.
    pub fn next_token(&mut self) -> (r: Result<Token, LexerError>)
        ensures
            outcome_view(r) == old(self)@.next_token(),
            final(self)@ == old(self)@.after_token(),
            1 <= old(self)@.line <= final(self)@.line,
    {
        proof {
            use_type_invariant(&*self);
        }
        let ghost src = self.chars@;
        let ghost pos0 = self.pos as nat;
        let ghost line0 = self.line as nat;
        let ghost mut start: nat = pos0;
        proof {
            self.view_fits();
        }
        let mut next = self.advance();
        loop
            invariant
                src.len() <= usize::MAX,
                self.chars@ == src,
                self.filename@ == old(self).filename@,
                next == char_at(src, start),
                self.pos as nat == saturate(start, 1),
                pos0 <= start,
                run_end(src, pos0, CharClass::Blank) == run_end(src, start, CharClass::Blank),
                self.line as nat == saturate(line0, newlines(src, pos0, start)),
            ensures
                start == run_end(src, pos0, CharClass::Blank),
            decreases src.len() - start,
        {
            match next {
                Some('\n') => {
                    self.line = self.line.saturating_add(1);
                },
                Some(' ') | Some('\t') => {},
                _ => {
                    break ;
                },
            }
            proof {
                start = start + 1;
            }
            next = self.advance();
        }
        let c = match next {
            None => {
                return Ok(self.make_token(TokenKind::EOF));
            },
            Some(c) => c,
        };
        let kind = match c {
            '(' => TokenKind::LeftParen,
            ')' => TokenKind::RightParen,
            '[' => TokenKind::LeftSquare,
            ']' => TokenKind::RightSquare,
            '{' => TokenKind::LeftBracket,
            '}' => TokenKind::RightBracket,
            '.' => TokenKind::Dot,
            ';' => TokenKind::Semicolon,
            ':' => TokenKind::Colon,
            ',' => TokenKind::Comma,
            '^' => TokenKind::Exponent,
            '~' => TokenKind::BitwiseNot,
            '=' => if self.next_is('=') {
                self.advance();
                TokenKind::Equals
            } else {
                TokenKind::Assign
            },
            '+' => if self.next_is('=') {
                self.advance();
                TokenKind::PlusEquals
            } else {
                TokenKind::Plus
            },
            '-' => if self.next_is('=') {
                self.advance();
                TokenKind::MinusEquals
            } else {
                TokenKind::Minus
            },
            '*' => if self.next_is('=') {
                self.advance();
                TokenKind::MulEquals
            } else {
                TokenKind::Mul
            },
            '/' => if self.next_is('=') {
                self.advance();
                TokenKind::DivEquals
            } else {
                TokenKind::Div
            },
            '&' => if self.next_is('=') {
                self.advance();
                TokenKind::BitwiseAndEquals
            } else if self.next_is('&') {
                self.advance();
                TokenKind::And
            } else {
                TokenKind::BitwiseAnd
            },
            '|' => if self.next_is('=') {
                self.advance();
                TokenKind::BitwiseOrEquals
            } else if self.next_is('|') {
                self.advance();
                TokenKind::Or
            } else {
                TokenKind::BitwiseOr
            },
            '!' => if self.next_is('=') {
                self.advance();
                TokenKind::NotEquals
            } else {
                TokenKind::Not
            },
            '<' => if self.next_is('=') {
                self.advance();
                TokenKind::LessThanEqualTo
            } else {
                TokenKind::LessThan
            },
            '>' => if self.next_is('=') {
                self.advance();
                TokenKind::GreaterThanEqualTo
            } else {
                TokenKind::GreaterThan
            },
            '\'' => match self.read_char() {
                Ok(decoded) => TokenKind::Char(decoded),
                Err(e) => {
                    return Err(e);
                },
            },
            '"' => match self.read_string() {
                Ok(text) => TokenKind::String(text),
                Err(e) => {
                    return Err(e);
                },
            },
            _ => match lead(c, c.is_alphabetic()) {
                Lead::Word => {
                    let ident = self.read_identifier();
                    match Keyword::from_str(ident.as_str()) {
                        Some(kw) => TokenKind::Keyword(kw),
                        None => TokenKind::Identifier(ident),
                    }
                },
                Lead::Number => TokenKind::Number(self.read_number()),
                Lead::Nothing => {
                    return Err(LexerError::UnexpectedCharacter { line: self.line });
                },
            },
        };
        Ok(self.make_token(kind))
    }

    /// Reads the rest of an identifier whose first character has just been
    /// consumed: the longest run of alphabetic characters, digits and
    /// underscores. Returns the identifier's text, first character
    /// included.
    fn read_identifier(&mut self) -> (text: String)
        requires
            1 <= old(self)@.pos <= old(self)@.source.len(),
        ensures
            final(self)@ == (LexerView {
                pos: run_end(old(self)@.source, old(self)@.pos, CharClass::IdentifierPart),
                ..old(self)@
            }),
            text@ == old(self)@.source.subrange(old(self)@.pos - 1, final(self)@.pos as int),
    {
        proof {
            use_type_invariant(&*self);
        }
        let start = self.pos - 1;
        let ghost src = self.chars@;
        let ghost pos0 = self.pos as nat;
        while self.pos < self.chars.len() && continues_identifier(
            self.chars[self.pos],
            self.chars[self.pos].is_alphabetic(),
        )
            invariant
                self.chars@ == src,
                self.filename@ == old(self).filename@,
                self.line == old(self).line,
                self.line >= 1,
                pos0 <= self.pos <= src.len(),
                run_end(src, pos0, CharClass::IdentifierPart) == run_end(
                    src,
                    self.pos as nat,
                    CharClass::IdentifierPart,
                ),
            decreases src.len() - self.pos,
        {
            self.pos = self.pos + 1;
        }
        string_of(&self.chars, start, self.pos)
    }

    /// Reads the rest of a numeric literal whose first digit has just been
    /// consumed: digits and underscores, with at most one decimal point
    /// among them. A second point ends the literal and stays in the
    /// input. Returns the literal's text as written, first digit included;
    /// nothing is checked or converted.
    fn read_number(&mut self) -> (text: String)
        requires
            1 <= old(self)@.pos <= old(self)@.source.len(),
        ensures
            final(self)@ == (LexerView {
                pos: number_end(old(self)@.source, old(self)@.pos),
                ..old(self)@
            }),
            text@ == old(self)@.source.subrange(old(self)@.pos - 1, final(self)@.pos as int),
    {
        let start = self.pos - 1;
        let ghost src = self.chars@;
        let ghost pos0 = self.pos as nat;
        let ghost whole = run_end(src, pos0, CharClass::NumberPart);
        let mut has_decimal = false;
        proof {
            use_type_invariant(&*self);
            self.view_fits();
        }
        loop
            invariant
                src.len() <= usize::MAX,
                self.chars@ == src,
                self.filename@ == old(self).filename@,
                self.line == old(self).line,
                self.line >= 1,
                pos0 <= self.pos <= src.len(),
                whole == run_end(src, pos0, CharClass::NumberPart),
                !has_decimal ==> whole == run_end(src, self.pos as nat, CharClass::NumberPart),
                has_decimal ==> char_at(src, whole) == Some('.') && whole < self.pos && run_end(
                    src,
                    whole + 1,
                    CharClass::NumberPart,
                ) == run_end(src, self.pos as nat, CharClass::NumberPart),
            ensures
                self.pos == number_end(src, pos0),
            decreases src.len() - self.pos,
        {
            match self.peek() {
                None => {
                    break ;
                },
                Some(c) => {
                    if continues_number(c) {
                        self.pos = self.pos + 1;
                    } else if c == '.' && !has_decimal {
                        self.pos = self.pos + 1;
                        has_decimal = true;
                    } else {
                        break ;
                    }
                },
            }
        }
        string_of(&self.chars, start, self.pos)
    }

    /// Reads the character after a backslash and decodes the escape.
    fn read_escape_sequence(&mut self) -> (r: Result<char, LexerError>)
        ensures
            r == escape(old(self)@.source, old(self)@.pos, old(self)@.line).value,
            final(self)@ == (LexerView {
                pos: escape(old(self)@.source, old(self)@.pos, old(self)@.line).end,
                ..old(self)@
            }),
    {
        proof {
            self.view_fits();
        }
        match self.advance() {
            None => Err(LexerError::ExpectedCharacter { line: self.line }),
            Some(c) => match decode_escape(c) {
                Some(decoded) => Ok(decoded),
                None => Err(LexerError::InvalidEscapeSequence { line: self.line }),
            },
        }
    }

    /// Reads a character literal whose opening quote has just been
    /// consumed. The closing quote must follow the one character or
    /// escape; it is looked at and left in the input.
    fn read_char(&mut self) -> (r: Result<char, LexerError>)
        ensures
            r == char_literal(old(self)@.source, old(self)@.pos, old(self)@.line).value,
            final(self)@ == (LexerView {
                pos: char_literal(old(self)@.source, old(self)@.pos, old(self)@.line).end,
                ..old(self)@
            }),
    {
        proof {
            self.view_fits();
        }
        let content = match self.advance() {
            None => {
                return Err(LexerError::ExpectedCharacter { line: self.line });
            },
            Some('\'') => {
                return Err(LexerError::EmptyCharacterLiteral { line: self.line });
            },
            Some('\\') => match self.read_escape_sequence() {
                Ok(decoded) => decoded,
                Err(e) => {
                    return Err(e);
                },
            },
            Some(c) => c,
        };
        if self.next_is('\'') {
            Ok(content)
        } else {
            Err(LexerError::MultipleCharsInCharLiteral { line: self.line })
        }
    }

    /// Reads a string literal whose opening quote has just been consumed,
    /// up to and with the closing quote. The end of the input closes the
    /// literal too.
    fn read_string(&mut self) -> (r: Result<String, LexerError>)
        ensures
            text_view(r) == string_literal(
                old(self)@.source,
                old(self)@.pos,
                old(self)@.line,
            ).value,
            final(self)@ == (LexerView {
                pos: string_literal(old(self)@.source, old(self)@.pos, old(self)@.line).end,
                ..old(self)@
            }),
    {
        let ghost src = self.chars@;
        let ghost pos0 = self.pos as nat;
        let ghost line = self.line as nat;
        let mut text = String::new();
        proof {
            self.view_fits();
            lemma_after_nothing(string_literal(src, pos0, line));
        }
        loop
            invariant
                src.len() <= usize::MAX,
                self.chars@ == src,
                self.filename@ == old(self).filename@,
                self.line == old(self).line,
                src == old(self)@.source,
                pos0 == old(self)@.pos,
                line == old(self)@.line,
                string_literal(src, pos0, line) == after(
                    text@,
                    string_literal(src, self.pos as nat, line),
                ),
            decreases src.len() - self.pos,
        {
            let ghost before = text@;
            let ghost pos = self.pos as nat;
            match self.advance() {
                None => {
                    assert(before + Seq::<char>::empty() =~= before);
                    return Ok(text);
                },
                Some('"') => {
                    assert(before + Seq::<char>::empty() =~= before);
                    return Ok(text);
                },
                Some('\\') => match self.read_escape_sequence() {
                    Ok(decoded) => {
                        text.push(decoded);
                        proof {
                            lemma_after_prepend(before, decoded, string_literal(src, pos + 2, line));
                        }
                    },
                    Err(e) => {
                        return Err(e);
                    },
                },
                Some(c) => {
                    text.push(c);
                    proof {
                        lemma_after_prepend(before, c, string_literal(src, pos + 1, line));
                    }
                },
            }
        }
    }
}

/// The mathematical value of a text that was read, or of the error.
spec fn text_view(r: Result<String, LexerError>) -> Result<Seq<char>, LexerError> {
    match r {
        Ok(text) => Ok(text@),
        Err(e) => Err(e),
    }
}

/// What `rest` read, behind the text `read` that was read before it.
spec fn after(read: Seq<char>, rest: Read<Seq<char>>) -> Read<Seq<char>> {
    Read {
        value: match rest.value {
            Ok(text) => Ok(read + text),
            Err(e) => Err(e),
        },
        end: rest.end,
    }
}

/// Behind nothing, the rest is all that was read.
proof fn lemma_after_nothing(rest: Read<Seq<char>>)
    ensures
        after(Seq::empty(), rest) == rest,
{
    if let Ok(text) = rest.value {
        assert(Seq::<char>::empty() + text =~= text);
    }
}

/// A character in front of the rest is a character behind what was read.
proof fn lemma_after_prepend(read: Seq<char>, c: char, rest: Read<Seq<char>>)
    ensures
        after(read, grammar::prepend(c, rest)) == after(read.push(c), rest),
{
    if let Ok(text) = rest.value {
        assert(read + (seq![c] + text) =~= read.push(c) + text);
    }
}

} // verus!
