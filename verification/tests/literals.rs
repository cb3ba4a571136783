use prt_lang::lexer::errors::LexerError;
use prt_lang::lexer::tokens::TokenKind;
use prt_lang::lexer::Lexer;

fn first(source: &str) -> Result<TokenKind, LexerError> {
    Lexer::new("t".to_string(), source.to_string()).next_token().map(|token| token.kind)
}

fn all(source: &str) -> Vec<Result<TokenKind, LexerError>> {
    let mut l = Lexer::new("t".to_string(), source.to_string());
    let mut out = Vec::new();
    loop {
        let r = l.next_token().map(|token| token.kind);
        let done = r == Ok(TokenKind::EOF);
        out.push(r);
        if done {
            return out;
        }
    }
}

fn string(text: &str) -> Result<TokenKind, LexerError> {
    Ok(TokenKind::String(text.to_string()))
}

#[test]
fn string_literals() {
    assert_eq!(first("\"\""), string(""));
    assert_eq!(first("\"hello world\""), string("hello world"));
    assert_eq!(first("\"a'b\""), string("a'b"));
    assert_eq!(first("\"let x = 1;\""), string("let x = 1;"));
    assert_eq!(
        all("\"a\"\"b\" c"),
        vec![string("a"), string("b"), Ok(TokenKind::Identifier("c".to_string())), Ok(TokenKind::EOF)]
    );
}

#[test]
fn every_escape_in_a_string() {
    assert_eq!(first("\"\\n\\r\\t\\\\\\'\\\"\\0\""), string("\n\r\t\\'\"\0"));
    assert_eq!(first("\"x\\ny\\tz\""), string("x\ny\tz"));
    assert_eq!(first("\"say \\\"hi\\\"\""), string("say \"hi\""));
}

#[test]
fn invalid_escape_in_a_string() {
    assert_eq!(first("\"a\\qb\""), Err(LexerError::InvalidEscapeSequence { line: 1 }));
    assert_eq!(first("\"\\N\""), Err(LexerError::InvalidEscapeSequence { line: 1 }));
    assert_eq!(first("\"\\1\""), Err(LexerError::InvalidEscapeSequence { line: 1 }));
}

#[test]
fn reading_goes_on_behind_an_invalid_escape() {
    assert_eq!(
        all("\"a\\qb\" c"),
        vec![
            Err(LexerError::InvalidEscapeSequence { line: 1 }),
            Ok(TokenKind::Identifier("b".to_string())),
            string(" c"),
            Ok(TokenKind::EOF),
        ]
    );
}

#[test]
fn backslash_at_end_of_string_expects_a_character() {
    assert_eq!(
        all("\"abc\\"),
        vec![Err(LexerError::ExpectedCharacter { line: 1 }), Ok(TokenKind::EOF)]
    );
}

#[test]
fn unterminated_strings() {
    assert_eq!(all("\""), vec![string(""), Ok(TokenKind::EOF)]);
    assert_eq!(all("\"abc\n"), vec![string("abc\n"), Ok(TokenKind::EOF)]);
    assert_eq!(all("x \"a b"), vec![Ok(TokenKind::Identifier("x".to_string())), string("a b"), Ok(TokenKind::EOF)]);
}

#[test]
fn char_literals() {
    assert_eq!(first("'a'"), Ok(TokenKind::Char('a')));
    assert_eq!(first("' '"), Ok(TokenKind::Char(' ')));
    assert_eq!(first("'\"'"), Ok(TokenKind::Char('"')));
    assert_eq!(first("'\u{4e16}'"), Ok(TokenKind::Char('\u{4e16}')));
}

#[test]
fn every_escape_in_a_char_literal() {
    assert_eq!(first("'\\n'"), Ok(TokenKind::Char('\n')));
    assert_eq!(first("'\\r'"), Ok(TokenKind::Char('\r')));
    assert_eq!(first("'\\t'"), Ok(TokenKind::Char('\t')));
    assert_eq!(first("'\\\\'"), Ok(TokenKind::Char('\\')));
    assert_eq!(first("'\\''"), Ok(TokenKind::Char('\'')));
    assert_eq!(first("'\\\"'"), Ok(TokenKind::Char('"')));
    assert_eq!(first("'\\0'"), Ok(TokenKind::Char('\0')));
}

#[test]
fn invalid_escape_in_a_char_literal() {
    assert_eq!(first("'\\q'"), Err(LexerError::InvalidEscapeSequence { line: 1 }));
    assert_eq!(first("'\\x'"), Err(LexerError::InvalidEscapeSequence { line: 1 }));
}

#[test]
fn char_literal_at_end_of_input() {
    assert_eq!(all("'"), vec![Err(LexerError::ExpectedCharacter { line: 1 }), Ok(TokenKind::EOF)]);
    assert_eq!(all("'\\"), vec![Err(LexerError::ExpectedCharacter { line: 1 }), Ok(TokenKind::EOF)]);
    assert_eq!(
        all("'a"),
        vec![Err(LexerError::MultipleCharsInCharLiteral { line: 1 }), Ok(TokenKind::EOF)]
    );
    assert_eq!(
        all("'\\n"),
        vec![Err(LexerError::MultipleCharsInCharLiteral { line: 1 }), Ok(TokenKind::EOF)]
    );
}

#[test]
fn char_literal_with_too_much_in_it() {
    assert_eq!(first("'ab'"), Err(LexerError::MultipleCharsInCharLiteral { line: 1 }));
    assert_eq!(first("'\\nb'"), Err(LexerError::MultipleCharsInCharLiteral { line: 1 }));
    assert_eq!(first("'a b'"), Err(LexerError::MultipleCharsInCharLiteral { line: 1 }));
}

#[test]
fn reading_goes_on_behind_a_failed_char_literal() {
    assert_eq!(
        all("'ab' c"),
        vec![
            Err(LexerError::MultipleCharsInCharLiteral { line: 1 }),
            Ok(TokenKind::Identifier("b".to_string())),
            Err(LexerError::MultipleCharsInCharLiteral { line: 1 }),
            Ok(TokenKind::Identifier("c".to_string())),
            Ok(TokenKind::EOF),
        ]
    );
    assert_eq!(
        all("''x"),
        vec![
            Err(LexerError::EmptyCharacterLiteral { line: 1 }),
            Ok(TokenKind::Identifier("x".to_string())),
            Ok(TokenKind::EOF),
        ]
    );
}

#[test]
fn errors_in_literals_carry_the_line() {
    assert_eq!(
        all("\n\n'ab"),
        vec![
            Err(LexerError::MultipleCharsInCharLiteral { line: 3 }),
            Ok(TokenKind::Identifier("b".to_string())),
            Ok(TokenKind::EOF),
        ]
    );
    assert_eq!(first("\n\"\\z\""), Err(LexerError::InvalidEscapeSequence { line: 2 }));
    assert_eq!(first("\n\n\n'"), Err(LexerError::ExpectedCharacter { line: 4 }));
    assert_eq!(first("\n''"), Err(LexerError::EmptyCharacterLiteral { line: 2 }));
}
