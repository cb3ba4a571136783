use prt_lang::lexer::errors::LexerError;
use prt_lang::lexer::tokens::{Token, TokenKind};
use prt_lang::lexer::Lexer;

fn lexer(source: &str) -> Lexer {
    Lexer::new("test.prt".to_string(), source.to_string())
}

fn kind(r: Result<Token, LexerError>) -> TokenKind {
    r.expect("a token").kind
}

#[test]
fn blank_source_yields_eof_after_last_newline() {
    let mut l = lexer(" \t\n \n\t ");
    let token = l.next_token().unwrap();
    assert_eq!(token.kind, TokenKind::EOF);
    assert_eq!(token.line, 3);
    for _ in 0..5 {
        let again = l.next_token().unwrap();
        assert_eq!(again.kind, TokenKind::EOF);
        assert_eq!(again.line, 3);
    }
}

#[test]
fn empty_source_yields_eof_on_line_one() {
    let mut l = lexer("");
    let token = l.next_token().unwrap();
    assert_eq!(token.kind, TokenKind::EOF);
    assert_eq!(token.line, 1);
    assert_eq!(token.filename, "test.prt");
}

#[test]
fn newlines_only_count_one_line_each() {
    let mut l = lexer("\n\n\n\n");
    let token = l.next_token().unwrap();
    assert_eq!(token.kind, TokenKind::EOF);
    assert_eq!(token.line, 5);
}

#[test]
fn end_of_input_is_sticky() {
    let mut l = lexer("a\n");
    assert_eq!(kind(l.next_token()), TokenKind::Identifier("a".to_string()));
    let first = l.next_token().unwrap();
    assert_eq!(first.kind, TokenKind::EOF);
    assert_eq!(first.line, 2);
    for _ in 0..10 {
        let again = l.next_token().unwrap();
        assert_eq!(again.kind, TokenKind::EOF);
        assert_eq!(again.line, first.line);
        assert_eq!(again.filename, first.filename);
    }
}

#[test]
fn maximal_munch_keeps_keyword_prefix_in_identifier() {
    let mut l = lexer("structtype");
    assert_eq!(kind(l.next_token()), TokenKind::Identifier("structtype".to_string()));
    assert_eq!(kind(l.next_token()), TokenKind::EOF);
}

#[test]
fn plus_equals_is_one_token() {
    let mut l = lexer("+=");
    assert_eq!(kind(l.next_token()), TokenKind::PlusEquals);
    assert_eq!(kind(l.next_token()), TokenKind::EOF);
}

#[test]
fn second_decimal_point_ends_number() {
    let mut l = lexer("3.14.15");
    assert_eq!(kind(l.next_token()), TokenKind::Number("3.14".to_string()));
    assert_eq!(kind(l.next_token()), TokenKind::Dot);
    assert_eq!(kind(l.next_token()), TokenKind::Number("15".to_string()));
    assert_eq!(kind(l.next_token()), TokenKind::EOF);
}

#[test]
fn escape_in_string_is_decoded() {
    let mut l = lexer("\"a\\nb\"");
    match kind(l.next_token()) {
        TokenKind::String(text) => {
            assert_eq!(text.chars().count(), 3);
            assert_eq!(text, "a\nb");
        }
        other => panic!("not a string: {:?}", other),
    }
    assert_eq!(kind(l.next_token()), TokenKind::EOF);
}

#[test]
fn unterminated_string_closes_at_end_of_input() {
    let mut l = lexer("\"abc");
    assert_eq!(kind(l.next_token()), TokenKind::String("abc".to_string()));
    assert_eq!(kind(l.next_token()), TokenKind::EOF);
}

#[test]
fn empty_char_literal_fails() {
    let mut l = lexer("''");
    assert_eq!(l.next_token().unwrap_err(), LexerError::EmptyCharacterLiteral { line: 1 });
}

#[test]
fn two_chars_in_char_literal_fail() {
    let mut l = lexer("'ab'");
    assert_eq!(l.next_token().unwrap_err(), LexerError::MultipleCharsInCharLiteral { line: 1 });
}

#[test]
fn single_char_literal() {
    let mut l = lexer("'a'");
    assert_eq!(kind(l.next_token()), TokenKind::Char('a'));
}

#[test]
fn closing_quote_of_char_literal_stays_in_input() {
    let mut l = lexer("'a'");
    assert_eq!(kind(l.next_token()), TokenKind::Char('a'));
    assert_eq!(l.peek(), Some('\''));
    assert_eq!(l.next_token().unwrap_err(), LexerError::ExpectedCharacter { line: 1 });
    assert_eq!(kind(l.next_token()), TokenKind::EOF);
}

#[test]
fn closing_quote_then_text_reads_as_new_literal() {
    let mut l = lexer("'a'b'");
    assert_eq!(kind(l.next_token()), TokenKind::Char('a'));
    assert_eq!(kind(l.next_token()), TokenKind::Char('b'));
    assert_eq!(l.next_token().unwrap_err(), LexerError::ExpectedCharacter { line: 1 });
    assert_eq!(kind(l.next_token()), TokenKind::EOF);
}

#[test]
fn lines_are_counted_between_tokens() {
    let mut l = lexer("a\nb\n\n  c");
    let a = l.next_token().unwrap();
    let b = l.next_token().unwrap();
    let c = l.next_token().unwrap();
    assert_eq!((a.kind, a.line), (TokenKind::Identifier("a".to_string()), 1));
    assert_eq!((b.kind, b.line), (TokenKind::Identifier("b".to_string()), 2));
    assert_eq!((c.kind, c.line), (TokenKind::Identifier("c".to_string()), 4));
    let eof = l.next_token().unwrap();
    assert_eq!((eof.kind, eof.line), (TokenKind::EOF, 4));
}

#[test]
fn newline_inside_string_counts_no_line() {
    let mut l = lexer("\"a\nb\" c\nd");
    let s = l.next_token().unwrap();
    assert_eq!((s.kind, s.line), (TokenKind::String("a\nb".to_string()), 1));
    let c = l.next_token().unwrap();
    assert_eq!((c.kind, c.line), (TokenKind::Identifier("c".to_string()), 1));
    let d = l.next_token().unwrap();
    assert_eq!((d.kind, d.line), (TokenKind::Identifier("d".to_string()), 2));
}

#[test]
fn newline_as_char_literal_counts_no_line() {
    let mut l = lexer("'\n' x");
    let c = l.next_token().unwrap();
    assert_eq!((c.kind, c.line), (TokenKind::Char('\n'), 1));
}

#[test]
fn errors_carry_the_line_of_the_token() {
    let mut l = lexer("\n\n@");
    assert_eq!(l.next_token().unwrap_err(), LexerError::UnexpectedCharacter { line: 3 });
    let mut l = lexer("a\n''");
    assert_eq!(kind(l.next_token()), TokenKind::Identifier("a".to_string()));
    assert_eq!(l.next_token().unwrap_err(), LexerError::EmptyCharacterLiteral { line: 2 });
}

#[test]
fn lexing_goes_on_after_an_error() {
    let mut l = lexer("@a # b");
    assert_eq!(l.next_token().unwrap_err(), LexerError::UnexpectedCharacter { line: 1 });
    assert_eq!(kind(l.next_token()), TokenKind::Identifier("a".to_string()));
    assert_eq!(l.next_token().unwrap_err(), LexerError::UnexpectedCharacter { line: 1 });
    assert_eq!(kind(l.next_token()), TokenKind::Identifier("b".to_string()));
    assert_eq!(kind(l.next_token()), TokenKind::EOF);
}

#[test]
fn every_token_carries_the_file_name() {
    let mut l = Lexer::new("dir/main.prt".to_string(), "let x = 1;".to_string());
    loop {
        let token = l.next_token().unwrap();
        assert_eq!(token.filename, "dir/main.prt");
        if token.kind == TokenKind::EOF {
            break;
        }
    }
}

#[test]
fn peek_reads_without_consuming() {
    let l = lexer("xy");
    assert_eq!(l.peek(), Some('x'));
    assert_eq!(l.peek(), Some('x'));
    let empty = lexer("");
    assert_eq!(empty.peek(), None);
}

#[test]
fn advance_reads_and_consumes() {
    let mut l = lexer("xy");
    assert_eq!(l.advance(), Some('x'));
    assert_eq!(l.peek(), Some('y'));
    assert_eq!(l.advance(), Some('y'));
    assert_eq!(l.peek(), None);
    assert_eq!(l.advance(), None);
    assert_eq!(l.advance(), None);
    assert_eq!(l.peek(), None);
    assert_eq!(kind(l.next_token()), TokenKind::EOF);
}

#[test]
fn positions_are_code_points() {
    let mut l = lexer("\u{e9}\u{e9} foo \"\u{4e16}\u{754c}\" bar");
    assert_eq!(kind(l.next_token()), TokenKind::Identifier("\u{e9}\u{e9}".to_string()));
    assert_eq!(kind(l.next_token()), TokenKind::Identifier("foo".to_string()));
    assert_eq!(kind(l.next_token()), TokenKind::String("\u{4e16}\u{754c}".to_string()));
    assert_eq!(kind(l.next_token()), TokenKind::Identifier("bar".to_string()));
    assert_eq!(kind(l.next_token()), TokenKind::EOF);
    let mut l = lexer("\u{e9}");
    assert_eq!(l.advance(), Some('\u{e9}'));
    assert_eq!(l.advance(), None);
}

#[test]
fn small_program() {
    let mut l = lexer("fn main() {\n  let mut x = 1_000.5;\n  x += 'a';\n}\n");
    let expected = vec![
        (TokenKind::Keyword(prt_lang::lexer::kw::Keyword::Fn), 1),
        (TokenKind::Identifier("main".to_string()), 1),
        (TokenKind::LeftParen, 1),
        (TokenKind::RightParen, 1),
        (TokenKind::LeftBracket, 1),
        (TokenKind::Keyword(prt_lang::lexer::kw::Keyword::Let), 2),
        (TokenKind::Keyword(prt_lang::lexer::kw::Keyword::Mut), 2),
        (TokenKind::Identifier("x".to_string()), 2),
        (TokenKind::Assign, 2),
        (TokenKind::Number("1_000.5".to_string()), 2),
        (TokenKind::Semicolon, 2),
        (TokenKind::Identifier("x".to_string()), 3),
        (TokenKind::PlusEquals, 3),
        (TokenKind::Char('a'), 3),
    ];
    for (kind, line) in expected {
        let token = l.next_token().unwrap();
        assert_eq!((token.kind, token.line), (kind, line));
    }
    assert_eq!(l.next_token().unwrap_err(), LexerError::MultipleCharsInCharLiteral { line: 3 });
    let brace = l.next_token().unwrap();
    assert_eq!((brace.kind, brace.line), (TokenKind::RightBracket, 4));
    let eof = l.next_token().unwrap();
    assert_eq!((eof.kind, eof.line), (TokenKind::EOF, 5));
}
