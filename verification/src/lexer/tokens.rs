use super::kw::Keyword;
use vstd::prelude::*;

verus! {

/// A lexical unit, with the place where it started.
#[derive(Clone, Debug)]
pub struct Token {
    pub kind: TokenKind,
    /// Line on which the token started, counted from 1.
    pub line: usize,
    /// Name of the source that the token came from.
    pub filename: String,
}

/// What a token is.
#[derive(Clone, Debug, PartialEq)]
pub enum TokenKind {
    /// End of the input.
    EOF,
    /// `(`
    LeftParen,
    /// `)`
    RightParen,
    /// `[`
    LeftSquare,
    /// `]`
    RightSquare,
    /// `{`
    LeftBracket,
    /// `}`
    RightBracket,
    /// `.`
    Dot,
    /// `;`
    Semicolon,
    /// `:`
    Colon,
    /// `,`
    Comma,
    /// `=`
    Assign,
    /// `==`
    Equals,
    /// `+`
    Plus,
    /// `-`
    Minus,
    /// `*`
    Mul,
    /// `/`
    Div,
    /// `^`
    Exponent,
    /// `+=`
    PlusEquals,
    /// `-=`
    MinusEquals,
    /// `*=`
    MulEquals,
    /// `/=`
    DivEquals,
    /// `&&`
    And,
    /// `||`
    Or,
    /// `!`
    Not,
    /// `!=`
    NotEquals,
    /// `&`
    BitwiseAnd,
    /// `|`
    BitwiseOr,
    /// `~`
    BitwiseNot,
    /// `&=`
    BitwiseAndEquals,
    /// `|=`
    BitwiseOrEquals,
    /// `<`
    LessThan,
    /// `>`
    GreaterThan,
    /// `<=`
    LessThanEqualTo,
    /// `>=`
    GreaterThanEqualTo,
    /// A name, with its text as written.
    Identifier(String),
    /// A character literal, decoded.
    Char(char),
    /// A string literal, decoded.
    String(String),
    /// A numeric literal, with its text as written.
    Number(String),
    /// A reserved word.
    Keyword(Keyword),
}

/// The mathematical value of a [`TokenKind`]: the same alternatives, with
/// texts as sequences of characters.
pub enum TokenKindView {
    EOF,
    LeftParen,
    RightParen,
    LeftSquare,
    RightSquare,
    LeftBracket,
    RightBracket,
    Dot,
    Semicolon,
    Colon,
    Comma,
    Assign,
    Equals,
    Plus,
    Minus,
    Mul,
    Div,
    Exponent,
    PlusEquals,
    MinusEquals,
    MulEquals,
    DivEquals,
    And,
    Or,
    Not,
    NotEquals,
    BitwiseAnd,
    BitwiseOr,
    BitwiseNot,
    BitwiseAndEquals,
    BitwiseOrEquals,
    LessThan,
    GreaterThan,
    LessThanEqualTo,
    GreaterThanEqualTo,
    Identifier(Seq<char>),
    Char(char),
    String(Seq<char>),
    Number(Seq<char>),
    Keyword(Keyword),
}

impl View for TokenKind {
    type V = TokenKindView;

    open spec fn view(&self) -> TokenKindView {
        match self {
            TokenKind::EOF => TokenKindView::EOF,
            TokenKind::LeftParen => TokenKindView::LeftParen,
            TokenKind::RightParen => TokenKindView::RightParen,
            TokenKind::LeftSquare => TokenKindView::LeftSquare,
            TokenKind::RightSquare => TokenKindView::RightSquare,
            TokenKind::LeftBracket => TokenKindView::LeftBracket,
            TokenKind::RightBracket => TokenKindView::RightBracket,
            TokenKind::Dot => TokenKindView::Dot,
            TokenKind::Semicolon => TokenKindView::Semicolon,
            TokenKind::Colon => TokenKindView::Colon,
            TokenKind::Comma => TokenKindView::Comma,
            TokenKind::Assign => TokenKindView::Assign,
            TokenKind::Equals => TokenKindView::Equals,
            TokenKind::Plus => TokenKindView::Plus,
            TokenKind::Minus => TokenKindView::Minus,
            TokenKind::Mul => TokenKindView::Mul,
            TokenKind::Div => TokenKindView::Div,
            TokenKind::Exponent => TokenKindView::Exponent,
            TokenKind::PlusEquals => TokenKindView::PlusEquals,
            TokenKind::MinusEquals => TokenKindView::MinusEquals,
            TokenKind::MulEquals => TokenKindView::MulEquals,
            TokenKind::DivEquals => TokenKindView::DivEquals,
            TokenKind::And => TokenKindView::And,
            TokenKind::Or => TokenKindView::Or,
            TokenKind::Not => TokenKindView::Not,
            TokenKind::NotEquals => TokenKindView::NotEquals,
            TokenKind::BitwiseAnd => TokenKindView::BitwiseAnd,
            TokenKind::BitwiseOr => TokenKindView::BitwiseOr,
            TokenKind::BitwiseNot => TokenKindView::BitwiseNot,
            TokenKind::BitwiseAndEquals => TokenKindView::BitwiseAndEquals,
            TokenKind::BitwiseOrEquals => TokenKindView::BitwiseOrEquals,
            TokenKind::LessThan => TokenKindView::LessThan,
            TokenKind::GreaterThan => TokenKindView::GreaterThan,
            TokenKind::LessThanEqualTo => TokenKindView::LessThanEqualTo,
            TokenKind::GreaterThanEqualTo => TokenKindView::GreaterThanEqualTo,
            TokenKind::Identifier(text) => TokenKindView::Identifier(text@),
            TokenKind::Char(c) => TokenKindView::Char(*c),
            TokenKind::String(text) => TokenKindView::String(text@),
            TokenKind::Number(text) => TokenKindView::Number(text@),
            TokenKind::Keyword(kw) => TokenKindView::Keyword(*kw),
        }
    }
}

/// The mathematical value of a [`Token`].
pub struct TokenView {
    pub kind: TokenKindView,
    pub line: nat,
    pub filename: Seq<char>,
}

impl View for Token {
    type V = TokenView;

    open spec fn view(&self) -> TokenView {
        TokenView { kind: self.kind@, line: self.line as nat, filename: self.filename@ }
    }
}

} // verus!
