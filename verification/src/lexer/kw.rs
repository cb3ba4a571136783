use vstd::prelude::*;

verus! {

/// The reserved words of the language.
#[derive(Clone, Copy, Debug, PartialEq, Eq, Structural)]
pub enum Keyword {
    Let,
    Mut,
    If,
    Else,
    For,
    While,
    As,
    Pub,
    Struct,
    Enum,
    Fn,
    Type,
    Void,
    Str,
    Bool,
    True,
    False,
}

/// The keyword that a text spells, if any. The match is exact and
/// case-sensitive.
pub open spec fn keyword_of(text: Seq<char>) -> Option<Keyword> {
    if text == "let"@ {
        Some(Keyword::Let)
    } else if text == "mut"@ {
        Some(Keyword::Mut)
    } else if text == "if"@ {
        Some(Keyword::If)
    } else if text == "else"@ {
        Some(Keyword::Else)
    } else if text == "for"@ {
        Some(Keyword::For)
    } else if text == "while"@ {
        Some(Keyword::While)
    } else if text == "as"@ {
        Some(Keyword::As)
    } else if text == "pub"@ {
        Some(Keyword::Pub)
    } else if text == "struct"@ {
        Some(Keyword::Struct)
    } else if text == "enum"@ {
        Some(Keyword::Enum)
    } else if text == "fn"@ {
        Some(Keyword::Fn)
    } else if text == "type"@ {
        Some(Keyword::Type)
    } else if text == "void"@ {
        Some(Keyword::Void)
    } else if text == "str"@ {
        Some(Keyword::Str)
    } else if text == "bool"@ {
        Some(Keyword::Bool)
    } else if text == "true"@ {
        Some(Keyword::True)
    } else if text == "false"@ {
        Some(Keyword::False)
    } else {
        None
    }
}

/// Equality of string slices, `str`'s implementation of `PartialEq::eq`,
/// which vstd leaves unspecified: two slices are equal exactly when they
/// hold the same characters in the same order.
pub assume_specification[ <str as PartialEq>::eq ](a: &str, b: &str) -> (r: bool)
    ensures
        r == (a@ == b@),
;

impl Keyword {
    /// Looks a text up in the keyword table.
    pub fn from_str(s: &str) -> (r: Option<Keyword>)
        ensures
            r == keyword_of(s@),
    {
        if s.eq("let") {
            Some(Keyword::Let)
        } else if s.eq("mut") {
            Some(Keyword::Mut)
        } else if s.eq("if") {
            Some(Keyword::If)
        } else if s.eq("else") {
            Some(Keyword::Else)
        } else if s.eq("for") {
            Some(Keyword::For)
        } else if s.eq("while") {
            Some(Keyword::While)
        } else if s.eq("as") {
            Some(Keyword::As)
        } else if s.eq("pub") {
            Some(Keyword::Pub)
        } else if s.eq("struct") {
            Some(Keyword::Struct)
        } else if s.eq("enum") {
            Some(Keyword::Enum)
        } else if s.eq("fn") {
            Some(Keyword::Fn)
        } else if s.eq("type") {
            Some(Keyword::Type)
        } else if s.eq("void") {
            Some(Keyword::Void)
        } else if s.eq("str") {
            Some(Keyword::Str)
        } else if s.eq("bool") {
            Some(Keyword::Bool)
        } else if s.eq("true") {
            Some(Keyword::True)
        } else if s.eq("false") {
            Some(Keyword::False)
        } else {
            None
        }
    }
}

} // verus!
