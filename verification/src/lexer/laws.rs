//! What holds of every source text and of every state of the lexer.

use super::chars::{is_blank, unescape};
use super::errors::LexerError;
use super::grammar::{
    char_at, in_class, newlines, run_end, saturate, string_literal, CharClass,
};
use super::tokens::{TokenKindView, TokenView};
use super::LexerView;
use vstd::prelude::*;

verus! {

/// Whether `src` holds nothing but spaces, tabs and newlines.
pub open spec fn all_blank(src: Seq<char>) -> bool {
    forall|i: int| 0 <= i < src.len() ==> is_blank(#[trigger] src[i])
}

/// A run is maximal: it ends inside the text or at the cursor, every
/// character of it belongs to the class, and the character behind it, if
/// there is one, does not.
pub proof fn lemma_run_is_maximal(src: Seq<char>, pos: nat, class: CharClass)
    ensures
        pos <= run_end(src, pos, class),
        pos <= src.len() ==> run_end(src, pos, class) <= src.len(),
        forall|i: int| pos <= i < run_end(src, pos, class) ==> in_class(#[trigger] src[i], class),
        match char_at(src, run_end(src, pos, class)) {
            Some(c) => !in_class(c, class),
            None => true,
        },
    decreases src.len() - pos,
{
    if pos < src.len() && in_class(src[pos as int], class) {
        lemma_run_is_maximal(src, pos + 1, class);
    }
}

/// A run goes on to the end of the text where nothing but characters of
/// its class follows.
pub proof fn lemma_run_to_the_end(src: Seq<char>, pos: nat, class: CharClass)
    requires
        pos <= src.len(),
        forall|i: int| pos <= i < src.len() ==> in_class(#[trigger] src[i], class),
    ensures
        run_end(src, pos, class) == src.len(),
    decreases src.len() - pos,
{
    if pos < src.len() {
        lemma_run_to_the_end(src, pos + 1, class);
    }
}

/// Reading a string literal never moves the cursor back, and moves it
/// forward unless it stands at `usize::MAX`.
pub proof fn lemma_string_literal_advances(src: Seq<char>, pos: nat, line: nat)
    ensures
        pos <= string_literal(src, pos, line).end,
        pos < usize::MAX ==> pos < string_literal(src, pos, line).end,
    decreases src.len() - pos,
{
    match char_at(src, pos) {
        None => {},
        Some(c) => {
            if c == '"' {
            } else if c == '\\' {
                if char_at(src, pos + 1) is Some && unescape(src[(pos + 1) as int]) is Some {
                    lemma_string_literal_advances(src, pos + 2, line);
                }
            } else {
                lemma_string_literal_advances(src, pos + 1, line);
            }
        },
    }
}

/// The cursor never retreats: a call for a token leaves the source text
/// and the file name as they were, and moves neither the position nor the
/// line number back.
pub proof fn lemma_cursor_never_retreats(v: LexerView)
    ensures
        v.after_token().source == v.source,
        v.after_token().filename == v.filename,
        v.after_token().pos >= v.pos,
        v.after_token().line >= v.line,
{
    lemma_token_consumes(v);
}

/// Every call for a token consumes at least one position, until the
/// cursor stands at `usize::MAX`.
pub proof fn lemma_token_consumes(v: LexerView)
    ensures
        v.after_token().pos >= v.pos,
        v.pos < usize::MAX ==> v.after_token().pos > v.pos,
{
    let src = v.source;
    let start = run_end(src, v.pos, CharClass::Blank);
    let line = saturate(v.line, newlines(src, v.pos, start));
    lemma_run_is_maximal(src, v.pos, CharClass::Blank);
    lemma_run_is_maximal(src, start + 1, CharClass::IdentifierPart);
    lemma_run_is_maximal(src, start + 1, CharClass::NumberPart);
    let whole = run_end(src, start + 1, CharClass::NumberPart);
    lemma_run_is_maximal(src, whole + 1, CharClass::NumberPart);
    lemma_string_literal_advances(src, start + 1, line);
}

/// Once the end of the input has been produced, every later call produces
/// it again, on the same line.
pub proof fn lemma_end_of_input_is_sticky(v: LexerView, n: nat)
    requires
        v.next_token() matches Ok(token) && token.kind == TokenKindView::EOF,
    ensures
        v.after_tokens(n).next_token() == v.next_token(),
        n > 0 ==> v.after_tokens(n).line == v.step().line,
    decreases n,
{
    if n > 0 {
        let before = v.after_tokens((n - 1) as nat);
        lemma_end_of_input_is_sticky(v, (n - 1) as nat);
        lemma_run_is_maximal(before.source, before.pos, CharClass::Blank);
        lemma_eof_repeats(before);
        lemma_after_tokens_keeps_names(v, (n - 1) as nat);
    }
}

/// A run of calls for tokens leaves the source text and the file name as
/// they were.
pub proof fn lemma_after_tokens_keeps_names(v: LexerView, n: nat)
    ensures
        v.after_tokens(n).source == v.source,
        v.after_tokens(n).filename == v.filename,
    decreases n,
{
    if n > 0 {
        lemma_after_tokens_keeps_names(v, (n - 1) as nat);
    }
}

/// Lines are counted from 1: no call for a token, however many went
/// before it, reports a line below 1.
pub proof fn lemma_lines_count_from_one(filename: Seq<char>, source: Seq<char>, n: nat)
    ensures
        LexerView::start(filename, source).after_tokens(n).line >= 1,
        LexerView::start(filename, source).after_tokens(n).step().line >= 1,
    decreases n,
{
    let v = LexerView::start(filename, source);
    if n > 0 {
        lemma_lines_count_from_one(filename, source, (n - 1) as nat);
        lemma_cursor_never_retreats(v.after_tokens((n - 1) as nat));
    }
    lemma_cursor_never_retreats(v.after_tokens(n));
}

/// After the end of the input has been produced, the next call produces
/// the same token and leaves the line number as it is.
proof fn lemma_eof_repeats(v: LexerView)
    requires
        v.next_token() matches Ok(token) && token.kind == TokenKindView::EOF,
    ensures
        v.after_token().next_token() == v.next_token(),
        v.after_token().after_token().line == v.after_token().line,
{
    let src = v.source;
    let start = run_end(src, v.pos, CharClass::Blank);
    lemma_run_is_maximal(src, v.pos, CharClass::Blank);
    lemma_eof_only_at_end(v);
    assert(char_at(src, start) is None);
    let next = v.after_token();
    assert(next.pos >= src.len());
    assert(run_end(src, next.pos, CharClass::Blank) == next.pos);
    assert(newlines(src, next.pos, next.pos) == 0);
}

/// The end of the input is produced exactly where nothing but blanks
/// follows the cursor.
pub proof fn lemma_eof_only_at_end(v: LexerView)
    ensures
        (v.next_token() matches Ok(token) && token.kind == TokenKindView::EOF) <==> run_end(
            v.source,
            v.pos,
            CharClass::Blank,
        ) >= v.source.len(),
{
    let src = v.source;
    let start = run_end(src, v.pos, CharClass::Blank);
    let line = saturate(v.line, newlines(src, v.pos, start));
    if start < src.len() {
        let c = src[start as int];
        let step = v.step();
        assert(step.outcome != Ok::<TokenKindView, LexerError>(TokenKindView::EOF));
    }
}

/// A source text of nothing but spaces, tabs and `k` newlines gives one
/// token only, however often it is asked for: the end of the input, on
/// line `k + 1`. (A line number is a machine integer: were `k + 1` beyond
/// `usize::MAX`, the line would be `usize::MAX`.)
pub proof fn lemma_blank_source_gives_only_eof(filename: Seq<char>, source: Seq<char>, n: nat)
    requires
        all_blank(source),
    ensures
        LexerView::start(filename, source).after_tokens(n).next_token() == Ok::<
            TokenView,
            LexerError,
        >(
            TokenView {
                kind: TokenKindView::EOF,
                line: if newlines(source, 0, source.len()) < usize::MAX {
                    newlines(source, 0, source.len()) + 1
                } else {
                    usize::MAX as nat
                },
                filename,
            },
        ),
{
    let v = LexerView::start(filename, source);
    lemma_run_to_the_end(source, 0, CharClass::Blank);
    lemma_end_of_input_is_sticky(v, n);
}

} // verus!
