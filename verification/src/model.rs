//! The mathematical model of tokenization: spec functions that say, for a
//! source buffer and a cursor state, what the next scan produces and where
//! the cursor ends up. The executable scanner is proved to follow this model
//! exactly.

use vstd::prelude::*;

use crate::errors::{ErrorV, SpanV};
use crate::text::{is_alphabetic_char, is_numeric_char, is_whitespace_char};
use crate::token::{spec_keyword, PosV, TokenTypeV, TokenV};

verus! {

/// The character classes the scanner takes runs of.
#[derive(Clone, Copy, Debug, PartialEq, Eq, Structural)]
pub enum CharClass {
    /// Whitespace, skipped between tokens.
    Whitespace,
    /// Numeric characters, forming number literals.
    Numeric,
    /// Characters that may continue an identifier.
    IdentContinue,
    /// Everything but a line break; a line comment runs over these.
    NotNewline,
    /// Everything but a double quote; a string literal runs over these.
    NotQuote,
}

/// Membership of a character in a class.
pub open spec fn in_class(cls: CharClass, c: char) -> bool {
    match cls {
        CharClass::Whitespace => is_whitespace_char(c),
        CharClass::Numeric => is_numeric_char(c),
        CharClass::IdentContinue => is_alphabetic_char(c) || is_numeric_char(c) || c == '_',
        CharClass::NotNewline => c != '\n',
        CharClass::NotQuote => c != '"',
    }
}

/// The first position at or after `pos` whose character leaves the class,
/// or the end of the source.
pub open spec fn run_end(src: Seq<char>, pos: int, cls: CharClass) -> int
    decreases src.len() - pos,
{
    if pos < src.len() && in_class(cls, src[pos]) {
        run_end(src, pos + 1, cls)
    } else {
        pos
    }
}

/// A run ends within the source, at its first character out of the class,
/// and every character before that is in the class.
pub proof fn lemma_run_end_bounds(src: Seq<char>, pos: int, cls: CharClass)
    requires
        0 <= pos <= src.len(),
    ensures
        pos <= run_end(src, pos, cls) <= src.len(),
        run_end(src, pos, cls) < src.len() ==> !in_class(cls, src[run_end(src, pos, cls)]),
        forall|i: int| pos <= i < run_end(src, pos, cls) ==> #[trigger] in_class(cls, src[i]),
    decreases src.len() - pos,
{
    if pos < src.len() && in_class(cls, src[pos]) {
        lemma_run_end_bounds(src, pos + 1, cls);
    }
}

/// How many line breaks lie in `src[i..j)`.
pub open spec fn count_nl(src: Seq<char>, i: int, j: int) -> int
    decreases j - i,
{
    if i < j {
        count_nl(src, i, j - 1) + if src[j - 1] == '\n' {
            1int
        } else {
            0int
        }
    } else {
        0
    }
}

/// A range holds at most as many line breaks as characters.
pub proof fn lemma_count_nl_bounds(src: Seq<char>, i: int, j: int)
    requires
        i <= j,
    ensures
        0 <= count_nl(src, i, j) <= j - i,
    decreases j - i,
{
    if i < j {
        lemma_count_nl_bounds(src, i, j - 1);
    }
}

/// The 1-based line number at character offset `p`.
pub open spec fn line_at(src: Seq<char>, p: int) -> int {
    1 + count_nl(src, 0, p)
}

/// Where a block comment that stands open to `depth` levels at `pos`
/// balances out: `Some` of the position just past the delimiter that closes
/// the outermost level, or `None` when the source ends first. A `/*`
/// consumes two characters and opens a level, a `*/` consumes two and
/// closes one, and any other character is consumed singly.
pub open spec fn block_end(src: Seq<char>, pos: int, depth: int) -> Option<int>
    decreases src.len() - pos,
{
    if depth <= 0 {
        Some(pos)
    } else if pos >= src.len() {
        None
    } else if src[pos] == '/' && pos + 1 < src.len() && src[pos + 1] == '*' {
        block_end(src, pos + 2, depth + 1)
    } else if src[pos] == '*' && pos + 1 < src.len() && src[pos + 1] == '/' {
        block_end(src, pos + 2, depth - 1)
    } else {
        block_end(src, pos + 1, depth)
    }
}

/// A balanced block comment ends within the source, no earlier than where
/// it stands.
pub proof fn lemma_block_end_bounds(src: Seq<char>, pos: int, depth: int)
    requires
        0 <= pos <= src.len(),
    ensures
        block_end(src, pos, depth) matches Some(e) ==> pos <= e <= src.len(),
    decreases src.len() - pos,
{
    if depth <= 0 {
    } else if pos >= src.len() {
    } else if src[pos] == '/' && pos + 1 < src.len() && src[pos + 1] == '*' {
        lemma_block_end_bounds(src, pos + 2, depth + 1);
    } else if src[pos] == '*' && pos + 1 < src.len() && src[pos + 1] == '/' {
        lemma_block_end_bounds(src, pos + 2, depth - 1);
    } else {
        lemma_block_end_bounds(src, pos + 1, depth);
    }
}

/// What one scan produces and where it leaves the scanner.
pub struct ScanOutcome {
    /// The emitted item: a token, an error, or nothing once the stream is
    /// exhausted.
    pub item: Option<Result<TokenV, ErrorV>>,
    /// The cursor position after the scan.
    pub pos: int,
    /// Whether the end-of-stream token has been emitted.
    pub at_eof: bool,
}

/// An outcome that emits a token of kind `ty` spanning `[start, end)`.
pub open spec fn token_outcome(
    src: Seq<char>,
    ty: TokenTypeV,
    start: int,
    end: int,
    at_eof: bool,
) -> ScanOutcome {
    ScanOutcome {
        item: Some(Ok(TokenV { ty, pos: PosV { line: line_at(src, start), start, end } })),
        pos: end,
        at_eof,
    }
}

/// The single-character punctuation lexemes.
pub open spec fn is_single_char(c: char) -> bool {
    ||| c == '('
    ||| c == ')'
    ||| c == '{'
    ||| c == '}'
    ||| c == ','
    ||| c == ';'
    ||| c == '.'
    ||| c == '-'
    ||| c == '+'
    ||| c == '*'
}

/// The token kind of a single-character punctuation lexeme.
pub open spec fn single_char_type(c: char) -> TokenTypeV {
    if c == '(' {
        TokenTypeV::LeftParen
    } else if c == ')' {
        TokenTypeV::RightParen
    } else if c == '{' {
        TokenTypeV::LeftBrace
    } else if c == '}' {
        TokenTypeV::RightBrace
    } else if c == ',' {
        TokenTypeV::Comma
    } else if c == ';' {
        TokenTypeV::Semicolon
    } else if c == '.' {
        TokenTypeV::Dot
    } else if c == '-' {
        TokenTypeV::Minus
    } else if c == '+' {
        TokenTypeV::Plus
    } else {
        TokenTypeV::Star
    }
}

/// The characters that may begin a one- or two-character operator.
pub open spec fn is_operator_start(c: char) -> bool {
    c == '!' || c == '=' || c == '>' || c == '<'
}

/// The token kind of an operator: `two` says whether a `=` follows and is
/// taken into the lexeme.
pub open spec fn operator_type(c: char, two: bool) -> TokenTypeV {
    if c == '!' {
        if two {
            TokenTypeV::BangEq
        } else {
            TokenTypeV::Bang
        }
    } else if c == '=' {
        if two {
            TokenTypeV::EqualEq
        } else {
            TokenTypeV::Equal
        }
    } else if c == '>' {
        if two {
            TokenTypeV::GreaterEq
        } else {
            TokenTypeV::Greater
        }
    } else {
        if two {
            TokenTypeV::LessEq
        } else {
            TokenTypeV::Less
        }
    }
}

/// A string literal starting at the opening quote `s`: its payload is the
/// text strictly between the quotes, and the closing quote is consumed but
/// not included. If input ends before a closing quote, the error spans the
/// opening quote and the cursor rests at the end.
pub open spec fn spec_string_token(src: Seq<char>, s: int) -> (Result<TokenTypeV, ErrorV>, int) {
    let q = run_end(src, s + 1, CharClass::NotQuote);
    if q < src.len() {
        (Ok(TokenTypeV::StringLit(src.subrange(s + 1, q))), q + 1)
    } else {
        (
            Err(ErrorV::UnterminatedString { leading_quote: SpanV { offset: s, length: 1 } }),
            src.len() as int,
        )
    }
}

/// A number literal starting at digit position `s`: a run of numeric
/// characters, then a fractional part only when a `.` follows and is itself
/// followed by a numeric character. A trailing `.` is left unconsumed.
pub open spec fn spec_number_token(src: Seq<char>, s: int) -> (Result<TokenTypeV, ErrorV>, int) {
    let d = run_end(src, s + 1, CharClass::Numeric);
    let e = if d + 1 < src.len() && src[d] == '.' && is_numeric_char(src[d + 1]) {
        run_end(src, d + 1, CharClass::Numeric)
    } else {
        d
    };
    (Ok(TokenTypeV::Number(src.subrange(s, e))), e)
}

/// An identifier or keyword starting at alphabetic position `s`: a run of
/// identifier characters, classified against the keyword table.
pub open spec fn spec_identifier_token(src: Seq<char>, s: int) -> (
    Result<TokenTypeV, ErrorV>,
    int,
) {
    let e = run_end(src, s + 1, CharClass::IdentContinue);
    let text = src.subrange(s, e);
    match spec_keyword(text) {
        Some(k) => (Ok(TokenTypeV::Keyword(k)), e),
        None => (Ok(TokenTypeV::Identifier(text)), e),
    }
}

/// What follows a `/` at position `s`: a line comment running to the end of
/// the line (consuming the line break when there is one), a block comment
/// scanned for balance, or a lone slash.
pub open spec fn spec_slash_token(src: Seq<char>, s: int) -> (Result<TokenTypeV, ErrorV>, int) {
    if s + 1 < src.len() && src[s + 1] == '/' {
        let nl = run_end(src, s + 2, CharClass::NotNewline);
        (
            Ok(TokenTypeV::Comment),
            if nl < src.len() {
                nl + 1
            } else {
                nl
            },
        )
    } else if s + 1 < src.len() && src[s + 1] == '*' {
        match block_end(src, s + 2, 1) {
            Some(e) => (Ok(TokenTypeV::Comment), e),
            None => (
                Err(ErrorV::UnterminatedBlockComment { comment_start: SpanV { offset: s, length: 2 } }),
                src.len() as int,
            ),
        }
    } else {
        (Ok(TokenTypeV::Slash), s + 1)
    }
}

/// Dispatch on the first character of a lexeme at position `s`, which the
/// scanner has already consumed. Mirrors the scanner's rule order: fixed
/// punctuation, operators with one character of lookahead, slash forms,
/// string literals, numbers, identifiers, and otherwise an error spanning
/// the one unexpected character, which stays consumed.
pub open spec fn spec_dispatch(src: Seq<char>, s: int, at_eof: bool) -> ScanOutcome {
    let c = src[s];
    if is_single_char(c) {
        token_outcome(src, single_char_type(c), s, s + 1, at_eof)
    } else if is_operator_start(c) {
        let two = s + 1 < src.len() && src[s + 1] == '=';
        token_outcome(
            src,
            operator_type(c, two),
            s,
            if two {
                s + 2
            } else {
                s + 1
            },
            at_eof,
        )
    } else if c == '/' || c == '"' || is_numeric_char(c) || is_alphabetic_char(c) {
        let scanned = if c == '/' {
            spec_slash_token(src, s)
        } else if c == '"' {
            spec_string_token(src, s)
        } else if is_numeric_char(c) {
            spec_number_token(src, s)
        } else {
            spec_identifier_token(src, s)
        };
        match scanned.0 {
            Ok(ty) => token_outcome(src, ty, s, scanned.1, at_eof),
            Err(err) => ScanOutcome { item: Some(Err(err)), pos: scanned.1, at_eof },
        }
    } else {
        ScanOutcome {
            item: Some(
                Err(ErrorV::UnexpectedCharacter { ch: c, span: SpanV { offset: s, length: 1 } }),
            ),
            pos: s + 1,
            at_eof,
        }
    }
}

/// One pull on the scanner: skip whitespace, then either emit the single
/// end-of-stream token (the first time input runs out), emit nothing (every
/// time after that), or scan one lexeme.
pub open spec fn spec_scan_token(src: Seq<char>, pos: int, at_eof: bool) -> ScanOutcome {
    let s = run_end(src, pos, CharClass::Whitespace);
    if s >= src.len() {
        if at_eof {
            ScanOutcome { item: None, pos: s, at_eof: true }
        } else {
            token_outcome(src, TokenTypeV::Eof, s, s, true)
        }
    } else {
        spec_dispatch(src, s, at_eof)
    }
}

/// Every scan leaves the cursor within the source and no earlier than it
/// started; a scan that emits an item either consumes input or is the one
/// that emits the end-of-stream token.
pub proof fn lemma_scan_token_bounds(src: Seq<char>, pos: int, at_eof: bool)
    requires
        0 <= pos <= src.len(),
    ensures
        ({
            let o = spec_scan_token(src, pos, at_eof);
            &&& pos <= o.pos <= src.len()
            &&& (o.item is Some ==> o.pos > pos || (!at_eof && o.at_eof))
            &&& (o.item is None ==> at_eof)
            &&& ((o.item matches Some(Ok(t)) && t.ty is Comment) ==> o.pos > pos)
        }),
{
    lemma_run_end_bounds(src, pos, CharClass::Whitespace);
    let s = run_end(src, pos, CharClass::Whitespace);
    if s < src.len() {
        let c = src[s];
        if is_single_char(c) {
        } else if is_operator_start(c) {
        } else if c == '/' {
            if s + 1 < src.len() && src[s + 1] == '/' {
                lemma_run_end_bounds(src, s + 2, CharClass::NotNewline);
            } else if s + 1 < src.len() && src[s + 1] == '*' {
                lemma_block_end_bounds(src, s + 2, 1);
            }
        } else if c == '"' {
            lemma_run_end_bounds(src, s + 1, CharClass::NotQuote);
        } else if is_numeric_char(c) {
            lemma_run_end_bounds(src, s + 1, CharClass::Numeric);
            let d = run_end(src, s + 1, CharClass::Numeric);
            if d + 1 < src.len() && src[d] == '.' && is_numeric_char(src[d + 1]) {
                lemma_run_end_bounds(src, d + 1, CharClass::Numeric);
            }
        } else if is_alphabetic_char(c) {
            lemma_run_end_bounds(src, s + 1, CharClass::IdentContinue);
        }
    }
}

/// Dispatch always emits an item, never the end-of-stream token, leaves the
/// exhausted flag alone, and stamps every token with the line and span it
/// was scanned from.
pub proof fn lemma_dispatch_shape(src: Seq<char>, s: int, at_eof: bool)
    requires
        0 <= s < src.len(),
    ensures
        ({
            let o = spec_dispatch(src, s, at_eof);
            &&& o.item is Some
            &&& o.at_eof == at_eof
            &&& (o.item matches Some(Ok(tv)) ==> tv.pos == PosV {
                line: line_at(src, s),
                start: s,
                end: o.pos,
            } && !(tv.ty is Eof))
        }),
{
}

/// The filtered pull: scan repeatedly, dropping comment tokens, and hand
/// out the first other item. Comments advance the cursor, so the recursion
/// is bounded by the input left.
pub open spec fn spec_next(src: Seq<char>, pos: int, at_eof: bool) -> ScanOutcome
    decreases src.len() - pos,
    when 0 <= pos <= src.len()
    via spec_next_decreases
{
    let o = spec_scan_token(src, pos, at_eof);
    if o.item matches Some(Ok(t)) && t.ty is Comment {
        spec_next(src, o.pos, o.at_eof)
    } else {
        o
    }
}

#[via_fn]
proof fn spec_next_decreases(src: Seq<char>, pos: int, at_eof: bool) {
    lemma_scan_token_bounds(src, pos, at_eof);
}

} // verus!
