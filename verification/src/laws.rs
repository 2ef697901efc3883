//! The guarantees the scanner makes, proved once and for all against the
//! tokenization model that `scan_token` and `next` are proved to follow.

use vstd::prelude::*;

use crate::model::{
    block_end, lemma_block_end_bounds, lemma_dispatch_shape, lemma_run_end_bounds,
    lemma_scan_token_bounds, line_at, run_end, spec_next, spec_scan_token, CharClass, in_class,
};
use crate::token::{keyword_chars, spec_keyword, Keyword, TokenTypeV};

verus! {

/// The source text a token kind promises at its span: the payload for
/// literal-carrying kinds (with the delimiting quotes around a string
/// payload), the fixed spelling for punctuation, operators and keywords,
/// nothing for the end marker, and `None` for a comment, whose text is not
/// carried on the token.
pub open spec fn spec_lexeme_text(ty: TokenTypeV) -> Option<Seq<char>> {
    match ty {
        TokenTypeV::LeftParen => Some("("@),
        TokenTypeV::RightParen => Some(")"@),
        TokenTypeV::LeftBrace => Some("{"@),
        TokenTypeV::RightBrace => Some("}"@),
        TokenTypeV::Comma => Some(","@),
        TokenTypeV::Semicolon => Some(";"@),
        TokenTypeV::Dot => Some("."@),
        TokenTypeV::Minus => Some("-"@),
        TokenTypeV::Plus => Some("+"@),
        TokenTypeV::Slash => Some("/"@),
        TokenTypeV::Star => Some("*"@),
        TokenTypeV::Bang => Some("!"@),
        TokenTypeV::BangEq => Some("!="@),
        TokenTypeV::Equal => Some("="@),
        TokenTypeV::EqualEq => Some("=="@),
        TokenTypeV::Greater => Some(">"@),
        TokenTypeV::GreaterEq => Some(">="@),
        TokenTypeV::Less => Some("<"@),
        TokenTypeV::LessEq => Some("<="@),
        TokenTypeV::Identifier(s) => Some(s),
        TokenTypeV::StringLit(s) => Some("\""@ + s + "\""@),
        TokenTypeV::Number(s) => Some(s),
        TokenTypeV::Keyword(k) => Some(keyword_chars(k)),
        TokenTypeV::Comment => None,
        TokenTypeV::Eof => Some(Seq::<char>::empty()),
    }
}

/// Text the keyword table accepts is that keyword's spelling.
proof fn lemma_spec_keyword_sound(s: Seq<char>)
    ensures
        spec_keyword(s) matches Some(k) ==> s == keyword_chars(k),
{
}

/// Position correctness: every token a scan emits carries a well-formed
/// span that starts no earlier than the scan began and ends exactly where
/// the cursor rests, its line is the line number at its start, and the
/// buffer text inside the span is exactly the token's lexeme.
pub proof fn lemma_position_correctness(src: Seq<char>, pos: int, at_eof: bool)
    requires
        0 <= pos <= src.len(),
    ensures
        ({
            let o = spec_scan_token(src, pos, at_eof);
            o.item matches Some(Ok(t)) ==> {
                &&& pos <= t.pos.start <= t.pos.end <= src.len()
                &&& t.pos.end == o.pos
                &&& t.pos.line == line_at(src, t.pos.start)
                &&& (spec_lexeme_text(t.ty) matches Some(l) ==> src.subrange(
                    t.pos.start,
                    t.pos.end,
                ) == l)
            }
        }),
{
    lemma_run_end_bounds(src, pos, CharClass::Whitespace);
    let s = run_end(src, pos, CharClass::Whitespace);
    if s >= src.len() {
        assert(src.subrange(s, s) =~= Seq::<char>::empty());
    } else {
        let c = src[s];
        lemma_scan_token_bounds(src, pos, at_eof);
        lemma_dispatch_shape(src, s, at_eof);
        reveal_strlit("(");
        reveal_strlit(")");
        reveal_strlit("{");
        reveal_strlit("}");
        reveal_strlit(",");
        reveal_strlit(";");
        reveal_strlit(".");
        reveal_strlit("-");
        reveal_strlit("+");
        reveal_strlit("*");
        reveal_strlit("/");
        reveal_strlit("!");
        reveal_strlit("!=");
        reveal_strlit("=");
        reveal_strlit("==");
        reveal_strlit(">");
        reveal_strlit(">=");
        reveal_strlit("<");
        reveal_strlit("<=");
        reveal_strlit("\"");
        if crate::model::is_single_char(c) {
            assert(src.subrange(s, s + 1) =~= seq![c]);
        } else if crate::model::is_operator_start(c) {
            if s + 1 < src.len() && src[s + 1] == '=' {
                assert(src.subrange(s, s + 2) =~= seq![c, '=']);
            } else {
                assert(src.subrange(s, s + 1) =~= seq![c]);
            }
        } else if c == '/' {
            if s + 1 < src.len() && src[s + 1] == '/' {
                lemma_run_end_bounds(src, s + 2, CharClass::NotNewline);
            } else if s + 1 < src.len() && src[s + 1] == '*' {
                lemma_block_end_bounds(src, s + 2, 1);
            } else {
                assert(src.subrange(s, s + 1) =~= seq![c]);
            }
        } else if c == '"' {
            lemma_run_end_bounds(src, s + 1, CharClass::NotQuote);
            let q = run_end(src, s + 1, CharClass::NotQuote);
            if q < src.len() {
                assert(src[q] == '"');
                assert(src.subrange(s, q + 1) =~= "\""@ + src.subrange(s + 1, q) + "\""@);
            }
        } else if crate::text::is_numeric_char(c) {
            lemma_run_end_bounds(src, s + 1, CharClass::Numeric);
            let d = run_end(src, s + 1, CharClass::Numeric);
            if d + 1 < src.len() && src[d] == '.' && crate::text::is_numeric_char(src[d + 1]) {
                lemma_run_end_bounds(src, d + 1, CharClass::Numeric);
            }
        } else if crate::text::is_alphabetic_char(c) {
            lemma_run_end_bounds(src, s + 1, CharClass::IdentContinue);
            let e = run_end(src, s + 1, CharClass::IdentContinue);
            lemma_spec_keyword_sound(src.subrange(s, e));
        }
    }
}

/// The pulls a scanner state still owes before it can only emit nothing:
/// one per unconsumed character, plus one for the end-of-stream token.
pub open spec fn scans_left(src: Seq<char>, pos: int, at_eof: bool) -> int {
    src.len() - pos + if at_eof {
        0int
    } else {
        1int
    }
}

/// Total consumption: every pull that emits an item strictly decreases the
/// bounded, non-negative measure `scans_left`, so a buffer of `N`
/// characters yields at most `N + 1` items before the stream only returns
/// nothing; scanning cannot loop forever, whatever the input.
pub proof fn lemma_total_consumption(src: Seq<char>, pos: int, at_eof: bool)
    requires
        0 <= pos <= src.len(),
    ensures
        ({
            let o = spec_scan_token(src, pos, at_eof);
            &&& pos <= o.pos <= src.len()
            &&& 0 <= scans_left(src, o.pos, o.at_eof) <= scans_left(src, pos, at_eof)
            &&& (o.item is Some ==> scans_left(src, o.pos, o.at_eof) < scans_left(
                src,
                pos,
                at_eof,
            ))
        }),
{
    lemma_scan_token_bounds(src, pos, at_eof);
    lemma_run_end_bounds(src, pos, CharClass::Whitespace);
    let s = run_end(src, pos, CharClass::Whitespace);
    if s < src.len() {
        lemma_dispatch_shape(src, s, at_eof);
    }
}

/// End-marker singularity: the end-of-stream token is emitted on exactly
/// the pull that flips the exhausted flag, which happens once; every pull
/// after that emits nothing and moves nothing.
pub proof fn lemma_end_marker_singularity(src: Seq<char>, pos: int, at_eof: bool)
    requires
        0 <= pos <= src.len(),
        at_eof ==> pos == src.len(),
    ensures
        ({
            let o = spec_scan_token(src, pos, at_eof);
            &&& ((o.item matches Some(Ok(t)) && t.ty is Eof) <==> (!at_eof && o.at_eof))
            &&& (at_eof ==> o.item is None && o.pos == pos && o.at_eof)
            &&& (o.at_eof ==> o.pos == src.len())
        }),
{
    lemma_run_end_bounds(src, pos, CharClass::Whitespace);
    let s = run_end(src, pos, CharClass::Whitespace);
    if s < src.len() {
        lemma_dispatch_shape(src, s, at_eof);
    }
}

/// Comment transparency of the filtered stream: a comment token is dropped
/// and the stream continues from where the comment ended, anything else is
/// handed out as-is, and what the consumer sees is never a comment.
pub proof fn lemma_comment_transparency(src: Seq<char>, pos: int, at_eof: bool)
    requires
        0 <= pos <= src.len(),
    ensures
        ({
            let o = spec_scan_token(src, pos, at_eof);
            let n = spec_next(src, pos, at_eof);
            &&& ((o.item matches Some(Ok(t)) && t.ty is Comment) ==> n == spec_next(
                src,
                o.pos,
                o.at_eof,
            ))
            &&& (!(o.item matches Some(Ok(t)) && t.ty is Comment) ==> n == o)
            &&& !(n.item matches Some(Ok(t)) && t.ty is Comment)
        }),
    decreases src.len() - pos,
{
    lemma_scan_token_bounds(src, pos, at_eof);
    let o = spec_scan_token(src, pos, at_eof);
    if o.item matches Some(Ok(t)) && t.ty is Comment {
        lemma_comment_transparency(src, o.pos, o.at_eof);
    }
}

} // verus!
