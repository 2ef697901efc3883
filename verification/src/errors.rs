//! Structured diagnostics for malformed input.

use vstd::prelude::*;

verus! {

/// A character-offset range pointing into the source buffer.
#[derive(Clone, Copy, Debug, PartialEq, Eq, Structural)]
pub struct Span {
    pub offset: usize,
    pub length: usize,
}

/// Mathematical model of a `Span`.
pub struct SpanV {
    pub offset: int,
    pub length: int,
}

impl View for Span {
    type V = SpanV;

    open spec fn view(&self) -> SpanV {
        SpanV { offset: self.offset as int, length: self.length as int }
    }
}

/// A lexical error. Each variant carries the span a renderer should
/// underline: for the unterminated cases that is the span of the *opening*
/// delimiter, not the point where input ran out.
#[derive(Clone, Copy, Debug, PartialEq, Eq, Structural)]
pub enum SyntaxError {
    /// A character that matches no dispatch rule, with its one-character span.
    UnexpectedCharacter { ch: char, span: Span },
    /// Input ended before a closing quote; spans the opening quote.
    UnterminatedString { leading_quote: Span },
    /// Input ended with block comments still open; spans the outermost `/*`.
    UnterminatedBlockComment { comment_start: Span },
}

/// Mathematical model of a `SyntaxError`.
pub enum ErrorV {
    UnexpectedCharacter { ch: char, span: SpanV },
    UnterminatedString { leading_quote: SpanV },
    UnterminatedBlockComment { comment_start: SpanV },
}

impl View for SyntaxError {
    type V = ErrorV;

    open spec fn view(&self) -> ErrorV {
        match self {
            SyntaxError::UnexpectedCharacter { ch, span } => ErrorV::UnexpectedCharacter {
                ch: *ch,
                span: span@,
            },
            SyntaxError::UnterminatedString { leading_quote } => ErrorV::UnterminatedString {
                leading_quote: leading_quote@,
            },
            SyntaxError::UnterminatedBlockComment { comment_start } => ErrorV::UnterminatedBlockComment {
                comment_start: comment_start@,
            },
        }
    }
}

} // verus!
