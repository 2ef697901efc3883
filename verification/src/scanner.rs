//! The scanner: a stateful cursor over an immutable source buffer that
//! produces a lazy, forward-only sequence of tokens and recoverable errors.
//!
//! Every pull is proved to follow the mathematical model in [`crate::model`]
//! exactly: `scan_token` realizes `spec_scan_token`, and the filtering pull
//! `next` realizes `spec_next`.

use vstd::prelude::*;
use vstd::string::StrSliceExecFns;

use crate::cursor::Cursor;
use crate::errors::{ErrorV, Span, SyntaxError};
use crate::model::{
    block_end, lemma_dispatch_shape, lemma_run_end_bounds, lemma_scan_token_bounds, line_at,
    spec_dispatch, spec_identifier_token, spec_next, spec_number_token, spec_scan_token,
    spec_slash_token, spec_string_token, CharClass,
};
use crate::text::{char_is_alphabetic, char_is_numeric};
use crate::token::{Keyword, PosV, Position, Token, TokenType, TokenTypeV, TokenV};

verus! {

/// Mathematical model of the scanner's state.
pub struct ScannerV {
    /// The decoded source buffer.
    pub src: Seq<char>,
    /// The cursor: everything before it has been consumed.
    pub pos: int,
    /// The 1-based line number at the cursor.
    pub line: int,
    /// Whether the single end-of-stream token has been emitted.
    pub at_eof: bool,
}

/// The state invariant, as visible through the view: the cursor stays in
/// the buffer, the line number agrees with the consumed text, and once the
/// end-of-stream token is out the cursor rests at the end.
pub open spec fn scanner_inv(v: ScannerV) -> bool {
    &&& 0 <= v.pos <= v.src.len()
    &&& v.line == line_at(v.src, v.pos)
    &&& (v.at_eof ==> v.pos == v.src.len())
}

/// The view of one emitted item.
pub open spec fn item_view(r: Option<Result<Token, SyntaxError>>) -> Option<
    Result<TokenV, ErrorV>,
> {
    match r {
        None => None,
        Some(Ok(t)) => Some(Ok(t@)),
        Some(Err(e)) => Some(Err(e@)),
    }
}

/// The scanner. It owns a decoded copy of the source text and advances
/// monotonically; it never rewinds.
pub struct Scanner {
    cursor: Cursor,
    at_eof: bool,
}

impl View for Scanner {
    type V = ScannerV;

    closed spec fn view(&self) -> ScannerV {
        ScannerV {
            src: self.cursor.src(),
            pos: self.cursor.cur(),
            line: self.cursor.cur_line(),
            at_eof: self.at_eof,
        }
    }
}

/// Relates a sub-scanner's result and final cursor position to the model's
/// answer for that sub-scanner.
spec fn sub_matches(
    pair: (Result<TokenTypeV, ErrorV>, int),
    r: Result<TokenType, SyntaxError>,
    endp: int,
) -> bool {
    match r {
        Ok(ty) => pair.0 == Ok::<TokenTypeV, ErrorV>(ty@) && pair.1 == endp,
        Err(e) => pair.0 == Err::<TokenTypeV, ErrorV>(e@) && pair.1 == endp,
    }
}

impl Scanner {
    /// Internal well-formedness: the cursor is well-formed with lookahead
    /// synchronized between pulls.
    spec fn synced(&self) -> bool {
        &&& self.cursor.wf()
        &&& self.cursor.peeked() == self.cursor.cur()
    }

    /// Well-formedness, established by `new` and preserved by every pull.
    pub closed spec fn wf(&self) -> bool {
        &&& self.synced()
        &&& (self.at_eof ==> self.cursor.cur() == self.cursor.src().len())
    }

    /// A fresh scanner over `source`, at offset 0, line 1.
    pub fn new(source: &str) -> (s: Scanner)
        requires
            source@.len() < usize::MAX,
        ensures
            s.wf(),
            scanner_inv(s@),
            s@.src == source@,
            s@.pos == 0,
            s@.line == 1,
            s@.at_eof == false,
    {
        let n = source.unicode_len();
        let mut chars: Vec<char> = Vec::new();
        let mut i: usize = 0;
        while i < n
            invariant
                n == source@.len(),
                i <= n,
                chars@ == source@.subrange(0, i as int),
            decreases n - i,
        {
            let c = source.get_char(i);
            chars.push(c);
            proof {
                assert(chars@ =~= source@.subrange(0, i as int + 1));
            }
            i = i + 1;
        }
        proof {
            assert(chars@ =~= source@);
        }
        Scanner { cursor: Cursor::new(chars), at_eof: false }
    }

    /// Consumes a trailing `=` when one is next, for the two-character
    /// operators.
    fn match_eq(&mut self) -> (two: bool)
        requires
            old(self).synced(),
        ensures
            final(self).synced(),
            final(self).cursor.src() == old(self).cursor.src(),
            final(self).at_eof == old(self).at_eof,
            two == (old(self).cursor.cur() < old(self).cursor.src().len()
                && old(self).cursor.src()[old(self).cursor.cur()] == '='),
            final(self).cursor.cur() == old(self).cursor.cur() + (if two {
                1int
            } else {
                0int
            }),
    {
        let ahead = self.cursor.peek();
        let two = match ahead {
            Some(c2) => c2 == '=',
            None => false,
        };
        if two {
            self.cursor.advance();
        } else {
            self.cursor.reset_peek();
        }
        two
    }

    /// Scans a string literal whose opening quote sits at `start` and has
    /// been consumed.
    fn scan_string(&mut self, start: usize) -> (r: Result<TokenType, SyntaxError>)
        requires
            old(self).synced(),
            start as int + 1 == old(self).cursor.cur(),
            (start as int) < old(self).cursor.src().len(),
        ensures
            final(self).synced(),
            final(self).cursor.src() == old(self).cursor.src(),
            final(self).at_eof == old(self).at_eof,
            sub_matches(
                spec_string_token(old(self).cursor.src(), start as int),
                r,
                final(self).cursor.cur(),
            ),
    {
        let ghost src = self.cursor.src();
        self.cursor.advance_while(CharClass::NotQuote);
        proof {
            lemma_run_end_bounds(src, start as int + 1, CharClass::NotQuote);
        }
        let q = self.cursor.position();
        match self.cursor.advance() {
            None => Err(
                SyntaxError::UnterminatedString {
                    leading_quote: Span { offset: start, length: 1 },
                },
            ),
            Some(_) => {
                let text = self.cursor.text_range(start + 1, q);
                Ok(TokenType::String(text))
            },
        }
    }

    /// Scans a number literal whose first numeric character sits at `start`
    /// and has been consumed.
    fn scan_number(&mut self, start: usize) -> (ty: TokenType)
        requires
            old(self).synced(),
            start as int + 1 == old(self).cursor.cur(),
            (start as int) < old(self).cursor.src().len(),
        ensures
            final(self).synced(),
            final(self).cursor.src() == old(self).cursor.src(),
            final(self).at_eof == old(self).at_eof,
            ({
                let p = spec_number_token(old(self).cursor.src(), start as int);
                p.0 == Ok::<TokenTypeV, ErrorV>(ty@) && p.1 == final(self).cursor.cur()
            }),
    {
        let ghost src = self.cursor.src();
        self.cursor.advance_while(CharClass::Numeric);
        proof {
            lemma_run_end_bounds(src, start as int + 1, CharClass::Numeric);
        }
        let ghost d = self.cursor.cur();
        let ahead = self.cursor.peek();
        let dot = match ahead {
            Some(ch) => ch == '.',
            None => false,
        };
        if dot {
            let ahead2 = self.cursor.peek();
            let frac = match ahead2 {
                Some(ch2) => char_is_numeric(ch2),
                None => false,
            };
            if frac {
                self.cursor.advance();
                self.cursor.advance_while(CharClass::Numeric);
                proof {
                    lemma_run_end_bounds(src, d + 1, CharClass::Numeric);
                }
            } else {
                self.cursor.reset_peek();
            }
        } else {
            self.cursor.reset_peek();
        }
        let end = self.cursor.position();
        let text = self.cursor.text_range(start, end);
        TokenType::Number(text)
    }

    /// Scans an identifier or keyword whose first character sits at `start`
    /// and has been consumed.
    fn scan_identifier(&mut self, start: usize) -> (ty: TokenType)
        requires
            old(self).synced(),
            start as int + 1 == old(self).cursor.cur(),
            (start as int) < old(self).cursor.src().len(),
        ensures
            final(self).synced(),
            final(self).cursor.src() == old(self).cursor.src(),
            final(self).at_eof == old(self).at_eof,
            ({
                let p = spec_identifier_token(old(self).cursor.src(), start as int);
                p.0 == Ok::<TokenTypeV, ErrorV>(ty@) && p.1 == final(self).cursor.cur()
            }),
    {
        let ghost src = self.cursor.src();
        self.cursor.advance_while(CharClass::IdentContinue);
        proof {
            lemma_run_end_bounds(src, start as int + 1, CharClass::IdentContinue);
        }
        let end = self.cursor.position();
        let text = self.cursor.text_range(start, end);
        match Keyword::from_lexeme(text.as_str()) {
            Some(k) => TokenType::Keyword(k),
            None => TokenType::Identifier(text),
        }
    }

    /// Scans what follows a consumed `/` at `start`: a line comment, a block
    /// comment, or a lone slash.
    fn slash(&mut self, start: usize) -> (r: Result<TokenType, SyntaxError>)
        requires
            old(self).synced(),
            start as int + 1 == old(self).cursor.cur(),
            (start as int) < old(self).cursor.src().len(),
        ensures
            final(self).synced(),
            final(self).cursor.src() == old(self).cursor.src(),
            final(self).at_eof == old(self).at_eof,
            sub_matches(
                spec_slash_token(old(self).cursor.src(), start as int),
                r,
                final(self).cursor.cur(),
            ),
    {
        let ghost src = self.cursor.src();
        let ahead = self.cursor.peek();
        let is_line = match ahead {
            Some(c2) => c2 == '/',
            None => false,
        };
        let is_block = match ahead {
            Some(c2) => c2 == '*',
            None => false,
        };
        if is_line {
            self.cursor.advance();
            self.cursor.advance_while(CharClass::NotNewline);
            proof {
                lemma_run_end_bounds(src, start as int + 2, CharClass::NotNewline);
            }
            let ahead2 = self.cursor.peek();
            if ahead2.is_some() {
                self.cursor.advance();
            } else {
                self.cursor.reset_peek();
            }
            Ok(TokenType::Comment)
        } else if is_block {
            self.cursor.advance();
            self.scan_block_comment(start)
        } else {
            self.cursor.reset_peek();
            Ok(TokenType::Slash)
        }
    }

    /// Scans to the end of a block comment opened by a consumed `/*` at
    /// `start`, tracking the nesting depth; fails when input runs out with
    /// depth still positive, spanning the outermost opener.
    fn scan_block_comment(&mut self, start: usize) -> (r: Result<TokenType, SyntaxError>)
        requires
            old(self).synced(),
            start as int + 2 == old(self).cursor.cur(),
        ensures
            final(self).synced(),
            final(self).cursor.src() == old(self).cursor.src(),
            final(self).at_eof == old(self).at_eof,
            ({
                let be = block_end(old(self).cursor.src(), start as int + 2, 1);
                match be {
                    Some(e) => r == Ok::<TokenType, SyntaxError>(TokenType::Comment)
                        && final(self).cursor.cur() == e,
                    None => r == Err::<TokenType, SyntaxError>(
                        SyntaxError::UnterminatedBlockComment {
                            comment_start: Span { offset: start, length: 2 },
                        },
                    ) && final(self).cursor.cur() == old(self).cursor.src().len(),
                }
            }),
    {
        let ghost src = self.cursor.src();
        let ghost base = self.cursor.cur();
        let ghost eof0 = self.at_eof;
        let mut depth: usize = 1;
        loop
            invariant
                self.synced(),
                self.cursor.src() == src,
                self.at_eof == eof0,
                depth as int <= self.cursor.cur(),
                block_end(src, self.cursor.cur(), depth as int) == block_end(src, base, 1),
            ensures
                self.synced(),
                self.cursor.src() == src,
                self.at_eof == eof0,
                depth == 0 ==> block_end(src, base, 1) == Some(self.cursor.cur()),
                depth > 0 ==> block_end(src, base, 1) is None && self.cursor.cur() == src.len(),
            decreases src.len() - self.cursor.cur(),
        {
            if depth == 0 {
                break ;
            }
            let ghost cur0 = self.cursor.cur();
            let ahead = self.cursor.peek();
            match ahead {
                None => {
                    self.cursor.reset_peek();
                    break ;
                },
                Some(c1) => {
                    let ahead2 = self.cursor.peek();
                    let open = c1 == '/' && (match ahead2 {
                        Some(c2) => c2 == '*',
                        None => false,
                    });
                    let close = c1 == '*' && (match ahead2 {
                        Some(c2) => c2 == '/',
                        None => false,
                    });
                    if open {
                        self.cursor.advance();
                        self.cursor.advance();
                        proof {
                            assert(block_end(src, cur0, depth as int) == block_end(
                                src,
                                cur0 + 2,
                                depth as int + 1,
                            ));
                        }
                        depth = depth + 1;
                    } else if close {
                        self.cursor.advance();
                        self.cursor.advance();
                        proof {
                            assert(block_end(src, cur0, depth as int) == block_end(
                                src,
                                cur0 + 2,
                                depth as int - 1,
                            ));
                        }
                        depth = depth - 1;
                    } else {
                        self.cursor.reset_peek();
                        self.cursor.advance();
                        proof {
                            assert(block_end(src, cur0, depth as int) == block_end(
                                src,
                                cur0 + 1,
                                depth as int,
                            ));
                        }
                    }
                },
            }
        }
        if depth == 0 {
            Ok(TokenType::Comment)
        } else {
            Err(
                SyntaxError::UnterminatedBlockComment {
                    comment_start: Span { offset: start, length: 2 },
                },
            )
        }
    }

    /// Dispatches on the first character of a lexeme, already consumed.
    fn dispatch(&mut self, c: char, start: usize) -> (r: Result<TokenType, SyntaxError>)
        requires
            old(self).synced(),
            start as int + 1 == old(self).cursor.cur(),
            (start as int) < old(self).cursor.src().len(),
            c == old(self).cursor.src()[start as int],
        ensures
            final(self).synced(),
            final(self).cursor.src() == old(self).cursor.src(),
            final(self).at_eof == old(self).at_eof,
            ({
                let o = spec_dispatch(old(self).cursor.src(), start as int, old(self).at_eof);
                &&& final(self).cursor.cur() == o.pos
                &&& match r {
                    Ok(ty) => o.item == Some(
                        Ok::<TokenV, ErrorV>(
                            TokenV {
                                ty: ty@,
                                pos: PosV {
                                    line: line_at(old(self).cursor.src(), start as int),
                                    start: start as int,
                                    end: o.pos,
                                },
                            },
                        ),
                    ),
                    Err(e) => o.item == Some(Err::<TokenV, ErrorV>(e@)),
                }
            }),
    {
        match c {
            '(' => Ok(TokenType::LeftParen),
            ')' => Ok(TokenType::RightParen),
            '{' => Ok(TokenType::LeftBrace),
            '}' => Ok(TokenType::RightBrace),
            ',' => Ok(TokenType::Comma),
            ';' => Ok(TokenType::Semicolon),
            '.' => Ok(TokenType::Dot),
            '-' => Ok(TokenType::Minus),
            '+' => Ok(TokenType::Plus),
            '*' => Ok(TokenType::Star),
            '/' => self.slash(start),
            '!' => {
                let two = self.match_eq();
                Ok(
                    if two {
                        TokenType::BangEq
                    } else {
                        TokenType::Bang
                    },
                )
            },
            '=' => {
                let two = self.match_eq();
                Ok(
                    if two {
                        TokenType::EqualEq
                    } else {
                        TokenType::Equal
                    },
                )
            },
            '>' => {
                let two = self.match_eq();
                Ok(
                    if two {
                        TokenType::GreaterEq
                    } else {
                        TokenType::Greater
                    },
                )
            },
            '<' => {
                let two = self.match_eq();
                Ok(
                    if two {
                        TokenType::LessEq
                    } else {
                        TokenType::Less
                    },
                )
            },
            '"' => self.scan_string(start),
            _ => {
                if char_is_numeric(c) {
                    Ok(self.scan_number(start))
                } else if char_is_alphabetic(c) {
                    Ok(self.scan_identifier(start))
                } else {
                    Err(
                        SyntaxError::UnexpectedCharacter {
                            ch: c,
                            span: Span { offset: start, length: 1 },
                        },
                    )
                }
            },
        }
    }

    /// One pull: skip whitespace, then consume exactly one lexeme and return
    /// its token or error; at the end of input, emit the end-of-stream token
    /// exactly once, and nothing on every pull after that. Follows
    /// `spec_scan_token` exactly.
    pub fn scan_token(&mut self) -> (r: Option<Result<Token, SyntaxError>>)
        requires
            old(self).wf(),
        ensures
            final(self).wf(),
            scanner_inv(final(self)@),
            final(self)@.src == old(self)@.src,
            ({
                let o = spec_scan_token(old(self)@.src, old(self)@.pos, old(self)@.at_eof);
                &&& item_view(r) == o.item
                &&& final(self)@.pos == o.pos
                &&& final(self)@.at_eof == o.at_eof
            }),
    {
        let ghost src = self.cursor.src();
        let ghost pos0 = self.cursor.cur();
        let ghost eof0 = self.at_eof;
        self.cursor.advance_while(CharClass::Whitespace);
        let start = self.cursor.position();
        let line = self.cursor.line();
        match self.cursor.advance() {
            None => {
                if self.at_eof {
                    None
                } else {
                    self.at_eof = true;
                    Some(
                        Ok(
                            Token {
                                ty: TokenType::Eof,
                                position: Position { line, start, end: start },
                            },
                        ),
                    )
                }
            },
            Some(c) => {
                proof {
                    lemma_dispatch_shape(src, start as int, eof0);
                }
                let r = self.dispatch(c, start);
                match r {
                    Ok(ty) => {
                        let end = self.cursor.position();
                        Some(Ok(Token { ty, position: Position { line, start, end } }))
                    },
                    Err(e) => Some(Err(e)),
                }
            },
        }
    }

    /// The filtered pull: like `scan_token`, but comment tokens are consumed
    /// internally and never surface. Follows `spec_next` exactly; what comes
    /// out is never a comment.
    pub fn next(&mut self) -> (r: Option<Result<Token, SyntaxError>>)
        requires
            old(self).wf(),
        ensures
            final(self).wf(),
            scanner_inv(final(self)@),
            final(self)@.src == old(self)@.src,
            ({
                let o = spec_next(old(self)@.src, old(self)@.pos, old(self)@.at_eof);
                &&& item_view(r) == o.item
                &&& final(self)@.pos == o.pos
                &&& final(self)@.at_eof == o.at_eof
            }),
            (r matches Some(Ok(t)) ==> !(t@.ty is Comment)),
    {
        let ghost src = self.cursor.src();
        let ghost pos0 = self.cursor.cur();
        let ghost eof0 = self.at_eof;
        #[verifier::loop_isolation(false)]
        loop
            invariant
                self.wf(),
                self.cursor.src() == src,
                0 <= self.cursor.cur() <= src.len(),
                spec_next(src, self.cursor.cur(), self.at_eof) == spec_next(src, pos0, eof0),
            decreases src.len() - self.cursor.cur(),
        {
            let ghost p = self.cursor.cur();
            let ghost e = self.at_eof;
            proof {
                lemma_scan_token_bounds(src, p, e);
            }
            let item = self.scan_token();
            match item {
                Some(it) => match it {
                    Ok(t) => {
                        if let TokenType::Comment = t.ty {
                        } else {
                            return Some(Ok(t));
                        }
                    },
                    Err(err) => {
                        return Some(Err(err));
                    },
                },
                None => {
                    return None;
                },
            }
        }
    }
}

} // verus!
