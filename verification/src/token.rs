//! Token and position types, and the keyword table.

use vstd::prelude::*;
use vstd::string::StringExecFns;

verus! {

/// A reserved word of the language, matched case-sensitively against
/// identifier text.
#[derive(Clone, Copy, Debug, PartialEq, Eq, Structural)]
pub enum Keyword {
    Let,
    Fn,
    Return,
    Class,
    Super,
    This,
    And,
    Or,
    If,
    Else,
    True,
    False,
    For,
    While,
    Nil,
    Print,
}

/// The canonical spelling of a keyword.
pub open spec fn keyword_chars(k: Keyword) -> Seq<char> {
    match k {
        Keyword::Let => "let"@,
        Keyword::Fn => "fn"@,
        Keyword::Return => "return"@,
        Keyword::Class => "class"@,
        Keyword::Super => "super"@,
        Keyword::This => "this"@,
        Keyword::And => "and"@,
        Keyword::Or => "or"@,
        Keyword::If => "if"@,
        Keyword::Else => "else"@,
        Keyword::True => "true"@,
        Keyword::False => "false"@,
        Keyword::For => "for"@,
        Keyword::While => "while"@,
        Keyword::Nil => "nil"@,
        Keyword::Print => "print"@,
    }
}

/// Classification of a character sequence against the keyword table:
/// `Some(k)` exactly when the text is the spelling of `k`.
pub open spec fn spec_keyword(s: Seq<char>) -> Option<Keyword> {
    if s == keyword_chars(Keyword::Let) {
        Some(Keyword::Let)
    } else if s == keyword_chars(Keyword::Fn) {
        Some(Keyword::Fn)
    } else if s == keyword_chars(Keyword::Return) {
        Some(Keyword::Return)
    } else if s == keyword_chars(Keyword::Class) {
        Some(Keyword::Class)
    } else if s == keyword_chars(Keyword::Super) {
        Some(Keyword::Super)
    } else if s == keyword_chars(Keyword::This) {
        Some(Keyword::This)
    } else if s == keyword_chars(Keyword::And) {
        Some(Keyword::And)
    } else if s == keyword_chars(Keyword::Or) {
        Some(Keyword::Or)
    } else if s == keyword_chars(Keyword::If) {
        Some(Keyword::If)
    } else if s == keyword_chars(Keyword::Else) {
        Some(Keyword::Else)
    } else if s == keyword_chars(Keyword::True) {
        Some(Keyword::True)
    } else if s == keyword_chars(Keyword::False) {
        Some(Keyword::False)
    } else if s == keyword_chars(Keyword::For) {
        Some(Keyword::For)
    } else if s == keyword_chars(Keyword::While) {
        Some(Keyword::While)
    } else if s == keyword_chars(Keyword::Nil) {
        Some(Keyword::Nil)
    } else if s == keyword_chars(Keyword::Print) {
        Some(Keyword::Print)
    } else {
        None
    }
}

/// Compares two string slices by their character content.
fn str_eq(a: &str, b: &str) -> (r: bool)
    ensures
        r == (a@ == b@),
{
    let ao: String = a.to_owned();
    let bo: String = b.to_owned();
    ao.eq(&bo)
}

impl Keyword {
    /// The spelling of this keyword, as it appears in source text.
    pub fn lexeme(&self) -> (r: &str)
        ensures
            r@ == keyword_chars(*self),
    {
        match self {
            Keyword::Let => "let",
            Keyword::Fn => "fn",
            Keyword::Return => "return",
            Keyword::Class => "class",
            Keyword::Super => "super",
            Keyword::This => "this",
            Keyword::And => "and",
            Keyword::Or => "or",
            Keyword::If => "if",
            Keyword::Else => "else",
            Keyword::True => "true",
            Keyword::False => "false",
            Keyword::For => "for",
            Keyword::While => "while",
            Keyword::Nil => "nil",
            Keyword::Print => "print",
        }
    }

    /// Looks the given text up in the keyword table.
    pub fn from_lexeme(s: &str) -> (r: Option<Keyword>)
        ensures
            r == spec_keyword(s@),
    {
        if str_eq(s, "let") {
            Some(Keyword::Let)
        } else if str_eq(s, "fn") {
            Some(Keyword::Fn)
        } else if str_eq(s, "return") {
            Some(Keyword::Return)
        } else if str_eq(s, "class") {
            Some(Keyword::Class)
        } else if str_eq(s, "super") {
            Some(Keyword::Super)
        } else if str_eq(s, "this") {
            Some(Keyword::This)
        } else if str_eq(s, "and") {
            Some(Keyword::And)
        } else if str_eq(s, "or") {
            Some(Keyword::Or)
        } else if str_eq(s, "if") {
            Some(Keyword::If)
        } else if str_eq(s, "else") {
            Some(Keyword::Else)
        } else if str_eq(s, "true") {
            Some(Keyword::True)
        } else if str_eq(s, "false") {
            Some(Keyword::False)
        } else if str_eq(s, "for") {
            Some(Keyword::For)
        } else if str_eq(s, "while") {
            Some(Keyword::While)
        } else if str_eq(s, "nil") {
            Some(Keyword::Nil)
        } else if str_eq(s, "print") {
            Some(Keyword::Print)
        } else {
            None
        }
    }
}

/// Every keyword spelling classifies back to that keyword.
pub proof fn lemma_keyword_round_trip(k: Keyword)
    ensures
        spec_keyword(keyword_chars(k)) == Some(k),
{
    reveal_strlit("let");
    reveal_strlit("fn");
    reveal_strlit("return");
    reveal_strlit("class");
    reveal_strlit("super");
    reveal_strlit("this");
    reveal_strlit("and");
    reveal_strlit("or");
    reveal_strlit("if");
    reveal_strlit("else");
    reveal_strlit("true");
    reveal_strlit("false");
    reveal_strlit("for");
    reveal_strlit("while");
    reveal_strlit("nil");
    reveal_strlit("print");
    assert("let"@.len() == 3 && "let"@[0] == 'l');
    assert("fn"@.len() == 2 && "fn"@[0] == 'f');
    assert("return"@.len() == 6 && "return"@[0] == 'r');
    assert("class"@.len() == 5 && "class"@[0] == 'c');
    assert("super"@.len() == 5 && "super"@[0] == 's');
    assert("this"@.len() == 4 && "this"@[0] == 't' && "this"@[1] == 'h');
    assert("and"@.len() == 3 && "and"@[0] == 'a');
    assert("or"@.len() == 2 && "or"@[0] == 'o');
    assert("if"@.len() == 2 && "if"@[0] == 'i');
    assert("else"@.len() == 4 && "else"@[0] == 'e');
    assert("true"@.len() == 4 && "true"@[0] == 't' && "true"@[1] == 'r');
    assert("false"@.len() == 5 && "false"@[0] == 'f');
    assert("for"@.len() == 3 && "for"@[0] == 'f');
    assert("while"@.len() == 5 && "while"@[0] == 'w');
    assert("nil"@.len() == 3 && "nil"@[0] == 'n');
    assert("print"@.len() == 5 && "print"@[0] == 'p');
}

/// Where a token or error sits in the source: `start` and `end` are
/// character offsets forming a half-open range, and `line` is the 1-based
/// line number at `start`.
#[derive(Clone, Copy, Debug, PartialEq, Eq, Structural)]
pub struct Position {
    pub line: usize,
    pub start: usize,
    pub end: usize,
}

/// Mathematical model of a `Position`.
pub struct PosV {
    pub line: int,
    pub start: int,
    pub end: int,
}

impl View for Position {
    type V = PosV;

    open spec fn view(&self) -> PosV {
        PosV { line: self.line as int, start: self.start as int, end: self.end as int }
    }
}

/// The classification of one lexeme. Literal-carrying variants hold the
/// text as it appears in the source; a `Number` holds the raw numeric
/// lexeme, which the grammar guarantees is a well-formed decimal literal.
#[derive(Debug, PartialEq)]
pub enum TokenType {
    LeftParen,
    RightParen,
    LeftBrace,
    RightBrace,
    Comma,
    Semicolon,
    Dot,
    Minus,
    Plus,
    Slash,
    Star,
    Bang,
    BangEq,
    Equal,
    EqualEq,
    Greater,
    GreaterEq,
    Less,
    LessEq,
    Identifier(String),
    String(String),
    Number(String),
    Keyword(Keyword),
    Comment,
    Eof,
}

/// Mathematical model of a `TokenType`, with text payloads as character
/// sequences.
pub enum TokenTypeV {
    LeftParen,
    RightParen,
    LeftBrace,
    RightBrace,
    Comma,
    Semicolon,
    Dot,
    Minus,
    Plus,
    Slash,
    Star,
    Bang,
    BangEq,
    Equal,
    EqualEq,
    Greater,
    GreaterEq,
    Less,
    LessEq,
    Identifier(Seq<char>),
    StringLit(Seq<char>),
    Number(Seq<char>),
    Keyword(Keyword),
    Comment,
    Eof,
}

impl View for TokenType {
    type V = TokenTypeV;

    open spec fn view(&self) -> TokenTypeV {
        match self {
            TokenType::LeftParen => TokenTypeV::LeftParen,
            TokenType::RightParen => TokenTypeV::RightParen,
            TokenType::LeftBrace => TokenTypeV::LeftBrace,
            TokenType::RightBrace => TokenTypeV::RightBrace,
            TokenType::Comma => TokenTypeV::Comma,
            TokenType::Semicolon => TokenTypeV::Semicolon,
            TokenType::Dot => TokenTypeV::Dot,
            TokenType::Minus => TokenTypeV::Minus,
            TokenType::Plus => TokenTypeV::Plus,
            TokenType::Slash => TokenTypeV::Slash,
            TokenType::Star => TokenTypeV::Star,
            TokenType::Bang => TokenTypeV::Bang,
            TokenType::BangEq => TokenTypeV::BangEq,
            TokenType::Equal => TokenTypeV::Equal,
            TokenType::EqualEq => TokenTypeV::EqualEq,
            TokenType::Greater => TokenTypeV::Greater,
            TokenType::GreaterEq => TokenTypeV::GreaterEq,
            TokenType::Less => TokenTypeV::Less,
            TokenType::LessEq => TokenTypeV::LessEq,
            TokenType::Identifier(s) => TokenTypeV::Identifier(s@),
            TokenType::String(s) => TokenTypeV::StringLit(s@),
            TokenType::Number(s) => TokenTypeV::Number(s@),
            TokenType::Keyword(k) => TokenTypeV::Keyword(*k),
            TokenType::Comment => TokenTypeV::Comment,
            TokenType::Eof => TokenTypeV::Eof,
        }
    }
}

/// A classified lexeme together with its source position.
#[derive(Debug, PartialEq)]
pub struct Token {
    pub ty: TokenType,
    pub position: Position,
}

/// Mathematical model of a `Token`.
pub struct TokenV {
    pub ty: TokenTypeV,
    pub pos: PosV,
}

impl View for Token {
    type V = TokenV;

    open spec fn view(&self) -> TokenV {
        TokenV { ty: self.ty@, pos: self.position@ }
    }
}

/// The display text of a token: the payload for literal-carrying variants,
/// the fixed spelling for punctuation and keywords, and a marker for the
/// comment and end-of-stream variants.
pub open spec fn spec_token_lexeme(t: TokenTypeV) -> Seq<char> {
    match t {
        TokenTypeV::LeftParen => "("@,
        TokenTypeV::RightParen => ")"@,
        TokenTypeV::LeftBrace => "{"@,
        TokenTypeV::RightBrace => "}"@,
        TokenTypeV::Comma => ","@,
        TokenTypeV::Semicolon => ";"@,
        TokenTypeV::Dot => "."@,
        TokenTypeV::Minus => "-"@,
        TokenTypeV::Plus => "+"@,
        TokenTypeV::Slash => "/"@,
        TokenTypeV::Star => "*"@,
        TokenTypeV::Bang => "!"@,
        TokenTypeV::BangEq => "!="@,
        TokenTypeV::Equal => "="@,
        TokenTypeV::EqualEq => "=="@,
        TokenTypeV::Greater => ">"@,
        TokenTypeV::GreaterEq => ">="@,
        TokenTypeV::Less => "<"@,
        TokenTypeV::LessEq => "<="@,
        TokenTypeV::Identifier(s) => s,
        TokenTypeV::StringLit(s) => s,
        TokenTypeV::Number(s) => s,
        TokenTypeV::Keyword(k) => keyword_chars(k),
        TokenTypeV::Comment => "<comment>"@,
        TokenTypeV::Eof => "<eof>"@,
    }
}

impl Token {
    /// The display text of this token.
    pub fn lexeme(&self) -> (r: String)
        ensures
            r@ == spec_token_lexeme(self.ty@),
    {
        match &self.ty {
            TokenType::LeftParen => String::from_str("("),
            TokenType::RightParen => String::from_str(")"),
            TokenType::LeftBrace => String::from_str("{"),
            TokenType::RightBrace => String::from_str("}"),
            TokenType::Comma => String::from_str(","),
            TokenType::Semicolon => String::from_str(";"),
            TokenType::Dot => String::from_str("."),
            TokenType::Minus => String::from_str("-"),
            TokenType::Plus => String::from_str("+"),
            TokenType::Slash => String::from_str("/"),
            TokenType::Star => String::from_str("*"),
            TokenType::Bang => String::from_str("!"),
            TokenType::BangEq => String::from_str("!="),
            TokenType::Equal => String::from_str("="),
            TokenType::EqualEq => String::from_str("=="),
            TokenType::Greater => String::from_str(">"),
            TokenType::GreaterEq => String::from_str(">="),
            TokenType::Less => String::from_str("<"),
            TokenType::LessEq => String::from_str("<="),
            TokenType::Identifier(s) => s.clone(),
            TokenType::String(s) => s.clone(),
            TokenType::Number(s) => s.clone(),
            TokenType::Keyword(k) => k.lexeme().to_owned(),
            TokenType::Comment => String::from_str("<comment>"),
            TokenType::Eof => String::from_str("<eof>"),
        }
    }
}

} // verus!
