use fox::token::{Keyword, Position, Token, TokenType};

fn token(ty: TokenType) -> Token {
    Token { ty, position: Position { line: 1, start: 0, end: 0 } }
}

#[test]
fn keyword_lexemes_round_trip_through_the_table() {
    let keywords = vec![
        Keyword::Let,
        Keyword::Fn,
        Keyword::Return,
        Keyword::Class,
        Keyword::Super,
        Keyword::This,
        Keyword::And,
        Keyword::Or,
        Keyword::If,
        Keyword::Else,
        Keyword::True,
        Keyword::False,
        Keyword::For,
        Keyword::While,
        Keyword::Nil,
        Keyword::Print,
    ];
    for k in keywords {
        assert_eq!(Keyword::from_lexeme(k.lexeme()), Some(k));
    }
}

#[test]
fn non_keywords_are_rejected_by_the_table() {
    assert_eq!(Keyword::from_lexeme(""), None);
    assert_eq!(Keyword::from_lexeme("letter"), None);
    assert_eq!(Keyword::from_lexeme("Let"), None);
    assert_eq!(Keyword::from_lexeme("fo"), None);
}

#[test]
fn token_lexeme_gives_the_display_text() {
    assert_eq!(token(TokenType::LeftParen).lexeme(), "(");
    assert_eq!(token(TokenType::BangEq).lexeme(), "!=");
    assert_eq!(token(TokenType::LessEq).lexeme(), "<=");
    assert_eq!(token(TokenType::Identifier("abc".to_string())).lexeme(), "abc");
    assert_eq!(token(TokenType::String("hi".to_string())).lexeme(), "hi");
    assert_eq!(token(TokenType::Number("3.14".to_string())).lexeme(), "3.14");
    assert_eq!(token(TokenType::Keyword(Keyword::While)).lexeme(), "while");
    assert_eq!(token(TokenType::Comment).lexeme(), "<comment>");
    assert_eq!(token(TokenType::Eof).lexeme(), "<eof>");
}
