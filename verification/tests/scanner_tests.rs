use fox::errors::{Span, SyntaxError};
use fox::scanner::Scanner;
use fox::token::{Keyword, Token, TokenType};

fn scan_all(source: &str) -> Vec<Result<Token, SyntaxError>> {
    let mut scanner = Scanner::new(source);
    let mut items = Vec::new();
    loop {
        match scanner.next() {
            Some(item) => items.push(item),
            None => break,
        }
    }
    items
}

fn token_types(source: &str) -> Vec<TokenType> {
    scan_all(source)
        .into_iter()
        .map(|item| item.expect("expected a token").ty)
        .collect()
}

fn number(text: &str) -> TokenType {
    TokenType::Number(text.to_string())
}

#[test]
fn scans_simple_expression() {
    let types = token_types("(+ 1 2)");
    assert_eq!(
        types,
        vec![
            TokenType::LeftParen,
            TokenType::Plus,
            number("1"),
            number("2"),
            TokenType::RightParen,
            TokenType::Eof,
        ]
    );
}

#[test]
fn number_lexemes_parse_to_expected_values() {
    let types = token_types("(+ 1 2)");
    let mut values = Vec::new();
    for ty in types {
        if let TokenType::Number(text) = ty {
            values.push(text.parse::<f64>().unwrap());
        }
    }
    assert_eq!(values, vec![1.0, 2.0]);
}

#[test]
fn unterminated_string_reports_opening_quote() {
    let items = scan_all("\"hello");
    assert_eq!(items.len(), 2);
    assert_eq!(
        items[0],
        Err(SyntaxError::UnterminatedString {
            leading_quote: Span { offset: 0, length: 1 },
        })
    );
    assert!(matches!(
        items[1],
        Ok(Token { ty: TokenType::Eof, .. })
    ));
}

#[test]
fn scans_let_statement() {
    let types = token_types("let x = 3.14;");
    assert_eq!(
        types,
        vec![
            TokenType::Keyword(Keyword::Let),
            TokenType::Identifier("x".to_string()),
            TokenType::Equal,
            number("3.14"),
            TokenType::Semicolon,
            TokenType::Eof,
        ]
    );
}

#[test]
fn scans_two_character_operators() {
    let types = token_types("!= <= >= ==");
    assert_eq!(
        types,
        vec![
            TokenType::BangEq,
            TokenType::LessEq,
            TokenType::GreaterEq,
            TokenType::EqualEq,
            TokenType::Eof,
        ]
    );
}

#[test]
fn scans_one_character_operators() {
    let types = token_types("! < > = / -");
    assert_eq!(
        types,
        vec![
            TokenType::Bang,
            TokenType::Less,
            TokenType::Greater,
            TokenType::Equal,
            TokenType::Slash,
            TokenType::Minus,
            TokenType::Eof,
        ]
    );
}

#[test]
fn unexpected_character_reports_its_span() {
    let items = scan_all("@");
    assert_eq!(items.len(), 2);
    assert_eq!(
        items[0],
        Err(SyntaxError::UnexpectedCharacter {
            ch: '@',
            span: Span { offset: 0, length: 1 },
        })
    );
    assert!(matches!(
        items[1],
        Ok(Token { ty: TokenType::Eof, .. })
    ));
}

#[test]
fn scanning_continues_past_an_error() {
    let items = scan_all("@ 1");
    assert_eq!(items.len(), 3);
    assert!(items[0].is_err());
    assert_eq!(items[1].as_ref().unwrap().ty, number("1"));
    assert_eq!(items[2].as_ref().unwrap().ty, TokenType::Eof);
}

#[test]
fn token_positions_map_to_source_text() {
    let source = "let x = 12";
    let items = scan_all(source);
    for item in &items {
        let token = item.as_ref().unwrap();
        let (start, end) = (token.position.start, token.position.end);
        assert!(start <= end && end <= source.len());
        match &token.ty {
            TokenType::Identifier(text) | TokenType::Number(text) => {
                assert_eq!(&source[start..end], text.as_str());
            }
            TokenType::Keyword(k) => {
                assert_eq!(&source[start..end], k.lexeme());
            }
            TokenType::Eof => assert_eq!(start, end),
            _ => {
                assert_eq!(source[start..end].chars().count(), end - start);
            }
        }
    }
    let positions: Vec<(usize, usize)> = items
        .iter()
        .map(|i| {
            let p = &i.as_ref().unwrap().position;
            (p.start, p.end)
        })
        .collect();
    assert_eq!(positions, vec![(0, 3), (4, 5), (6, 7), (8, 10), (10, 10)]);
}

#[test]
fn string_token_spans_its_quotes_and_carries_raw_content() {
    let items = scan_all("\"hi\"");
    let token = items[0].as_ref().unwrap();
    assert_eq!(token.ty, TokenType::String("hi".to_string()));
    assert_eq!(token.position.start, 0);
    assert_eq!(token.position.end, 4);
}

#[test]
fn line_numbers_count_from_one_per_line_break() {
    let items = scan_all("a\nb\n\nc");
    let lines: Vec<usize> = items
        .iter()
        .map(|i| i.as_ref().unwrap().position.line)
        .collect();
    assert_eq!(lines, vec![1, 2, 4, 4]);
}

#[test]
fn string_token_line_is_the_line_of_its_start() {
    let items = scan_all("\"a\nb\" c");
    let token = items[0].as_ref().unwrap();
    assert_eq!(token.ty, TokenType::String("a\nb".to_string()));
    assert_eq!(token.position.line, 1);
    let after = items[1].as_ref().unwrap();
    assert_eq!(after.ty, TokenType::Identifier("c".to_string()));
    assert_eq!(after.position.line, 2);
}

#[test]
fn empty_input_yields_eof_exactly_once() {
    let mut scanner = Scanner::new("");
    let first = scanner.next();
    assert!(matches!(
        first,
        Some(Ok(Token { ty: TokenType::Eof, .. }))
    ));
    assert!(scanner.next().is_none());
    assert!(scanner.next().is_none());
}

#[test]
fn eof_is_the_last_item_and_sits_at_the_end() {
    let items = scan_all("ab  ");
    let last = items.last().unwrap().as_ref().unwrap();
    assert_eq!(last.ty, TokenType::Eof);
    assert_eq!(last.position.start, 4);
    assert_eq!(last.position.end, 4);
    let eof_count = items
        .iter()
        .filter(|i| matches!(i, Ok(Token { ty: TokenType::Eof, .. })))
        .count();
    assert_eq!(eof_count, 1);
}

#[test]
fn comments_are_filtered_from_the_stream() {
    let with_comments = token_types("1 + /* x */ 2");
    let without_comments = token_types("1 + 2");
    assert_eq!(with_comments, without_comments);
}

#[test]
fn line_comment_runs_to_end_of_line() {
    let types = token_types("a // rest of line\nb");
    assert_eq!(
        types,
        vec![
            TokenType::Identifier("a".to_string()),
            TokenType::Identifier("b".to_string()),
            TokenType::Eof,
        ]
    );
}

#[test]
fn line_comment_at_end_of_input_needs_no_line_break() {
    let types = token_types("a // trailing");
    assert_eq!(
        types,
        vec![TokenType::Identifier("a".to_string()), TokenType::Eof]
    );
}

#[test]
fn scan_token_surfaces_the_comment_internally() {
    let mut scanner = Scanner::new("// c\nx");
    let first = scanner.scan_token().unwrap().unwrap();
    assert_eq!(first.ty, TokenType::Comment);
    assert_eq!(first.position.start, 0);
    assert_eq!(first.position.end, 5);
    let second = scanner.scan_token().unwrap().unwrap();
    assert_eq!(second.ty, TokenType::Identifier("x".to_string()));
}

#[test]
fn nested_block_comment_balances_to_one_comment() {
    let types = token_types("/* /* */ */");
    assert_eq!(types, vec![TokenType::Eof]);
}

#[test]
fn unbalanced_block_comment_is_anchored_at_the_outer_opener() {
    let items = scan_all("/* /* */");
    assert_eq!(items.len(), 2);
    assert_eq!(
        items[0],
        Err(SyntaxError::UnterminatedBlockComment {
            comment_start: Span { offset: 0, length: 2 },
        })
    );
    assert!(matches!(
        items[1],
        Ok(Token { ty: TokenType::Eof, .. })
    ));
}

#[test]
fn block_comment_between_tokens_is_transparent() {
    let types = token_types("a /* b\nc */ d");
    assert_eq!(
        types,
        vec![
            TokenType::Identifier("a".to_string()),
            TokenType::Identifier("d".to_string()),
            TokenType::Eof,
        ]
    );
}

#[test]
fn number_keeps_a_trailing_dot_out_of_the_lexeme() {
    let types = token_types("3.");
    assert_eq!(types, vec![number("3"), TokenType::Dot, TokenType::Eof]);
}

#[test]
fn number_takes_a_fractional_part_only_once() {
    let types = token_types("3.14.5");
    assert_eq!(
        types,
        vec![number("3.14"), TokenType::Dot, number("5"), TokenType::Eof]
    );
}

#[test]
fn identifier_continues_over_digits_and_underscores() {
    let types = token_types("a_b1");
    assert_eq!(
        types,
        vec![TokenType::Identifier("a_b1".to_string()), TokenType::Eof]
    );
}

#[test]
fn leading_underscore_is_not_an_identifier_start() {
    let items = scan_all("_a");
    assert!(matches!(
        items[0],
        Err(SyntaxError::UnexpectedCharacter { ch: '_', .. })
    ));
}

#[test]
fn punctuation_maps_to_fixed_token_types() {
    let types = token_types("(){},;.-+*");
    assert_eq!(
        types,
        vec![
            TokenType::LeftParen,
            TokenType::RightParen,
            TokenType::LeftBrace,
            TokenType::RightBrace,
            TokenType::Comma,
            TokenType::Semicolon,
            TokenType::Dot,
            TokenType::Minus,
            TokenType::Plus,
            TokenType::Star,
            TokenType::Eof,
        ]
    );
}

#[test]
fn every_keyword_is_classified() {
    let source = "let fn return class super this and or if else true false for while nil print";
    let types = token_types(source);
    let expected = vec![
        Keyword::Let,
        Keyword::Fn,
        Keyword::Return,
        Keyword::Class,
        Keyword::Super,
        Keyword::This,
        Keyword::And,
        Keyword::Or,
        Keyword::If,
        Keyword::Else,
        Keyword::True,
        Keyword::False,
        Keyword::For,
        Keyword::While,
        Keyword::Nil,
        Keyword::Print,
    ];
    assert_eq!(types.len(), expected.len() + 1);
    for (ty, k) in types.iter().zip(expected.iter()) {
        assert_eq!(*ty, TokenType::Keyword(*k));
    }
}

#[test]
fn near_keywords_stay_identifiers() {
    let types = token_types("lets fort classy");
    assert_eq!(
        types,
        vec![
            TokenType::Identifier("lets".to_string()),
            TokenType::Identifier("fort".to_string()),
            TokenType::Identifier("classy".to_string()),
            TokenType::Eof,
        ]
    );
}

#[test]
fn unterminated_string_mid_input_spans_its_quote() {
    let items = scan_all("ab \"cd");
    assert_eq!(
        items[1],
        Err(SyntaxError::UnterminatedString {
            leading_quote: Span { offset: 3, length: 1 },
        })
    );
}
