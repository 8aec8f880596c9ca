use scanner::Scanner;
use scanner::Token;

#[test]
fn test_empty_source() {
    let source = "";
    let mut scanner = Scanner::from_str(source);
    let token = scanner.scan_token();
    assert!(matches!(token, None));
}

#[test]
fn lib_test_single_char() {
    let source = "+";
    let mut scanner = Scanner::from_str(source);
    let token = scanner.scan_token();
    assert!(matches!(token, Some(Token::Plus)));
}

#[test]
fn test_list_single_char_tokens() {
    let source = "(){}[],.;-+/*=!><";
    let scanner = Scanner::from_str(source);
    let mut output = vec![
        Token::LeftParen,
        Token::RightParen,
        Token::LeftBrace,
        Token::RightBrace,
        Token::LeftBracket,
        Token::RightBracket,
        Token::Comma,
        Token::Dot,
        Token::Semicolon,
        Token::Minus,
        Token::Plus,
        Token::Slash,
        Token::Star,
        Token::Equal,
        Token::Bang,
        Token::Greater,
        Token::Less,
    ];

    output.reverse();

    let mut tokens = scanner.into_iter();
    while let Some(token) = tokens.next() {
        assert_eq!(token, output.pop().unwrap());
    }
}

#[test]
fn test_unterminated_string() {
    let source = "\"this is unterminated\nstring";
    let mut scanner = Scanner::from_str(source);
    let token = scanner.scan_token();
    assert!(matches!(token, Some(Token::Invalid(_, _))));
}

#[test]
fn test_string() {
    let source = "\"FooBarBuzz\"";
    let mut scanner = Scanner::from_str(source);
    let token = scanner.scan_token();
    match token {
        Some(Token::StringLiteral(s)) => assert_eq!(s, "FooBarBuzz"),
        _ => unreachable!("it should have returned a String token"),
    }
}
