use lax::scanner::Scanner;
use lax::token::{Object, Token, TokenType};

fn scan(source: &str) -> Vec<Token> {
    Scanner::new(source.to_string()).scan_tokens().expect("scan should succeed")
}

fn kinds(tokens: &[Token]) -> Vec<TokenType> {
    tokens.iter().map(|t| t.t_type).collect()
}

#[test]
fn unexpected_character_is_a_lexical_error() {
    let err = Scanner::new("@".to_string()).scan_tokens().unwrap_err();
    assert_eq!(err.line, 1);
    assert_eq!(err.message, "Unexpected character.");
}

#[test]
fn unterminated_string_is_a_lexical_error() {
    let err = Scanner::new("\"abc".to_string()).scan_tokens().unwrap_err();
    assert_eq!(err.line, 1);
    assert_eq!(err.message, "Unterminated string");
}

#[test]
fn unterminated_block_comment_is_a_lexical_error() {
    let err = Scanner::new("/* open".to_string()).scan_tokens().unwrap_err();
    assert_eq!(err.message, "Unterminated comment");
}

#[test]
fn the_most_recent_lexical_error_is_retained() {
    let err = Scanner::new("@\n$".to_string()).scan_tokens().unwrap_err();
    assert_eq!(err.line, 2);
    assert_eq!(err.message, "Unexpected character.");
}

#[test]
fn empty_source_scans_to_one_eof() {
    let tokens = scan("");
    assert_eq!(kinds(&tokens), vec![TokenType::EOF]);
    assert_eq!(tokens[0].line, 1);
    assert_eq!(tokens[0].lexeme, "");
}

#[test]
fn punctuation_and_operators_scan_to_their_kinds() {
    let tokens = scan("(){},.-+;*/ ! != = == > >= < <=");
    assert_eq!(
        kinds(&tokens),
        vec![
            TokenType::LeftParen,
            TokenType::RightParent,
            TokenType::LeftBrace,
            TokenType::RightBrace,
            TokenType::Comma,
            TokenType::Dot,
            TokenType::Minus,
            TokenType::Plus,
            TokenType::Semicolon,
            TokenType::Star,
            TokenType::Slash,
            TokenType::Bang,
            TokenType::BangEqual,
            TokenType::Equal,
            TokenType::EqualEqual,
            TokenType::Greater,
            TokenType::GreaterEqual,
            TokenType::Less,
            TokenType::LessEqual,
            TokenType::EOF,
        ]
    );
}

#[test]
fn numbers_keep_their_lexeme_and_value() {
    let tokens = scan("45.67");
    assert_eq!(tokens[0].t_type, TokenType::Number);
    assert_eq!(tokens[0].lexeme, "45.67");
    assert_eq!(tokens[0].literal, Some(Object::Num(45.67f64.to_bits())));
}

#[test]
fn a_trailing_dot_is_not_part_of_a_number() {
    let tokens = scan("123.");
    assert_eq!(kinds(&tokens), vec![TokenType::Number, TokenType::Dot, TokenType::EOF]);
    assert_eq!(tokens[0].lexeme, "123");
    assert_eq!(tokens[0].literal, Some(Object::Num(123.0f64.to_bits())));
}

#[test]
fn string_literals_take_their_text_verbatim() {
    let tokens = scan("\"a\nb\"");
    assert_eq!(tokens[0].t_type, TokenType::String);
    assert_eq!(tokens[0].literal, Some(Object::Str("a\nb".to_string())));
    // The line counter advanced past the embedded newline.
    assert_eq!(tokens[0].line, 2);
}

#[test]
fn keywords_and_identifiers_are_told_apart() {
    let tokens = scan("print foo_bar class x1 in is not");
    assert_eq!(
        kinds(&tokens),
        vec![
            TokenType::Print,
            TokenType::Identifier,
            TokenType::Class,
            TokenType::Identifier,
            TokenType::In,
            TokenType::Is,
            TokenType::Not,
            TokenType::EOF,
        ]
    );
    assert_eq!(tokens[1].lexeme, "foo_bar");
    assert_eq!(tokens[3].lexeme, "x1");
}

#[test]
fn line_comments_run_to_the_end_of_the_line() {
    let tokens = scan("1 // ignored ( \" @\n2");
    assert_eq!(kinds(&tokens), vec![TokenType::Number, TokenType::Number, TokenType::EOF]);
    assert_eq!(tokens[0].line, 1);
    assert_eq!(tokens[1].line, 2);
}

#[test]
fn block_comments_nest() {
    let tokens = scan("1 /* a /* deeper */ still comment */ 2");
    assert_eq!(kinds(&tokens), vec![TokenType::Number, TokenType::Number, TokenType::EOF]);
}

#[test]
fn a_huge_number_literal_rounds_to_infinity() {
    let source: String = "9".repeat(350);
    let tokens = scan(&source);
    assert_eq!(tokens[0].t_type, TokenType::Number);
    assert_eq!(tokens[0].literal, Some(Object::Num(f64::INFINITY.to_bits())));
}

#[test]
fn newlines_advance_the_line_counter() {
    let tokens = scan("1\n2\n3");
    assert_eq!(tokens[0].line, 1);
    assert_eq!(tokens[1].line, 2);
    assert_eq!(tokens[2].line, 3);
    assert_eq!(tokens[3].t_type, TokenType::EOF);
    assert_eq!(tokens[3].line, 3);
}
