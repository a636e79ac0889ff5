use lax::parser::Parser;
use lax::run;
use lax::scanner::Scanner;
use lax::token::TokenType;

fn parse_err(source: &str) -> lax::error::LaxError {
    let scanner = Scanner::new(source.to_string());
    let tokens = scanner.scan_tokens().expect("scan should succeed");
    let mut parser = Parser::new(tokens);
    parser.parse_statement().unwrap_err()
}

#[test]
fn print_statements_execute() {
    assert!(run("print 1 + 2;").is_ok());
    assert!(run("print \"x\" == \"x\";").is_ok());
    assert!(run("print (1 + 2) * 3;").is_ok());
}

#[test]
fn expression_statements_execute_for_effect_only() {
    assert!(run("1 + 2; \"a\" + \"b\";").is_ok());
}

#[test]
fn malformed_print_statement_fails_without_running() {
    let err = run("print 1 +;").unwrap_err();
    assert_eq!(err.line, 1);
    assert_eq!(err.message, "Expected expression");
}

#[test]
fn lexical_errors_surface_through_run() {
    let err = run("print @;").unwrap_err();
    assert_eq!(err.message, "Unexpected character.");
}

#[test]
fn runtime_errors_surface_through_run() {
    let err = run("print \"a\" + 1;").unwrap_err();
    assert_eq!(err.message, "Invalid operands for +: \"a\" and 1");
}

#[test]
fn missing_close_paren_is_a_syntax_error() {
    let err = parse_err("(1 + 2");
    assert_eq!(err.message, "Expect ')' after expression.");
    let offending = err.token.expect("the error carries the offending token");
    assert_eq!(offending.t_type, TokenType::EOF);
}

#[test]
fn missing_operand_is_an_expected_expression_error() {
    let err = parse_err("1 +");
    assert_eq!(err.line, 1);
    assert_eq!(err.message, "Expected expression");
    assert!(err.token.is_none());
}

#[test]
fn missing_semicolon_is_a_syntax_error() {
    let err = parse_err("1 + 2");
    assert_eq!(err.message, "Expect ';' after expression.");
}

#[test]
fn parse_returns_no_tree_on_failure() {
    let scanner = Scanner::new("+ *".to_string());
    let tokens = scanner.scan_tokens().unwrap();
    let mut parser = Parser::new(tokens);
    assert!(parser.parse().is_none());
}

#[test]
fn parse_statement_aborts_at_the_first_error() {
    // Fail-fast: the sound statement after the fault is never reached.
    let err = parse_err("1 + ; print 2;");
    assert_eq!(err.message, "Expected expression");
}

#[test]
fn synchronize_skips_to_a_statement_boundary() {
    let scanner = Scanner::new("1 + ; print 2;".to_string());
    let tokens = scanner.scan_tokens().unwrap();
    let mut parser = Parser::new(tokens);
    parser.synchronize();
    // The cursor stops just past the semicolon, in front of `print`.
    assert_eq!(parser.current, 3);
    assert_eq!(parser.tokens[parser.current].t_type, TokenType::Print);
}
