use lax::ast::{BinaryExpr, Expr, LiteralExpr};
use lax::error::LaxError;
use lax::interpreter::Interpreter;
use lax::parser::Parser;
use lax::scanner::Scanner;
use lax::token::{Object, Token, TokenType};

fn eval(source: &str) -> Result<Object, LaxError> {
    let scanner = Scanner::new(source.to_string());
    let tokens = scanner.scan_tokens().expect("scan should succeed");
    let mut parser = Parser::new(tokens);
    let expr = parser.parse().expect("parse should succeed");
    let interpreter = Interpreter {};
    interpreter.evaluate(&expr)
}

fn num(x: f64) -> Object {
    Object::Num(x.to_bits())
}

#[test]
fn division_of_numbers() {
    assert_eq!(eval("6 / 3").unwrap(), num(2.0));
}

#[test]
fn arithmetic_on_numbers() {
    assert_eq!(eval("1 + 2").unwrap(), num(3.0));
    assert_eq!(eval("8 - 4 - 2").unwrap(), num(2.0));
    assert_eq!(eval("2 * 3.5").unwrap(), num(7.0));
    assert_eq!(eval("(1 + 2) * 3").unwrap(), num(9.0));
}

#[test]
fn division_by_zero_follows_ieee() {
    assert_eq!(eval("1 / 0").unwrap(), num(f64::INFINITY));
    assert_eq!(eval("-1 / 0").unwrap(), num(f64::NEG_INFINITY));
    match eval("0 / 0").unwrap() {
        Object::Num(bits) => assert!(f64::from_bits(bits).is_nan()),
        _ => panic!("0 / 0 should still be a number"),
    }
}

#[test]
fn plus_concatenates_strings() {
    assert_eq!(eval("\"a\" + \"b\"").unwrap(), Object::Str("ab".to_string()));
}

#[test]
fn plus_on_string_and_number_is_an_error() {
    let err = eval("\"a\" + 1").unwrap_err();
    assert_eq!(err.line, 1);
    assert_eq!(err.message, "Invalid operands for +: \"a\" and 1");
}

#[test]
fn minus_on_strings_is_an_error() {
    let err = eval("\"a\" - \"b\"").unwrap_err();
    assert_eq!(err.message, "Invalid operands for -: \"a\" and \"b\"");
}

#[test]
fn unary_minus_negates_numbers_and_falls_back_to_nil() {
    assert_eq!(eval("-5").unwrap(), num(-5.0));
    assert_eq!(eval("--5").unwrap(), num(5.0));
    assert_eq!(eval("-\"x\"").unwrap(), Object::Nil);
    assert_eq!(eval("-nil").unwrap(), Object::Nil);
}

#[test]
fn unary_plus_parses_strings() {
    assert_eq!(eval("+\"12.5\"").unwrap(), num(12.5));
    let err = eval("+\"abc\"").unwrap_err();
    assert_eq!(err.message, "Could not parse abc to a number");
    let err = eval("+1").unwrap_err();
    assert_eq!(err.message, "Invalid operands for +: 1 and Plus");
}

#[test]
fn empty_string_is_truthy() {
    // The empty string is the one truthy string, so its negation is false.
    assert_eq!(eval("!\"\"").unwrap(), Object::Bool(false));
}

#[test]
fn nonempty_string_is_falsey() {
    // A non-empty string is falsey, so its negation is true.
    assert_eq!(eval("!\"x\"").unwrap(), Object::Bool(true));
}

#[test]
fn truthiness_of_other_values() {
    assert_eq!(eval("!nil").unwrap(), Object::Bool(true));
    assert_eq!(eval("!true").unwrap(), Object::Bool(false));
    assert_eq!(eval("!false").unwrap(), Object::Bool(true));
    assert_eq!(eval("!0").unwrap(), Object::Bool(false));
    assert_eq!(eval("not \"\"").unwrap(), Object::Bool(false));
    assert_eq!(eval("not 1").unwrap(), Object::Bool(false));
}

#[test]
fn relational_operators_compare_numbers() {
    assert_eq!(eval("1 < 2").unwrap(), Object::Bool(true));
    assert_eq!(eval("2 <= 2").unwrap(), Object::Bool(true));
    assert_eq!(eval("3 > 4").unwrap(), Object::Bool(false));
    assert_eq!(eval("1 >= 1").unwrap(), Object::Bool(true));
}

#[test]
fn relational_operators_reject_other_types() {
    let err = eval("1 < \"a\"").unwrap_err();
    assert_eq!(err.message, "Invalid operands for <: 1 and \"a\"");
    let err = eval("true > false").unwrap_err();
    assert_eq!(err.message, "Invalid operands for >: true and false");
}

#[test]
fn equality_within_one_type() {
    assert_eq!(eval("\"x\" == \"x\"").unwrap(), Object::Bool(true));
    assert_eq!(eval("\"x\" == \"y\"").unwrap(), Object::Bool(false));
    assert_eq!(eval("1 == 2").unwrap(), Object::Bool(false));
    assert_eq!(eval("2 == 2").unwrap(), Object::Bool(true));
    assert_eq!(eval("true != false").unwrap(), Object::Bool(true));
    assert_eq!(eval("\"x\" != \"y\"").unwrap(), Object::Bool(true));
    assert_eq!(eval("1 != 1").unwrap(), Object::Bool(false));
}

#[test]
fn equality_across_types_is_an_error() {
    let err = eval("1 == \"1\"").unwrap_err();
    assert_eq!(err.message, "Invalid operands for ==: 1 and \"1\"");
    let err = eval("nil == nil").unwrap_err();
    assert_eq!(err.message, "Invalid operands for ==: nil and nil");
}

#[test]
fn membership_tests_substring_containment() {
    assert_eq!(eval("\"el\" in \"hello\"").unwrap(), Object::Bool(true));
    assert_eq!(eval("\"z\" in \"hello\"").unwrap(), Object::Bool(false));
    assert_eq!(eval("\"\" in \"hello\"").unwrap(), Object::Bool(true));
    let err = eval("1 in \"hello\"").unwrap_err();
    assert_eq!(err.message, "Invalid operands for in: 1 and \"hello\"");
}

#[test]
fn negated_membership_flips_containment() {
    // The scanner has no lexeme for the negated membership operator, so
    // the tree is built by hand.
    let not_in = |left: &str, right: &str| {
        Expr::Binary(BinaryExpr {
            left: Box::new(Expr::Literal(LiteralExpr {
                value: Some(Object::Str(left.to_string())),
            })),
            operator: Token {
                t_type: TokenType::BangIn,
                lexeme: "!in".to_string(),
                literal: None,
                line: 1,
            },
            right: Box::new(Expr::Literal(LiteralExpr {
                value: Some(Object::Str(right.to_string())),
            })),
        })
    };
    let interpreter = Interpreter {};
    assert_eq!(interpreter.evaluate(&not_in("z", "hello")).unwrap(), Object::Bool(true));
    assert_eq!(interpreter.evaluate(&not_in("el", "hello")).unwrap(), Object::Bool(false));
}

#[test]
fn single_equal_is_not_an_operator() {
    // The grammar has no binary `=`: the statement fails at the `=` token
    // with the missing-semicolon syntax error.
    let scanner = Scanner::new("1 = 2;".to_string());
    let tokens = scanner.scan_tokens().unwrap();
    let mut parser = Parser::new(tokens);
    let err = parser.parse_statement().unwrap_err();
    assert_eq!(err.message, "Expect ';' after expression.");
    assert_eq!(err.token.unwrap().t_type, TokenType::Equal);
}

#[test]
fn an_unrecognized_operator_node_is_a_runtime_error() {
    // No parse produces such a node; a hand-built tree still gets the
    // defensive diagnostic naming the operator kind.
    let expr = Expr::Binary(BinaryExpr {
        left: Box::new(Expr::Literal(LiteralExpr { value: Some(Object::Num(1.0f64.to_bits())) })),
        operator: Token {
            t_type: TokenType::Equal,
            lexeme: "=".to_string(),
            literal: None,
            line: 1,
        },
        right: Box::new(Expr::Literal(LiteralExpr { value: Some(Object::Num(2.0f64.to_bits())) })),
    });
    let interpreter = Interpreter {};
    let err = interpreter.evaluate(&expr).unwrap_err();
    assert_eq!(err.message, "Invalid operator: Equal");
}

#[test]
fn equality_sits_below_comparison() {
    // `1 == 2 > 3` groups as `1 == (2 > 3)`, so equality sees a number
    // against a boolean and reports the cross-type error.
    let err = eval("1 == 2 > 3").unwrap_err();
    assert_eq!(err.message, "Invalid operands for ==: 1 and false");
}

#[test]
fn membership_sits_in_the_comparison_tier() {
    // `"a" in "ab" == true` groups as `("a" in "ab") == true`.
    assert_eq!(eval("\"a\" in \"ab\" == true").unwrap(), Object::Bool(true));
}

#[test]
fn values_render_in_display_form() {
    assert_eq!(eval("1 + 2").unwrap().to_display_string(), "3");
    assert_eq!(eval("(1 + 2) * 3").unwrap().to_display_string(), "9");
    assert_eq!(eval("\"x\" == \"x\"").unwrap().to_display_string(), "true");
    assert_eq!(eval("45.67").unwrap().to_display_string(), "45.67");
    assert_eq!(eval("\"a\" + \"b\"").unwrap().to_display_string(), "\"ab\"");
    assert_eq!(eval("-0.1").unwrap().to_display_string(), "-0.1");
    assert_eq!(Object::Nil.to_display_string(), "nil");
}

#[test]
fn numbers_render_positionally_never_scientifically() {
    assert_eq!(eval("10").unwrap().to_display_string(), "10");
    assert_eq!(eval("20").unwrap().to_display_string(), "20");
    assert_eq!(eval("100").unwrap().to_display_string(), "100");
    assert_eq!(eval("120").unwrap().to_display_string(), "120");
    assert_eq!(eval("1000").unwrap().to_display_string(), "1000");
    assert_eq!(eval("0.0001").unwrap().to_display_string(), "0.0001");
    assert_eq!(eval("10.5 - 0.5").unwrap().to_display_string(), "10");
    assert_eq!(
        eval("100000000000000000000").unwrap().to_display_string(),
        "100000000000000000000",
    );
}

#[test]
fn specials_render_in_the_float_library_form() {
    // No decimal text reads back as an infinity or a NaN, so the
    // renderer's own fixed forms stand for them.
    assert_eq!(eval("1 / 0").unwrap().to_display_string(), "+Inf");
    assert_eq!(eval("-1 / 0").unwrap().to_display_string(), "-Inf");
    assert_eq!(eval("0 / 0").unwrap().to_display_string(), "NaN");
}

#[test]
fn interpret_prints_and_returns_the_value() {
    let scanner = Scanner::new("print 1 + 2;".to_string());
    let tokens = scanner.scan_tokens().unwrap();
    let mut parser = Parser::new(tokens);
    let stmts = parser.parse_statement().unwrap();
    assert_eq!(stmts.len(), 1);
    let interpreter = Interpreter {};
    assert!(interpreter.interpret_statement(&stmts).is_ok());
}

#[test]
fn interpret_statement_stops_at_first_failure() {
    let scanner = Scanner::new("print 1; \"a\" + 1; print 2;".to_string());
    let tokens = scanner.scan_tokens().unwrap();
    let mut parser = Parser::new(tokens);
    let stmts = parser.parse_statement().unwrap();
    assert_eq!(stmts.len(), 3);
    let interpreter = Interpreter {};
    let err = interpreter.interpret_statement(&stmts).unwrap_err();
    assert_eq!(err.message, "Invalid operands for +: \"a\" and 1");
}
