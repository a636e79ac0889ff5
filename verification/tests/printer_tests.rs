use lax::ast::{BinaryExpr, Expr, GroupingExpr, LiteralExpr, UnaryExpr};
use lax::parser::Parser;
use lax::printer::AstPrinter;
use lax::scanner::Scanner;
use lax::token::{Object, Token, TokenType};

fn parse_expression(source: &str) -> Expr {
    let scanner = Scanner::new(source.to_string());
    let tokens = scanner.scan_tokens().expect("scan should succeed");
    let mut parser = Parser::new(tokens);
    parser.parse().expect("parse should succeed")
}

fn printed(source: &str) -> String {
    let printer = AstPrinter::new();
    printer.print(&parse_expression(source)).expect("print never fails")
}

#[test]
fn test_ast_printer() {
    let expr = Expr::Binary(BinaryExpr {
        left: Box::new(Expr::Unary(UnaryExpr {
            operator: Token {
                t_type: TokenType::Minus,
                lexeme: "-".to_string(),
                literal: None,
                line: 1,
            },
            right: Box::new(Expr::Literal(LiteralExpr {
                value: Some(Object::Num(123.0f64.to_bits())),
            })),
        })),
        operator: Token {
            t_type: TokenType::Star,
            lexeme: "*".to_string(),
            literal: None,
            line: 1,
        },
        right: Box::new(Expr::Grouping(GroupingExpr {
            expression: Box::new(Expr::Literal(LiteralExpr {
                value: Some(Object::Num(45.67f64.to_bits())),
            })),
        })),
    });

    let printer = AstPrinter {};
    assert_eq!(printer.print(&expr).unwrap(), "(* (- 123) (group 45.67))".to_string());
    println!("{}", printer.print(&expr).unwrap());
}

#[test]
fn precedence_multiplication_binds_tighter() {
    assert_eq!(printed("1 + 2 * 3"), "(+ 1 (* 2 3))");
}

#[test]
fn precedence_tree_shape() {
    let expr = parse_expression("1 + 2 * 3");
    match expr {
        Expr::Binary(b) => {
            assert_eq!(b.operator.t_type, TokenType::Plus);
            match (*b.left, *b.right) {
                (Expr::Literal(l), Expr::Binary(r)) => {
                    assert_eq!(l.value, Some(Object::Num(1.0f64.to_bits())));
                    assert_eq!(r.operator.t_type, TokenType::Star);
                    match (*r.left, *r.right) {
                        (Expr::Literal(a), Expr::Literal(c)) => {
                            assert_eq!(a.value, Some(Object::Num(2.0f64.to_bits())));
                            assert_eq!(c.value, Some(Object::Num(3.0f64.to_bits())));
                        }
                        _ => panic!("factor operands should be literals"),
                    }
                }
                _ => panic!("sum should be literal + product"),
            }
        }
        _ => panic!("top node should be the sum"),
    }
}

#[test]
fn equality_parses_below_comparison() {
    assert_eq!(printed("1 == 2 > 3"), "(== 1 (> 2 3))");
}

#[test]
fn subtraction_is_left_associative() {
    assert_eq!(printed("8 - 4 - 2"), "(- (- 8 4) 2)");
}

#[test]
fn round_trip_is_stable_across_calls() {
    let first = printed("1 + 2 * (3 - -4)");
    let second = printed("1 + 2 * (3 - -4)");
    assert_eq!(first, second);
}

#[test]
fn printer_renders_empty_literal_as_nil() {
    let printer = AstPrinter::new();
    let expr = Expr::Literal(LiteralExpr { value: None });
    assert_eq!(printer.print(&expr).unwrap(), "nil");
}

#[test]
fn printer_renders_literals() {
    assert_eq!(printed("\"hi\""), "\"hi\"");
    assert_eq!(printed("true"), "true");
    assert_eq!(printed("false"), "false");
    assert_eq!(printed("nil"), "nil");
    assert_eq!(printed("45.67"), "45.67");
}
