//! The front end and evaluation engine of a small scripting language:
//! a scanner turns source text into tokens, a recursive-descent parser
//! turns tokens into an expression and statement tree, a tree-walking
//! evaluator executes the statements, and a printer renders trees in a
//! canonical prefix form.  Each stage carries a mathematical model of
//! what it produces, and each executable function is proved to follow
//! its model.
pub mod ast;
pub mod error;
pub mod interpreter;
pub mod num;
pub mod parser;
pub mod printer;
pub mod scanner;
pub mod token;

use vstd::prelude::*;

use crate::ast::view_expr;
use crate::ast::Expr;
use crate::error::ErrV;
use crate::error::LaxError;
use crate::interpreter::exec_stmts;
use crate::interpreter::Interpreter;
use crate::parser::p_expression;
use crate::parser::p_program;
use crate::parser::ParseR;
use crate::parser::Parser;
use crate::printer::print_expr;
use crate::scanner::lemma_scan_result_lit_wf;
use crate::scanner::lemma_scan_result_tokens_wf;
use crate::scanner::scan_result;
use crate::scanner::Scanner;
use crate::token::TokenV;

verus! {

/// What running a piece of source text through the whole pipeline
/// yields: the retained lexical error if scanning recorded one, else the
/// first syntax error, else the first runtime error, else success.
pub open spec fn run_spec(src: Seq<char>) -> Result<(), ErrV> {
    let sr = scan_result(src);
    if sr.err is Some {
        Result::Err(sr.err->0)
    } else {
        match p_program(sr.toks, 0) {
            Result::Ok((ss, _)) => exec_stmts(ss),
            Result::Err(e) => Result::Err(e),
        }
    }
}

/// Runs source text through scanning, parsing and execution, stopping
/// at the first stage that fails, exactly as [`run_spec`] describes.
/// Print statements write to standard output along the way; output
/// already written stands when a later statement fails.
pub fn run(source: &str) -> (r: Result<(), LaxError>)
    requires
        source@.len() < usize::MAX,
    ensures
        match r {
            Result::Ok(_) => run_spec(source@) == Result::<(), ErrV>::Ok(()),
            Result::Err(e) => run_spec(source@) == Result::<(), ErrV>::Err(e@),
        },
{
    let scanner = Scanner::new(String::from_str(source));
    let tokens = scanner.scan_tokens()?;
    proof {
        lemma_scan_result_tokens_wf(source@);
        lemma_scan_result_lit_wf(source@);
    }
    let mut parser = Parser::new(tokens);
    let stmts = parser.parse_statement()?;
    let interpreter = Interpreter {  };
    interpreter.interpret_statement(&stmts)
}

/// Round trip via the printer: parsing a fixed token sequence and
/// printing the tree is deterministic and stable across repeated calls.
/// Any two parses of the same tokens that the parser's contract admits
/// carry the same model, land on the same position, and print as the
/// same text.
pub proof fn lemma_print_parse_deterministic(
    toks: Seq<TokenV>,
    e1: Expr,
    e2: Expr,
    n1: int,
    n2: int,
    s1: Seq<char>,
    s2: Seq<char>,
)
    requires
        p_expression(toks, 0) == ParseR::Ok((view_expr(e1), n1)),
        p_expression(toks, 0) == ParseR::Ok((view_expr(e2), n2)),
        s1 == print_expr(view_expr(e1)),
        s2 == print_expr(view_expr(e2)),
    ensures
        view_expr(e1) == view_expr(e2),
        n1 == n2,
        s1 == s2,
{
}

} // verus!
