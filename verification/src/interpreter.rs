use std::io::Write;
use vstd::prelude::*;

use crate::ast::expr_wf;
use crate::ast::stmt_wf;
use crate::ast::view_expr;
use crate::ast::view_stmt;
use crate::ast::BinaryExpr;
use crate::ast::Expr;
use crate::ast::ExprV;
use crate::ast::ExpressionStmt;
use crate::ast::GroupingExpr;
use crate::ast::LiteralExpr;
use crate::ast::PrintStmt;
use crate::ast::Stmt;
use crate::ast::StmtV;
use crate::ast::UnaryExpr;
use crate::error::plain_error;
use crate::error::ErrV;
use crate::error::LaxError;
use crate::num::float_add;
use crate::num::float_div;
use crate::num::float_eq;
use crate::num::float_ge;
use crate::num::float_gt;
use crate::num::float_le;
use crate::num::float_lt;
use crate::num::float_mul;
use crate::num::float_neg;
use crate::num::float_parse;
use crate::num::float_sub;
use crate::num::num_add;
use crate::num::num_div;
use crate::num::num_eq;
use crate::num::num_ge;
use crate::num::num_gt;
use crate::num::num_le;
use crate::num::num_lt;
use crate::num::num_mul;
use crate::num::num_neg;
use crate::num::num_parse;
use crate::num::num_sub;
use crate::token::kind_name;
use crate::token::token_kind_name;
use crate::token::value_display;
use crate::token::Object;
use crate::token::TokenType;
use crate::token::ValueV;

verus! {

// ---------------------------------------------------------------------
// The evaluation model: values are computed bottom-up; each operator
// demands the operand types of its row and yields the error naming the
// operator and both operand values otherwise.
// ---------------------------------------------------------------------
/// The truthiness rule: nil is false, a boolean is itself, a string is
/// true exactly when it is empty, everything else is true.
pub open spec fn truthy(v: ValueV) -> bool {
    match v {
        ValueV::Nil => false,
        ValueV::Bool(b) => b,
        ValueV::Str(s) => s.len() == 0,
        ValueV::Num(_) => true,
    }
}

/// Whether `needle` occurs as a contiguous substring of `hay`.
pub open spec fn str_contains(hay: Seq<char>, needle: Seq<char>) -> bool {
    exists|i: int|
        0 <= i && i + needle.len() <= hay.len() && #[trigger] hay.subrange(i, i + needle.len())
            == needle
}

/// The diagnostic for an operator applied to operand types outside its
/// table, naming the operator and both offending values.
pub open spec fn invalid_operands_msg(op: Seq<char>, l: ValueV, r: ValueV) -> Seq<char> {
    "Invalid operands for "@ + op + ": "@ + value_display(l) + " and "@ + value_display(r)
}

/// What a binary operator yields on two evaluated operands.  Arithmetic
/// demands numbers, except `+`, which also concatenates two strings;
/// the relational row demands numbers; equality is defined for
/// number/number, string/string and boolean/boolean pairs only; the
/// membership row demands strings and tests right-hand containment.
pub open spec fn eval_binary(op: TokenType, line: int, l: ValueV, r: ValueV) -> Result<
    ValueV,
    ErrV,
> {
    match op {
        TokenType::Minus => match (l, r) {
            (ValueV::Num(a), ValueV::Num(b)) => Result::Ok(ValueV::Num(float_sub(a, b))),
            _ => Result::Err(plain_error(line, invalid_operands_msg("-"@, l, r))),
        },
        TokenType::Slash => match (l, r) {
            (ValueV::Num(a), ValueV::Num(b)) => Result::Ok(ValueV::Num(float_div(a, b))),
            _ => Result::Err(plain_error(line, invalid_operands_msg("/"@, l, r))),
        },
        TokenType::Star => match (l, r) {
            (ValueV::Num(a), ValueV::Num(b)) => Result::Ok(ValueV::Num(float_mul(a, b))),
            _ => Result::Err(plain_error(line, invalid_operands_msg("*"@, l, r))),
        },
        TokenType::Plus => match (l, r) {
            (ValueV::Num(a), ValueV::Num(b)) => Result::Ok(ValueV::Num(float_add(a, b))),
            (ValueV::Str(a), ValueV::Str(b)) => Result::Ok(ValueV::Str(a + b)),
            _ => Result::Err(plain_error(line, invalid_operands_msg("+"@, l, r))),
        },
        TokenType::Greater => match (l, r) {
            (ValueV::Num(a), ValueV::Num(b)) => Result::Ok(ValueV::Bool(float_gt(a, b))),
            _ => Result::Err(plain_error(line, invalid_operands_msg(">"@, l, r))),
        },
        TokenType::GreaterEqual => match (l, r) {
            (ValueV::Num(a), ValueV::Num(b)) => Result::Ok(ValueV::Bool(float_ge(a, b))),
            _ => Result::Err(plain_error(line, invalid_operands_msg(">="@, l, r))),
        },
        TokenType::Less => match (l, r) {
            (ValueV::Num(a), ValueV::Num(b)) => Result::Ok(ValueV::Bool(float_lt(a, b))),
            _ => Result::Err(plain_error(line, invalid_operands_msg("<"@, l, r))),
        },
        TokenType::LessEqual => match (l, r) {
            (ValueV::Num(a), ValueV::Num(b)) => Result::Ok(ValueV::Bool(float_le(a, b))),
            _ => Result::Err(plain_error(line, invalid_operands_msg("<="@, l, r))),
        },
        TokenType::BangEqual => match (l, r) {
            (ValueV::Num(a), ValueV::Num(b)) => Result::Ok(ValueV::Bool(!float_eq(a, b))),
            (ValueV::Str(a), ValueV::Str(b)) => Result::Ok(ValueV::Bool(a != b)),
            (ValueV::Bool(a), ValueV::Bool(b)) => Result::Ok(ValueV::Bool(a != b)),
            _ => Result::Err(plain_error(line, invalid_operands_msg("!="@, l, r))),
        },
        TokenType::EqualEqual => match (l, r) {
            (ValueV::Num(a), ValueV::Num(b)) => Result::Ok(ValueV::Bool(float_eq(a, b))),
            (ValueV::Str(a), ValueV::Str(b)) => Result::Ok(ValueV::Bool(a == b)),
            (ValueV::Bool(a), ValueV::Bool(b)) => Result::Ok(ValueV::Bool(a == b)),
            _ => Result::Err(plain_error(line, invalid_operands_msg("=="@, l, r))),
        },
        TokenType::In => match (l, r) {
            (ValueV::Str(a), ValueV::Str(b)) => Result::Ok(ValueV::Bool(str_contains(b, a))),
            _ => Result::Err(plain_error(line, invalid_operands_msg("in"@, l, r))),
        },
        TokenType::BangIn => match (l, r) {
            (ValueV::Str(a), ValueV::Str(b)) => Result::Ok(ValueV::Bool(!str_contains(b, a))),
            _ => Result::Err(plain_error(line, invalid_operands_msg("!in"@, l, r))),
        },
        _ => Result::Err(plain_error(line, "Invalid operator: "@ + kind_name(op))),
    }
}

/// What a unary operator yields on its evaluated operand.  `-` negates a
/// number and falls back to nil on anything else; `!` and the
/// logical-not keyword negate truthiness; `+` parses a string as a
/// number, failing when it is not numeric, and is a type error on
/// anything but a string; no other operator kind reaches evaluation.
pub open spec fn eval_unary(op: TokenType, line: int, v: ValueV) -> Result<ValueV, ErrV> {
    match op {
        TokenType::Minus => match v {
            ValueV::Num(a) => Result::Ok(ValueV::Num(float_neg(a))),
            _ => Result::Ok(ValueV::Nil),
        },
        TokenType::Bang => Result::Ok(ValueV::Bool(!truthy(v))),
        TokenType::Not => Result::Ok(ValueV::Bool(!truthy(v))),
        TokenType::Plus => match v {
            ValueV::Str(s) => match float_parse(s) {
                Option::Some(b) => Result::Ok(ValueV::Num(b)),
                Option::None => Result::Err(
                    plain_error(line, "Could not parse "@ + s + " to a number"@),
                ),
            },
            _ => Result::Err(
                plain_error(
                    line,
                    "Invalid operands for +: "@ + value_display(v) + " and "@ + kind_name(op),
                ),
            ),
        },
        _ => Result::Err(plain_error(0, "Unreachable"@)),
    }
}

/// What evaluating an expression tree yields: a literal is its stored
/// value, a grouping is its inner expression, operators follow
/// [`eval_unary`] and [`eval_binary`], and the left operand of a binary
/// operator is evaluated before the right one, the first error winning.
pub open spec fn eval_expr(e: ExprV) -> Result<ValueV, ErrV>
    decreases e,
{
    match e {
        ExprV::Literal { value } => match value {
            Option::Some(v) => Result::Ok(v),
            Option::None => Result::Ok(ValueV::Nil),
        },
        ExprV::Grouping { expression } => eval_expr(*expression),
        ExprV::Unary { operator, right } => match eval_expr(*right) {
            Result::Ok(v) => eval_unary(operator.t_type, operator.line, v),
            Result::Err(e) => Result::Err(e),
        },
        ExprV::Binary { operator, left, right } => match eval_expr(*left) {
            Result::Ok(l) => match eval_expr(*right) {
                Result::Ok(r) => eval_binary(operator.t_type, operator.line, l, r),
                Result::Err(e) => Result::Err(e),
            },
            Result::Err(e) => Result::Err(e),
        },
    }
}

/// What executing one statement yields: its expression is evaluated; a
/// print statement then writes the value's textual form, an expression
/// statement discards it.
pub open spec fn exec_stmt(s: StmtV) -> Result<(), ErrV> {
    match s {
        StmtV::Expression { expression } => match eval_expr(expression) {
            Result::Ok(_) => Result::Ok(()),
            Result::Err(e) => Result::Err(e),
        },
        StmtV::Print { expression } => match eval_expr(expression) {
            Result::Ok(_) => Result::Ok(()),
            Result::Err(e) => Result::Err(e),
        },
    }
}

/// What executing a statement sequence yields: statements run strictly
/// in order, stopping at the first failing one; effects of earlier
/// statements stand.
pub open spec fn exec_stmts(ss: Seq<StmtV>) -> Result<(), ErrV>
    decreases ss.len(),
{
    if ss.len() == 0 {
        Result::Ok(())
    } else {
        match exec_stmt(ss[0]) {
            Result::Ok(_) => exec_stmts(ss.drop_first()),
            Result::Err(e) => Result::Err(e),
        }
    }
}

// ---------------------------------------------------------------------
// The executable evaluator.
// ---------------------------------------------------------------------
/// Relies on `str::contains` with a string pattern: it returns true
/// exactly when the pattern occurs as a substring.
#[verifier::external_body]
fn string_contains(hay: &String, needle: &String) -> (r: bool)
    ensures
        r == str_contains(hay@, needle@),
{
    hay.contains(needle.as_str())
}

/// Relies on `std::io::Stdout` and the `writeln` macro to put one line
/// on standard output; nothing is promised of the stream.
#[verifier::external_body]
fn print_line(s: &str) {
    let _ = writeln!(std::io::stdout(), "{}", s);
}

/// The tree-walking evaluator: it computes the value of expression
/// subtrees bottom-up, as [`eval_expr`] describes, and executes
/// statements in order, as [`exec_stmts`] describes.
pub struct Interpreter {}

impl Interpreter {
    /// Evaluates the expression and prints its value's textual form.
    pub fn interpret(&self, expr: &Expr) -> (r: Result<Object, LaxError>)
        requires
            expr_wf(view_expr(*expr)),
        ensures
            match r {
                Result::Ok(v) => eval_expr(view_expr(*expr)) == Result::<ValueV, ErrV>::Ok(v@),
                Result::Err(e) => eval_expr(view_expr(*expr)) == Result::<ValueV, ErrV>::Err(e@),
            },
    {
        let value = self.evaluate(expr)?;
        print_line(value.to_display_string().as_str());
        Result::Ok(value)
    }

    /// Executes the statements strictly in order, stopping at the first
    /// failing one; output already printed stands.
    pub fn interpret_statement(&self, stmts: &Vec<Stmt>) -> (r: Result<(), LaxError>)
        requires
            forall|k: int| 0 <= k < stmts@.len() ==> stmt_wf(view_stmt(#[trigger] stmts@[k])),
        ensures
            match r {
                Result::Ok(_) => exec_stmts(stmts@.map_values(|s: Stmt| view_stmt(s))) == Result::<
                    (),
                    ErrV,
                >::Ok(()),
                Result::Err(e) => exec_stmts(stmts@.map_values(|s: Stmt| view_stmt(s))) == Result::<
                    (),
                    ErrV,
                >::Err(e@),
            },
    {
        let ghost views = stmts@.map_values(|s: Stmt| view_stmt(s));
        proof {
            assert(views.skip(0) =~= views);
        }
        let n = stmts.len();
        let mut i: usize = 0;
        while i < n
            invariant
                i <= n == stmts@.len(),
                views == stmts@.map_values(|s: Stmt| view_stmt(s)),
                forall|k: int| 0 <= k < stmts@.len() ==> stmt_wf(view_stmt(#[trigger] stmts@[k])),
                exec_stmts(views) == exec_stmts(views.skip(i as int)),
            decreases n - i,
        {
            proof {
                assert(views.skip(i as int).drop_first() =~= views.skip(i + 1));
                assert(views.skip(i as int)[0] == view_stmt(stmts@[i as int]));
            }
            self.execute(&stmts[i])?;
            i = i + 1;
        }
        proof {
            assert(views.skip(n as int) =~= Seq::<StmtV>::empty());
        }
        Result::Ok(())
    }

    /// Executes one statement, as [`exec_stmt`] describes.
    fn execute(&self, stmt: &Stmt) -> (r: Result<(), LaxError>)
        requires
            stmt_wf(view_stmt(*stmt)),
        ensures
            match r {
                Result::Ok(_) => exec_stmt(view_stmt(*stmt)) == Result::<(), ErrV>::Ok(()),
                Result::Err(e) => exec_stmt(view_stmt(*stmt)) == Result::<(), ErrV>::Err(e@),
            },
    {
        match stmt {
            Stmt::Expression(v) => self.visit_expression_stmt(v),
            Stmt::Print(v) => self.visit_print_stmt(v),
        }
    }

    /// Evaluates an expression tree bottom-up, as [`eval_expr`] describes.
    pub fn evaluate(&self, expr: &Expr) -> (r: Result<Object, LaxError>)
        requires
            expr_wf(view_expr(*expr)),
        ensures
            match r {
                Result::Ok(v) => eval_expr(view_expr(*expr)) == Result::<ValueV, ErrV>::Ok(v@),
                Result::Err(e) => eval_expr(view_expr(*expr)) == Result::<ValueV, ErrV>::Err(e@),
            },
        decreases *expr, 1int,
    {
        match expr {
            Expr::Binary(v) => self.visit_binary_expr(v),
            Expr::Grouping(v) => self.visit_grouping_expr(v),
            Expr::Literal(v) => self.visit_literal_expr(v),
            Expr::Unary(v) => self.visit_unary_expr(v),
        }
    }

    /// The truthiness rule of [`truthy`]: nil is false, a boolean is
    /// itself, a string is true exactly when empty, a number is true.
    fn is_truthy(&self, object: &Object) -> (r: bool)
        ensures
            r == truthy(object@),
    {
        match object {
            Object::Nil => false,
            Object::Bool(b) => *b,
            Object::Str(s) => s.as_str().is_empty(),
            _ => true,
        }
    }

    /// The diagnostic for a binary operator on operand types outside its
    /// table, as [`invalid_operands_msg`] spells it.
    fn invalid_operands(line: usize, op: &str, l: &Object, r: &Object) -> (res: LaxError)
        ensures
            res@ == plain_error(line as int, invalid_operands_msg(op@, l@, r@)),
    {
        let mut m = String::from_str("Invalid operands for ");
        m.append(op);
        m.append(": ");
        m.append(l.to_display_string().as_str());
        m.append(" and ");
        m.append(r.to_display_string().as_str());
        LaxError::error(line, m)
    }

    fn visit_binary_expr(&self, expr: &BinaryExpr) -> (r: Result<Object, LaxError>)
        requires
            expr_wf(view_expr(Expr::Binary(*expr))),
        ensures
            match r {
                Result::Ok(v) => eval_expr(view_expr(Expr::Binary(*expr))) == Result::<
                    ValueV,
                    ErrV,
                >::Ok(v@),
                Result::Err(e) => eval_expr(view_expr(Expr::Binary(*expr))) == Result::<
                    ValueV,
                    ErrV,
                >::Err(e@),
            },
        decreases *expr, 0int,
    {
        let left = self.evaluate(&expr.left)?;
        let right = self.evaluate(&expr.right)?;
        let line = expr.operator.line;

        match expr.operator.t_type {
            TokenType::Minus => match (&left, &right) {
                (Object::Num(a), Object::Num(b)) => Result::Ok(Object::Num(num_sub(*a, *b))),
                _ => Result::Err(Self::invalid_operands(line, "-", &left, &right)),
            },
            TokenType::Slash => match (&left, &right) {
                (Object::Num(a), Object::Num(b)) => Result::Ok(Object::Num(num_div(*a, *b))),
                _ => Result::Err(Self::invalid_operands(line, "/", &left, &right)),
            },
            TokenType::Star => match (&left, &right) {
                (Object::Num(a), Object::Num(b)) => Result::Ok(Object::Num(num_mul(*a, *b))),
                _ => Result::Err(Self::invalid_operands(line, "*", &left, &right)),
            },
            TokenType::Plus => match (left, right) {
                (Object::Num(a), Object::Num(b)) => Result::Ok(Object::Num(num_add(a, b))),
                (Object::Str(a), Object::Str(b)) => Result::Ok(Object::Str(a.concat(b.as_str()))),
                (l, r) => Result::Err(Self::invalid_operands(line, "+", &l, &r)),
            },
            TokenType::Greater => match (&left, &right) {
                (Object::Num(a), Object::Num(b)) => Result::Ok(Object::Bool(num_gt(*a, *b))),
                _ => Result::Err(Self::invalid_operands(line, ">", &left, &right)),
            },
            TokenType::GreaterEqual => match (&left, &right) {
                (Object::Num(a), Object::Num(b)) => Result::Ok(Object::Bool(num_ge(*a, *b))),
                _ => Result::Err(Self::invalid_operands(line, ">=", &left, &right)),
            },
            TokenType::Less => match (&left, &right) {
                (Object::Num(a), Object::Num(b)) => Result::Ok(Object::Bool(num_lt(*a, *b))),
                _ => Result::Err(Self::invalid_operands(line, "<", &left, &right)),
            },
            TokenType::LessEqual => match (&left, &right) {
                (Object::Num(a), Object::Num(b)) => Result::Ok(Object::Bool(num_le(*a, *b))),
                _ => Result::Err(Self::invalid_operands(line, "<=", &left, &right)),
            },
            TokenType::BangEqual => match (&left, &right) {
                (Object::Num(a), Object::Num(b)) => Result::Ok(Object::Bool(!num_eq(*a, *b))),
                (Object::Str(a), Object::Str(b)) => Result::Ok(Object::Bool(!(*a == *b))),
                (Object::Bool(a), Object::Bool(b)) => Result::Ok(Object::Bool(*a != *b)),
                _ => Result::Err(Self::invalid_operands(line, "!=", &left, &right)),
            },
            TokenType::EqualEqual => match (&left, &right) {
                (Object::Num(a), Object::Num(b)) => Result::Ok(Object::Bool(num_eq(*a, *b))),
                (Object::Str(a), Object::Str(b)) => Result::Ok(Object::Bool(*a == *b)),
                (Object::Bool(a), Object::Bool(b)) => Result::Ok(Object::Bool(*a == *b)),
                _ => Result::Err(Self::invalid_operands(line, "==", &left, &right)),
            },
            TokenType::In => match (&left, &right) {
                (Object::Str(a), Object::Str(b)) => Result::Ok(Object::Bool(string_contains(b, a))),
                _ => Result::Err(Self::invalid_operands(line, "in", &left, &right)),
            },
            TokenType::BangIn => match (&left, &right) {
                (Object::Str(a), Object::Str(b)) => Result::Ok(
                    Object::Bool(!string_contains(b, a)),
                ),
                _ => Result::Err(Self::invalid_operands(line, "!in", &left, &right)),
            },
            _ => {
                let mut m = String::from_str("Invalid operator: ");
                m.append(token_kind_name(expr.operator.t_type));
                Result::Err(LaxError::error(line, m))
            },
        }
    }

    fn visit_grouping_expr(&self, expr: &GroupingExpr) -> (r: Result<Object, LaxError>)
        requires
            expr_wf(view_expr(Expr::Grouping(*expr))),
        ensures
            match r {
                Result::Ok(v) => eval_expr(view_expr(Expr::Grouping(*expr))) == Result::<
                    ValueV,
                    ErrV,
                >::Ok(v@),
                Result::Err(e) => eval_expr(view_expr(Expr::Grouping(*expr))) == Result::<
                    ValueV,
                    ErrV,
                >::Err(e@),
            },
        decreases *expr, 0int,
    {
        self.evaluate(&expr.expression)
    }

    fn visit_literal_expr(&self, expr: &LiteralExpr) -> (r: Result<Object, LaxError>)
        requires
            expr_wf(view_expr(Expr::Literal(*expr))),
        ensures
            match r {
                Result::Ok(v) => eval_expr(view_expr(Expr::Literal(*expr))) == Result::<
                    ValueV,
                    ErrV,
                >::Ok(v@),
                Result::Err(e) => eval_expr(view_expr(Expr::Literal(*expr))) == Result::<
                    ValueV,
                    ErrV,
                >::Err(e@),
            },
    {
        match &expr.value {
            Option::Some(v) => Result::Ok(v.clone()),
            Option::None => unreached(),
        }
    }

    fn visit_unary_expr(&self, expr: &UnaryExpr) -> (r: Result<Object, LaxError>)
        requires
            expr_wf(view_expr(Expr::Unary(*expr))),
        ensures
            match r {
                Result::Ok(v) => eval_expr(view_expr(Expr::Unary(*expr))) == Result::<
                    ValueV,
                    ErrV,
                >::Ok(v@),
                Result::Err(e) => eval_expr(view_expr(Expr::Unary(*expr))) == Result::<
                    ValueV,
                    ErrV,
                >::Err(e@),
            },
        decreases *expr, 0int,
    {
        let right = self.evaluate(&expr.right)?;
        let line = expr.operator.line;

        match expr.operator.t_type {
            TokenType::Minus => match right {
                Object::Num(a) => Result::Ok(Object::Num(num_neg(a))),
                _ => Result::Ok(Object::Nil),
            },
            TokenType::Bang => Result::Ok(Object::Bool(!self.is_truthy(&right))),
            TokenType::Not => Result::Ok(Object::Bool(!self.is_truthy(&right))),
            TokenType::Plus => match right {
                Object::Str(value) => match num_parse(value.as_str()) {
                    Option::Some(b) => Result::Ok(Object::Num(b)),
                    Option::None => {
                        let mut m = String::from_str("Could not parse ");
                        m.append(value.as_str());
                        m.append(" to a number");
                        Result::Err(LaxError::error(line, m))
                    },
                },
                other => {
                    let mut m = String::from_str("Invalid operands for +: ");
                    m.append(other.to_display_string().as_str());
                    m.append(" and ");
                    m.append(token_kind_name(expr.operator.t_type));
                    Result::Err(LaxError::error(line, m))
                },
            },
            _ => Result::Err(LaxError::error(0, String::from_str("Unreachable"))),
        }
    }

    fn visit_expression_stmt(&self, stmt: &ExpressionStmt) -> (r: Result<(), LaxError>)
        requires
            expr_wf(view_expr(stmt.expression)),
        ensures
            match r {
                Result::Ok(_) => exec_stmt(view_stmt(Stmt::Expression(*stmt))) == Result::<
                    (),
                    ErrV,
                >::Ok(()),
                Result::Err(e) => exec_stmt(view_stmt(Stmt::Expression(*stmt))) == Result::<
                    (),
                    ErrV,
                >::Err(e@),
            },
    {
        let _ = self.evaluate(&stmt.expression)?;
        Result::Ok(())
    }

    fn visit_print_stmt(&self, stmt: &PrintStmt) -> (r: Result<(), LaxError>)
        requires
            expr_wf(view_expr(stmt.expression)),
        ensures
            match r {
                Result::Ok(_) => exec_stmt(view_stmt(Stmt::Print(*stmt))) == Result::<(), ErrV>::Ok(
                    (),
                ),
                Result::Err(e) => exec_stmt(view_stmt(Stmt::Print(*stmt))) == Result::<
                    (),
                    ErrV,
                >::Err(e@),
            },
    {
        let value = self.evaluate(&stmt.expression)?;
        print_line(value.to_display_string().as_str());
        Result::Ok(())
    }
}

} // verus!
