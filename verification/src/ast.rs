use vstd::prelude::*;

use crate::token::Token;
use crate::token::TokenType;
use crate::token::TokenV;
use crate::token::ValueV;

verus! {

// ---------------------------------------------------------------------
// The expression and statement trees, each a closed set of variants,
// with their mathematical models.  Algorithms over the trees (the
// evaluator, the printer) match on the variants exhaustively.
// ---------------------------------------------------------------------
/// An expression node.  Children are owned by their parent: the tree is
/// finite and acyclic by construction.
#[derive(Debug)]
pub enum Expr {
    Binary(BinaryExpr),
    Grouping(GroupingExpr),
    Literal(LiteralExpr),
    Unary(UnaryExpr),
}

/// Two operands around an infix operator token.
#[derive(Debug)]
pub struct BinaryExpr {
    pub left: Box<Expr>,
    pub operator: Token,
    pub right: Box<Expr>,
}

/// A parenthesized sub-expression.
#[derive(Debug)]
pub struct GroupingExpr {
    pub expression: Box<Expr>,
}

/// A literal value.  The wrapper exists for construction ergonomics; a
/// parse never leaves it empty.
#[derive(Debug)]
pub struct LiteralExpr {
    pub value: Option<crate::token::Object>,
}

/// A prefix operator token and its operand.
#[derive(Debug)]
pub struct UnaryExpr {
    pub operator: Token,
    pub right: Box<Expr>,
}

/// The mathematical model of an [`Expr`].
pub enum ExprV {
    Binary { operator: TokenV, left: Box<ExprV>, right: Box<ExprV> },
    Grouping { expression: Box<ExprV> },
    Literal { value: Option<ValueV> },
    Unary { operator: TokenV, right: Box<ExprV> },
}

/// The model of an expression tree.
pub open spec fn view_expr(e: Expr) -> ExprV
    decreases e,
{
    match e {
        Expr::Binary(b) => ExprV::Binary {
            operator: b.operator@,
            left: Box::new(view_expr(*b.left)),
            right: Box::new(view_expr(*b.right)),
        },
        Expr::Grouping(g) => ExprV::Grouping { expression: Box::new(view_expr(*g.expression)) },
        Expr::Literal(l) => ExprV::Literal {
            value: match l.value {
                Option::Some(o) => Option::Some(o@),
                Option::None => Option::None,
            },
        },
        Expr::Unary(u) => ExprV::Unary {
            operator: u.operator@,
            right: Box::new(view_expr(*u.right)),
        },
    }
}

/// Well-formedness of a parsed expression: every literal node carries a
/// value.  A successful parse establishes this; the evaluator requires
/// it.
pub open spec fn expr_wf(e: ExprV) -> bool
    decreases e,
{
    match e {
        ExprV::Binary { operator, left, right } => expr_wf(*left) && expr_wf(*right),
        ExprV::Grouping { expression } => expr_wf(*expression),
        ExprV::Literal { value } => value is Some,
        ExprV::Unary { operator, right } => expr_wf(*right),
    }
}


/// The operator kinds the grammar can put at a binary node: the
/// equality, comparison, additive and multiplicative tiers together.
pub open spec fn is_binary_op_kind(t: TokenType) -> bool {
    ||| t == TokenType::BangEqual
    ||| t == TokenType::Greater
    ||| t == TokenType::GreaterEqual
    ||| t == TokenType::Less
    ||| t == TokenType::LessEqual
    ||| t == TokenType::EqualEqual
    ||| t == TokenType::In
    ||| t == TokenType::BangIn
    ||| t == TokenType::Minus
    ||| t == TokenType::Plus
    ||| t == TokenType::Star
    ||| t == TokenType::Slash
}

/// The operator kinds the grammar can put at a unary node.
pub open spec fn is_unary_op_kind(t: TokenType) -> bool {
    ||| t == TokenType::Bang
    ||| t == TokenType::Minus
    ||| t == TokenType::Not
    ||| t == TokenType::Plus
}

/// Operator well-formedness of a parsed tree: every binary or unary
/// node's operator token kind is one the grammar recognizes there.  A
/// successful parse establishes this.
pub open spec fn op_wf(e: ExprV) -> bool
    decreases e,
{
    match e {
        ExprV::Binary { operator, left, right } => is_binary_op_kind(operator.t_type) && op_wf(
            *left,
        ) && op_wf(*right),
        ExprV::Grouping { expression } => op_wf(*expression),
        ExprV::Literal { value: _ } => true,
        ExprV::Unary { operator, right } => is_unary_op_kind(operator.t_type) && op_wf(*right),
    }
}

/// Operator well-formedness of a parsed statement.
pub open spec fn stmt_op_wf(s: StmtV) -> bool {
    match s {
        StmtV::Expression { expression } => op_wf(expression),
        StmtV::Print { expression } => op_wf(expression),
    }
}

/// A statement node.
#[derive(Debug)]
pub enum Stmt {
    Expression(ExpressionStmt),
    Print(PrintStmt),
}

/// An expression evaluated for its effects, its value discarded.
#[derive(Debug)]
pub struct ExpressionStmt {
    pub expression: Expr,
}

/// An expression whose value is printed.
#[derive(Debug)]
pub struct PrintStmt {
    pub expression: Expr,
}

/// The mathematical model of a [`Stmt`].
pub enum StmtV {
    Expression { expression: ExprV },
    Print { expression: ExprV },
}

/// The model of a statement.
pub open spec fn view_stmt(s: Stmt) -> StmtV {
    match s {
        Stmt::Expression(e) => StmtV::Expression { expression: view_expr(e.expression) },
        Stmt::Print(p) => StmtV::Print { expression: view_expr(p.expression) },
    }
}

/// Well-formedness of a parsed statement.
pub open spec fn stmt_wf(s: StmtV) -> bool {
    match s {
        StmtV::Expression { expression } => expr_wf(expression),
        StmtV::Print { expression } => expr_wf(expression),
    }
}

} // verus!
