use vstd::prelude::*;

use crate::ast::view_expr;
use crate::ast::BinaryExpr;
use crate::ast::Expr;
use crate::ast::ExprV;
use crate::ast::GroupingExpr;
use crate::ast::LiteralExpr;
use crate::ast::UnaryExpr;
use crate::error::LaxError;
use crate::token::value_display;

verus! {

// ---------------------------------------------------------------------
// The printing model: the canonical fully parenthesized prefix form,
// `(operator operand ...)`, with `nil` for an empty literal.
// ---------------------------------------------------------------------
/// Each part, prefixed by one space, in order.
pub open spec fn spaced(parts: Seq<Seq<char>>) -> Seq<char>
    decreases parts.len(),
{
    if parts.len() == 0 {
        Seq::empty()
    } else {
        spaced(parts.drop_last()) + " "@ + parts.last()
    }
}

/// A parenthesized prefix group: the name, then each part after one
/// space.
pub open spec fn paren(name: Seq<char>, parts: Seq<Seq<char>>) -> Seq<char> {
    "("@ + name + spaced(parts) + ")"@
}

/// The canonical textual form of an expression tree: operators prefix
/// their operands, a grouping prints under the name `group`, a literal
/// prints its value (or `nil` when it carries none).
pub open spec fn print_expr(e: ExprV) -> Seq<char>
    decreases e,
{
    match e {
        ExprV::Binary { operator, left, right } => paren(
            operator.lexeme,
            seq![print_expr(*left), print_expr(*right)],
        ),
        ExprV::Grouping { expression } => paren("group"@, seq![print_expr(*expression)]),
        ExprV::Literal { value } => match value {
            Option::Some(v) => value_display(v),
            Option::None => "nil"@,
        },
        ExprV::Unary { operator, right } => paren(operator.lexeme, seq![print_expr(*right)]),
    }
}

// ---------------------------------------------------------------------
// The executable printer.
// ---------------------------------------------------------------------
/// Renders expression trees in the canonical parenthesized prefix form
/// that [`print_expr`] describes; deterministic and side-effect-free.
pub struct AstPrinter;

impl AstPrinter {
    pub fn new() -> (r: Self) {
        Self {  }
    }

    /// The canonical textual form of the given expression; never fails.
    pub fn print(&self, expr: &Expr) -> (r: Result<String, LaxError>)
        ensures
            r matches Result::Ok(s) && s@ == print_expr(view_expr(*expr)),
    {
        Result::Ok(self.render(expr))
    }

    /// Dispatches one node to the handler for its variant.
    fn render(&self, expr: &Expr) -> (r: String)
        ensures
            r@ == print_expr(view_expr(*expr)),
        decreases *expr, 1int,
    {
        match expr {
            Expr::Binary(v) => self.visit_binary_expr(v),
            Expr::Grouping(v) => self.visit_grouping_expr(v),
            Expr::Literal(v) => self.visit_literal_expr(v),
            Expr::Unary(v) => self.visit_unary_expr(v),
        }
    }

    /// Joins already-rendered parts into a parenthesized prefix group.
    fn parenthesize(&self, name: &str, parts: &[&String]) -> (r: String)
        ensures
            r@ == paren(name@, parts@.map_values(|p: &String| p@)),
    {
        let ghost views = parts@.map_values(|p: &String| p@);
        let mut builder = String::from_str("(");
        builder.append(name);
        let n = parts.len();
        let mut i: usize = 0;
        while i < n
            invariant
                i <= n == parts@.len(),
                views == parts@.map_values(|p: &String| p@),
                builder@ == "("@ + name@ + spaced(views.take(i as int)),
            decreases n - i,
        {
            builder.append(" ");
            builder.append(parts[i].as_str());
            i = i + 1;
            proof {
                assert(views.take(i as int).drop_last() =~= views.take(i - 1));
                assert(views.take(i as int).last() == views[i - 1]);
            }
        }
        proof {
            assert(views.take(n as int) =~= views);
        }
        builder.append(")");
        builder
    }

    fn visit_binary_expr(&self, expr: &BinaryExpr) -> (r: String)
        ensures
            r@ == print_expr(view_expr(Expr::Binary(*expr))),
        decreases *expr, 0int,
    {
        let left = self.render(&expr.left);
        let right = self.render(&expr.right);
        let arr: [&String; 2] = [&left, &right];
        let out = self.parenthesize(expr.operator.lexeme.as_str(), arr.as_slice());
        proof {
            assert(arr@.map_values(|p: &String| p@) =~= seq![left@, right@]);
        }
        out
    }

    fn visit_grouping_expr(&self, expr: &GroupingExpr) -> (r: String)
        ensures
            r@ == print_expr(view_expr(Expr::Grouping(*expr))),
        decreases *expr, 0int,
    {
        let inner = self.render(&expr.expression);
        let arr: [&String; 1] = [&inner];
        let out = self.parenthesize("group", arr.as_slice());
        proof {
            assert(arr@.map_values(|p: &String| p@) =~= seq![inner@]);
        }
        out
    }

    fn visit_literal_expr(&self, expr: &LiteralExpr) -> (r: String)
        ensures
            r@ == print_expr(view_expr(Expr::Literal(*expr))),
    {
        match &expr.value {
            Option::Some(value) => value.to_display_string(),
            Option::None => String::from_str("nil"),
        }
    }

    fn visit_unary_expr(&self, expr: &UnaryExpr) -> (r: String)
        ensures
            r@ == print_expr(view_expr(Expr::Unary(*expr))),
        decreases *expr, 0int,
    {
        let right = self.render(&expr.right);
        let arr: [&String; 1] = [&right];
        let out = self.parenthesize(expr.operator.lexeme.as_str(), arr.as_slice());
        proof {
            assert(arr@.map_values(|p: &String| p@) =~= seq![right@]);
        }
        out
    }
}

} // verus!
