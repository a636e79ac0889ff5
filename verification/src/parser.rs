use vstd::prelude::*;

use crate::ast::expr_wf;
use crate::ast::op_wf;
use crate::ast::stmt_op_wf;
use crate::ast::stmt_wf;
use crate::ast::view_expr;
use crate::ast::view_stmt;
use crate::ast::BinaryExpr;
use crate::ast::Expr;
use crate::ast::ExprV;
use crate::ast::ExpressionStmt;
use crate::ast::GroupingExpr;
use crate::ast::LiteralExpr;
use crate::ast::PrintStmt;
use crate::ast::Stmt;
use crate::ast::StmtV;
use crate::ast::UnaryExpr;
use crate::error::plain_error;
use crate::error::token_error;
use crate::error::ErrV;
use crate::error::LaxError;
use crate::scanner::lit_wf;
use crate::token::Object;
use crate::token::Token;
use crate::token::TokenType;
use crate::token::TokenV;
use crate::token::ValueV;

verus! {

// ---------------------------------------------------------------------
// The parsing model: recursive descent over the token sequence, with a
// fixed precedence ladder, lowest to highest binding:
// equality -> comparison -> term -> factor -> unary -> primary.
// Each level left-associates repeated operators of its tier.
// ---------------------------------------------------------------------
/// A token sequence as the scanner hands it over: non-empty, terminated
/// by exactly one end-of-input marker.
pub open spec fn tokens_wf(toks: Seq<TokenV>) -> bool {
    &&& toks.len() >= 1
    &&& toks[toks.len() - 1].t_type == TokenType::EOF
    &&& forall|k: int| 0 <= k < toks.len() - 1 ==> (#[trigger] toks[k].t_type) != TokenType::EOF
}

/// Every token of a sequence carries its literal payload.
pub open spec fn toks_lit_wf(toks: Seq<TokenV>) -> bool {
    forall|k: int| 0 <= k < toks.len() ==> lit_wf(#[trigger] toks[k])
}

/// The error a parse position outside the token sequence would give.
/// No well-formed parse reaches it: the end-of-input marker stops the
/// cursor first.
pub open spec fn oob_error() -> ErrV {
    plain_error(0, Seq::empty())
}

/// What parsing one production yields: the tree and the position after
/// it, or the first error.
pub type ParseR = Result<(ExprV, int), ErrV>;

/// A primary production: a keyword literal, a number or string literal
/// (its payload carried straight from the token), or a parenthesized
/// sub-expression that must be closed; anything else is the
/// expected-expression error at the current token's line.
pub open spec fn p_primary(toks: Seq<TokenV>, i: int) -> ParseR
    decreases toks.len() - i, 0int,
{
    if !(0 <= i < toks.len()) {
        Result::Err(oob_error())
    } else {
        let t = toks[i];
        if t.t_type == TokenType::True {
            Result::Ok((ExprV::Literal { value: Option::Some(ValueV::Bool(true)) }, i + 1))
        } else if t.t_type == TokenType::False {
            Result::Ok((ExprV::Literal { value: Option::Some(ValueV::Bool(false)) }, i + 1))
        } else if t.t_type == TokenType::Nil {
            Result::Ok((ExprV::Literal { value: Option::Some(ValueV::Nil) }, i + 1))
        } else if t.t_type == TokenType::Number || t.t_type == TokenType::String {
            Result::Ok((ExprV::Literal { value: t.literal }, i + 1))
        } else if t.t_type == TokenType::LeftParen {
            match p_expression(toks, i + 1) {
                Result::Ok((e, j)) => {
                    if 0 <= j < toks.len() && toks[j].t_type == TokenType::RightParent {
                        Result::Ok((ExprV::Grouping { expression: Box::new(e) }, j + 1))
                    } else if 0 <= j < toks.len() {
                        Result::Err(token_error(toks[j], "Expect ')' after expression."@))
                    } else {
                        Result::Err(oob_error())
                    }
                },
                Result::Err(e) => Result::Err(e),
            }
        } else {
            Result::Err(plain_error(t.line, "Expected expression"@))
        }
    }
}

/// A unary production: a prefix operator (`!`, `-`, the logical-not
/// keyword, or `+`) applied to a unary production, or a primary.
pub open spec fn p_unary(toks: Seq<TokenV>, i: int) -> ParseR
    decreases toks.len() - i, 1int,
{
    if !(0 <= i < toks.len()) {
        Result::Err(oob_error())
    } else {
        let t = toks[i];
        if t.t_type != TokenType::EOF && (t.t_type == TokenType::Bang || t.t_type
            == TokenType::Minus || t.t_type == TokenType::Not || t.t_type == TokenType::Plus) {
            match p_unary(toks, i + 1) {
                Result::Ok((r, j)) => Result::Ok(
                    (ExprV::Unary { operator: t, right: Box::new(r) }, j),
                ),
                Result::Err(e) => Result::Err(e),
            }
        } else {
            p_primary(toks, i)
        }
    }
}

/// Left-folds further `*` and `/` operands onto `left`.
pub open spec fn p_factor_rest(toks: Seq<TokenV>, i: int, left: ExprV) -> ParseR
    decreases toks.len() - i, 2int,
{
    if 0 <= i < toks.len() && toks[i].t_type != TokenType::EOF && (toks[i].t_type
        == TokenType::Star || toks[i].t_type == TokenType::Slash) {
        match p_unary(toks, i + 1) {
            Result::Ok((r, j)) => {
                let folded = ExprV::Binary {
                    operator: toks[i],
                    left: Box::new(left),
                    right: Box::new(r),
                };
                if i < j <= toks.len() {
                    p_factor_rest(toks, j, folded)
                } else {
                    Result::Ok((folded, j))
                }
            },
            Result::Err(e) => Result::Err(e),
        }
    } else {
        Result::Ok((left, i))
    }
}

/// A factor production: unary productions joined by `*` and `/`,
/// left-associated.
pub open spec fn p_factor(toks: Seq<TokenV>, i: int) -> ParseR
    decreases toks.len() - i, 3int,
{
    match p_unary(toks, i) {
        Result::Ok((e, j)) => {
            if i < j <= toks.len() {
                p_factor_rest(toks, j, e)
            } else {
                Result::Ok((e, j))
            }
        },
        Result::Err(e) => Result::Err(e),
    }
}

/// Left-folds further `-` and `+` operands onto `left`.
pub open spec fn p_term_rest(toks: Seq<TokenV>, i: int, left: ExprV) -> ParseR
    decreases toks.len() - i, 4int,
{
    if 0 <= i < toks.len() && toks[i].t_type != TokenType::EOF && (toks[i].t_type
        == TokenType::Minus || toks[i].t_type == TokenType::Plus) {
        match p_factor(toks, i + 1) {
            Result::Ok((r, j)) => {
                let folded = ExprV::Binary {
                    operator: toks[i],
                    left: Box::new(left),
                    right: Box::new(r),
                };
                if i < j <= toks.len() {
                    p_term_rest(toks, j, folded)
                } else {
                    Result::Ok((folded, j))
                }
            },
            Result::Err(e) => Result::Err(e),
        }
    } else {
        Result::Ok((left, i))
    }
}

/// A term production: factors joined by `-` and `+`, left-associated.
pub open spec fn p_term(toks: Seq<TokenV>, i: int) -> ParseR
    decreases toks.len() - i, 5int,
{
    match p_factor(toks, i) {
        Result::Ok((e, j)) => {
            if i < j <= toks.len() {
                p_term_rest(toks, j, e)
            } else {
                Result::Ok((e, j))
            }
        },
        Result::Err(e) => Result::Err(e),
    }
}

/// Whether a token kind sits in the comparison tier: the relational
/// operators and the two membership tests.
pub open spec fn is_comparison_op(t: TokenType) -> bool {
    t == TokenType::Greater || t == TokenType::GreaterEqual || t == TokenType::Less || t
        == TokenType::LessEqual || t == TokenType::In || t == TokenType::BangIn
}

/// Left-folds further comparison operands onto `left`.
pub open spec fn p_comparison_rest(toks: Seq<TokenV>, i: int, left: ExprV) -> ParseR
    decreases toks.len() - i, 6int,
{
    if 0 <= i < toks.len() && toks[i].t_type != TokenType::EOF && is_comparison_op(toks[i].t_type) {
        match p_term(toks, i + 1) {
            Result::Ok((r, j)) => {
                let folded = ExprV::Binary {
                    operator: toks[i],
                    left: Box::new(left),
                    right: Box::new(r),
                };
                if i < j <= toks.len() {
                    p_comparison_rest(toks, j, folded)
                } else {
                    Result::Ok((folded, j))
                }
            },
            Result::Err(e) => Result::Err(e),
        }
    } else {
        Result::Ok((left, i))
    }
}

/// A comparison production: terms joined by the comparison tier,
/// left-associated.
pub open spec fn p_comparison(toks: Seq<TokenV>, i: int) -> ParseR
    decreases toks.len() - i, 7int,
{
    match p_term(toks, i) {
        Result::Ok((e, j)) => {
            if i < j <= toks.len() {
                p_comparison_rest(toks, j, e)
            } else {
                Result::Ok((e, j))
            }
        },
        Result::Err(e) => Result::Err(e),
    }
}

/// Whether a token kind sits in the equality tier: `==` and `!=`.
pub open spec fn is_equality_op(t: TokenType) -> bool {
    t == TokenType::EqualEqual || t == TokenType::BangEqual
}

/// Left-folds further equality operands onto `left`.
pub open spec fn p_equality_rest(toks: Seq<TokenV>, i: int, left: ExprV) -> ParseR
    decreases toks.len() - i, 8int,
{
    if 0 <= i < toks.len() && toks[i].t_type != TokenType::EOF && is_equality_op(toks[i].t_type) {
        match p_comparison(toks, i + 1) {
            Result::Ok((r, j)) => {
                let folded = ExprV::Binary {
                    operator: toks[i],
                    left: Box::new(left),
                    right: Box::new(r),
                };
                if i < j <= toks.len() {
                    p_equality_rest(toks, j, folded)
                } else {
                    Result::Ok((folded, j))
                }
            },
            Result::Err(e) => Result::Err(e),
        }
    } else {
        Result::Ok((left, i))
    }
}

/// An equality production: comparisons joined by the equality tier,
/// left-associated.
pub open spec fn p_equality(toks: Seq<TokenV>, i: int) -> ParseR
    decreases toks.len() - i, 9int,
{
    match p_comparison(toks, i) {
        Result::Ok((e, j)) => {
            if i < j <= toks.len() {
                p_equality_rest(toks, j, e)
            } else {
                Result::Ok((e, j))
            }
        },
        Result::Err(e) => Result::Err(e),
    }
}

/// A full expression: the lowest tier of the ladder.
pub open spec fn p_expression(toks: Seq<TokenV>, i: int) -> ParseR
    decreases toks.len() - i, 10int,
{
    p_equality(toks, i)
}

/// What parsing one statement yields.
pub type StmtR = Result<(StmtV, int), ErrV>;

/// The rest of a print statement, after the `print` keyword: an
/// expression and its terminating semicolon.
pub open spec fn p_print_statement(toks: Seq<TokenV>, i: int) -> StmtR
    decreases toks.len() - i, 11int,
{
    match p_expression(toks, i) {
        Result::Ok((e, j)) => {
            if 0 <= j < toks.len() && toks[j].t_type == TokenType::Semicolon {
                Result::Ok((StmtV::Print { expression: e }, j + 1))
            } else if 0 <= j < toks.len() {
                Result::Err(token_error(toks[j], "Expect ';' after expression."@))
            } else {
                Result::Err(oob_error())
            }
        },
        Result::Err(e) => Result::Err(e),
    }
}

/// An expression statement: an expression and its terminating semicolon.
pub open spec fn p_expr_statement(toks: Seq<TokenV>, i: int) -> StmtR
    decreases toks.len() - i, 11int,
{
    match p_expression(toks, i) {
        Result::Ok((e, j)) => {
            if 0 <= j < toks.len() && toks[j].t_type == TokenType::Semicolon {
                Result::Ok((StmtV::Expression { expression: e }, j + 1))
            } else if 0 <= j < toks.len() {
                Result::Err(token_error(toks[j], "Expect ';' after expression."@))
            } else {
                Result::Err(oob_error())
            }
        },
        Result::Err(e) => Result::Err(e),
    }
}

/// One statement: a print statement after a leading `print` keyword,
/// otherwise an expression statement.
pub open spec fn p_statement(toks: Seq<TokenV>, i: int) -> StmtR
    decreases toks.len() - i, 12int,
{
    if 0 <= i < toks.len() && toks[i].t_type == TokenType::Print {
        p_print_statement(toks, i + 1)
    } else {
        p_expr_statement(toks, i)
    }
}

/// What parsing a statement sequence yields.
pub type ProgramR = Result<(Seq<StmtV>, int), ErrV>;

/// Prefixes already-parsed statements onto the rest of a statement
/// parse.
pub open spec fn prog_prepend(pre: Seq<StmtV>, r: ProgramR) -> ProgramR {
    match r {
        Result::Ok((ss, k)) => Result::Ok((pre + ss, k)),
        Result::Err(e) => Result::Err(e),
    }
}

/// The statement sequence from position `i` to the end-of-input marker,
/// failing fast at the first syntax error.
pub open spec fn p_program(toks: Seq<TokenV>, i: int) -> ProgramR
    decreases toks.len() - i, 13int,
{
    if 0 <= i < toks.len() && toks[i].t_type != TokenType::EOF {
        match p_statement(toks, i) {
            Result::Ok((s, j)) => {
                if i < j <= toks.len() {
                    match p_program(toks, j) {
                        Result::Ok((ss, k)) => Result::Ok((seq![s] + ss, k)),
                        Result::Err(e) => Result::Err(e),
                    }
                } else {
                    Result::Ok((seq![s], j))
                }
            },
            Result::Err(e) => Result::Err(e),
        }
    } else {
        Result::Ok((Seq::empty(), i))
    }
}


/// Precedence: over any three number tokens, a sum whose right operand
/// is a product parses with the product bound tighter, as
/// `operand + (operand * operand)`.
pub proof fn lemma_precedence(a: TokenV, plus: TokenV, b: TokenV, star: TokenV, c: TokenV, eof: TokenV)
    requires
        a.t_type == TokenType::Number,
        plus.t_type == TokenType::Plus,
        b.t_type == TokenType::Number,
        star.t_type == TokenType::Star,
        c.t_type == TokenType::Number,
        eof.t_type == TokenType::EOF,
    ensures
        p_expression(seq![a, plus, b, star, c, eof], 0) == ParseR::Ok(
            (
                ExprV::Binary {
                    operator: plus,
                    left: Box::new(ExprV::Literal { value: a.literal }),
                    right: Box::new(
                        ExprV::Binary {
                            operator: star,
                            left: Box::new(ExprV::Literal { value: b.literal }),
                            right: Box::new(ExprV::Literal { value: c.literal }),
                        },
                    ),
                },
                5int,
            ),
        ),
{
    let toks = seq![a, plus, b, star, c, eof];
    let lit_a = ExprV::Literal { value: a.literal };
    let lit_b = ExprV::Literal { value: b.literal };
    let lit_c = ExprV::Literal { value: c.literal };
    let prod = ExprV::Binary {
        operator: star,
        left: Box::new(lit_b),
        right: Box::new(lit_c),
    };
    let sum = ExprV::Binary { operator: plus, left: Box::new(lit_a), right: Box::new(prod) };
    assert(p_unary(toks, 0) == ParseR::Ok((lit_a, 1int)));
    assert(p_factor_rest(toks, 1, lit_a) == ParseR::Ok((lit_a, 1int)));
    assert(p_factor(toks, 0) == ParseR::Ok((lit_a, 1int)));
    assert(p_unary(toks, 2) == ParseR::Ok((lit_b, 3int)));
    assert(p_unary(toks, 4) == ParseR::Ok((lit_c, 5int)));
    assert(p_factor_rest(toks, 5, prod) == ParseR::Ok((prod, 5int)));
    assert(p_factor_rest(toks, 3, lit_b) == ParseR::Ok((prod, 5int)));
    assert(p_factor(toks, 2) == ParseR::Ok((prod, 5int)));
    assert(p_term_rest(toks, 5, sum) == ParseR::Ok((sum, 5int)));
    assert(p_term_rest(toks, 1, lit_a) == ParseR::Ok((sum, 5int)));
    assert(p_term(toks, 0) == ParseR::Ok((sum, 5int)));
    assert(p_comparison_rest(toks, 5, sum) == ParseR::Ok((sum, 5int)));
    assert(p_comparison(toks, 0) == ParseR::Ok((sum, 5int)));
    assert(p_equality_rest(toks, 5, sum) == ParseR::Ok((sum, 5int)));
    assert(p_equality(toks, 0) == ParseR::Ok((sum, 5int)));
}

/// Left-associativity: over any three number tokens, repeated operators
/// of one additive tier parse left-grouped, as
/// `(operand - operand) - operand`, never right-grouped.
pub proof fn lemma_left_associativity(
    a: TokenV,
    minus1: TokenV,
    b: TokenV,
    minus2: TokenV,
    c: TokenV,
    eof: TokenV,
)
    requires
        a.t_type == TokenType::Number,
        minus1.t_type == TokenType::Minus,
        b.t_type == TokenType::Number,
        minus2.t_type == TokenType::Minus,
        c.t_type == TokenType::Number,
        eof.t_type == TokenType::EOF,
    ensures
        p_expression(seq![a, minus1, b, minus2, c, eof], 0) == ParseR::Ok(
            (
                ExprV::Binary {
                    operator: minus2,
                    left: Box::new(
                        ExprV::Binary {
                            operator: minus1,
                            left: Box::new(ExprV::Literal { value: a.literal }),
                            right: Box::new(ExprV::Literal { value: b.literal }),
                        },
                    ),
                    right: Box::new(ExprV::Literal { value: c.literal }),
                },
                5int,
            ),
        ),
{
    let toks = seq![a, minus1, b, minus2, c, eof];
    let lit_a = ExprV::Literal { value: a.literal };
    let lit_b = ExprV::Literal { value: b.literal };
    let lit_c = ExprV::Literal { value: c.literal };
    let first = ExprV::Binary {
        operator: minus1,
        left: Box::new(lit_a),
        right: Box::new(lit_b),
    };
    let both = ExprV::Binary { operator: minus2, left: Box::new(first), right: Box::new(lit_c) };
    assert(p_unary(toks, 0) == ParseR::Ok((lit_a, 1int)));
    assert(p_factor_rest(toks, 1, lit_a) == ParseR::Ok((lit_a, 1int)));
    assert(p_factor(toks, 0) == ParseR::Ok((lit_a, 1int)));
    assert(p_unary(toks, 2) == ParseR::Ok((lit_b, 3int)));
    assert(p_factor_rest(toks, 3, lit_b) == ParseR::Ok((lit_b, 3int)));
    assert(p_factor(toks, 2) == ParseR::Ok((lit_b, 3int)));
    assert(p_unary(toks, 4) == ParseR::Ok((lit_c, 5int)));
    assert(p_factor_rest(toks, 5, lit_c) == ParseR::Ok((lit_c, 5int)));
    assert(p_factor(toks, 4) == ParseR::Ok((lit_c, 5int)));
    assert(p_term_rest(toks, 5, both) == ParseR::Ok((both, 5int)));
    assert(p_term_rest(toks, 3, first) == ParseR::Ok((both, 5int)));
    assert(p_term_rest(toks, 1, lit_a) == ParseR::Ok((both, 5int)));
    assert(p_term(toks, 0) == ParseR::Ok((both, 5int)));
    assert(p_comparison_rest(toks, 5, both) == ParseR::Ok((both, 5int)));
    assert(p_comparison(toks, 0) == ParseR::Ok((both, 5int)));
    assert(p_equality_rest(toks, 5, both) == ParseR::Ok((both, 5int)));
    assert(p_equality(toks, 0) == ParseR::Ok((both, 5int)));
}

// ---------------------------------------------------------------------
// The executable parser.
// ---------------------------------------------------------------------
/// The recursive-descent parser over a scanned token sequence.
pub struct Parser {
    pub tokens: Vec<Token>,
    pub current: usize,
}

impl Parser {
    /// The views of the tokens being parsed.
    pub open spec fn toks(&self) -> Seq<TokenV> {
        self.tokens@.map_values(|t: Token| t@)
    }

    /// The parser's internal consistency: a well-formed token sequence,
    /// with the cursor inside it (the end-of-input marker stops it).
    pub open spec fn wf(&self) -> bool {
        &&& tokens_wf(self.toks())
        &&& self.current < self.tokens@.len()
    }

    pub fn new(tokens: Vec<Token>) -> (r: Parser)
        requires
            tokens_wf(tokens@.map_values(|t: Token| t@)),
        ensures
            r.wf(),
            r.tokens == tokens,
            r.current == 0,
    {
        Parser { tokens, current: 0 }
    }

    /// The token under the cursor, cloned.
    fn peek(&self) -> (r: Token)
        requires
            self.wf(),
        ensures
            r == self.tokens@[self.current as int],
    {
        self.tokens[self.current].clone()
    }

    /// The token just before the cursor, cloned.
    fn previous(&self) -> (r: Token)
        requires
            1 <= self.current < self.tokens@.len(),
        ensures
            r == self.tokens@[self.current - 1],
    {
        self.tokens[self.current - 1].clone()
    }

    /// Whether the cursor has reached the end-of-input marker.
    fn is_at_end(&self) -> (r: bool)
        requires
            self.wf(),
        ensures
            r == (self.toks()[self.current as int].t_type == TokenType::EOF),
    {
        self.peek().t_type == TokenType::EOF
    }

    /// Whether the token under the cursor has the given kind (never true
    /// at the end of input).
    fn check(&self, t_type: TokenType) -> (r: bool)
        requires
            self.wf(),
        ensures
            r == (self.toks()[self.current as int].t_type != TokenType::EOF && self.toks()[self.current as int].t_type == t_type),
    {
        if self.is_at_end() {
            false
        } else {
            self.peek().t_type == t_type
        }
    }

    /// Consumes the token under the cursor (unless at the end of input)
    /// and returns it.
    fn advance(&mut self) -> (r: Token)
        requires
            old(self).wf(),
            old(self).current >= 1 || old(self).toks()[old(self).current as int].t_type
                != TokenType::EOF,
        ensures
            final (self).wf(),
            final (self).tokens == old(self).tokens,
            if old(self).toks()[old(self).current as int].t_type != TokenType::EOF {
                final (self).current == old(self).current + 1 && r == old(self).tokens@[old(self).current as int]
            } else {
                final (self).current == old(self).current && r == old(self).tokens@[old(self).current - 1]
            },
    {
        if !self.is_at_end() {
            let n = self.tokens.len();
            proof {
                assert(self.toks().len() == n);
                assert(self.current < n - 1);
            }
            self.current = self.current + 1;
        }
        self.previous()
    }

    /// Consumes the token under the cursor when its kind is one of the
    /// given ones.
    fn match_token(&mut self, types: &[TokenType]) -> (r: bool)
        requires
            old(self).wf(),
        ensures
            final (self).wf(),
            final (self).tokens == old(self).tokens,
            r == (old(self).toks()[old(self).current as int].t_type != TokenType::EOF
                && types@.contains(old(self).toks()[old(self).current as int].t_type)),
            final (self).current == if r {
                old(self).current + 1
            } else {
                old(self).current as int
            },
    {
        let ghost cur_type = self.toks()[self.current as int].t_type;
        let n = types.len();
        let mut k: usize = 0;
        while k < n
            invariant
                self.wf(),
                *self == *old(self),
                k <= n == types@.len(),
                forall|m: int| 0 <= m < k ==> cur_type != types@[m] || cur_type == TokenType::EOF,
                cur_type == self.toks()[self.current as int].t_type,
            decreases n - k,
        {
            if self.check(types[k]) {
                let _ = self.advance();
                return true;
            }
            k = k + 1;
        }
        false
    }

    /// Consumes the token under the cursor when it has the expected kind;
    /// otherwise the syntax error carrying that token and the message.
    fn consume(&mut self, t_type: TokenType, message: &str) -> (r: Result<Token, LaxError>)
        requires
            old(self).wf(),
        ensures
            final (self).wf(),
            final (self).tokens == old(self).tokens,
            match r {
                Result::Ok(tok) => {
                    &&& old(self).toks()[old(self).current as int].t_type != TokenType::EOF
                    &&& old(self).toks()[old(self).current as int].t_type == t_type
                    &&& tok == old(self).tokens@[old(self).current as int]
                    &&& final (self).current == old(self).current + 1
                },
                Result::Err(e) => {
                    &&& !(old(self).toks()[old(self).current as int].t_type != TokenType::EOF
                        && old(self).toks()[old(self).current as int].t_type == t_type)
                    &&& e@ == token_error(old(self).toks()[old(self).current as int], message@)
                    &&& *final (self) == *old(self)
                },
            },
    {
        if self.check(t_type) {
            return Result::Ok(self.advance());
        }
        Parser::error(&self.peek(), message)
    }

    /// The syntax error carrying the offending token and the message.
    fn error(token: &Token, message: &str) -> (r: Result<Token, LaxError>)
        ensures
            r matches Result::Err(e) && e@ == token_error(token@, message@),
    {
        Result::Err(LaxError::parse_error(token.clone(), message))
    }

    /// The single-expression entry point used by debug tooling: the tree
    /// when the front of the token sequence parses as an expression,
    /// otherwise nothing (the error detail is discarded).
    pub fn parse(&mut self) -> (r: Option<Expr>)
        requires
            old(self).wf(),
        ensures
            final (self).wf(),
            final (self).tokens == old(self).tokens,
            old(self).current <= final (self).current,
            match r {
                Option::Some(e) => {
                    &&& p_expression(old(self).toks(), old(self).current as int) == ParseR::Ok(
                        (view_expr(e), final (self).current as int),
                    )
                    &&& (toks_lit_wf(old(self).toks()) ==> expr_wf(view_expr(e)))
                    &&& op_wf(view_expr(e))
                },
                Option::None => p_expression(old(self).toks(), old(self).current as int) is Err,
            },
    {
        match self.expression() {
            Result::Ok(expr) => Option::Some(expr),
            Result::Err(_) => Option::None,
        }
    }

    /// The rest of a print statement, exactly as [`p_print_statement`]
    /// describes.
    fn print_statement(&mut self) -> (r: Result<Stmt, LaxError>)
        requires
            old(self).wf(),
        ensures
            final (self).wf(),
            final (self).tokens == old(self).tokens,
            old(self).current <= final (self).current,
            match r {
                Result::Ok(s) => {
                    &&& p_print_statement(old(self).toks(), old(self).current as int)
                        == StmtR::Ok((view_stmt(s), final (self).current as int))
                    &&& old(self).current < final (self).current
                    &&& (toks_lit_wf(old(self).toks()) ==> stmt_wf(view_stmt(s)))
                    &&& stmt_op_wf(view_stmt(s))
                },
                Result::Err(er) => p_print_statement(old(self).toks(), old(self).current as int)
                    == StmtR::Err(er@),
            },
        decreases self.tokens@.len() - self.current, 11int,
    {
        let expr = self.expression()?;
        self.consume(TokenType::Semicolon, "Expect ';' after expression.")?;
        Result::Ok(Stmt::Print(PrintStmt { expression: expr }))
    }

    /// An expression statement, exactly as [`p_expr_statement`] describes.
    fn expr_statement(&mut self) -> (r: Result<Stmt, LaxError>)
        requires
            old(self).wf(),
        ensures
            final (self).wf(),
            final (self).tokens == old(self).tokens,
            old(self).current <= final (self).current,
            match r {
                Result::Ok(s) => {
                    &&& p_expr_statement(old(self).toks(), old(self).current as int)
                        == StmtR::Ok((view_stmt(s), final (self).current as int))
                    &&& old(self).current < final (self).current
                    &&& (toks_lit_wf(old(self).toks()) ==> stmt_wf(view_stmt(s)))
                    &&& stmt_op_wf(view_stmt(s))
                },
                Result::Err(er) => p_expr_statement(old(self).toks(), old(self).current as int)
                    == StmtR::Err(er@),
            },
        decreases self.tokens@.len() - self.current, 11int,
    {
        let expr = self.expression()?;
        self.consume(TokenType::Semicolon, "Expect ';' after expression.")?;
        Result::Ok(Stmt::Expression(ExpressionStmt { expression: expr }))
    }

    /// One statement, exactly as [`p_statement`] describes.
    fn statement(&mut self) -> (r: Result<Stmt, LaxError>)
        requires
            old(self).wf(),
        ensures
            final (self).wf(),
            final (self).tokens == old(self).tokens,
            old(self).current <= final (self).current,
            match r {
                Result::Ok(s) => {
                    &&& p_statement(old(self).toks(), old(self).current as int) == StmtR::Ok(
                        (view_stmt(s), final (self).current as int),
                    )
                    &&& old(self).current < final (self).current
                    &&& (toks_lit_wf(old(self).toks()) ==> stmt_wf(view_stmt(s)))
                    &&& stmt_op_wf(view_stmt(s))
                },
                Result::Err(er) => p_statement(old(self).toks(), old(self).current as int)
                    == StmtR::Err(er@),
            },
        decreases self.tokens@.len() - self.current, 12int,
    {
        if self.match_token(&[TokenType::Print]) {
            return self.print_statement();
        }
        self.expr_statement()
    }

    /// The full statement-sequence parse: statements in order up to the
    /// end of input, failing fast at the first syntax error, exactly as
    /// [`p_program`] describes.
    #[verifier::rlimit(100)]
    pub fn parse_statement(&mut self) -> (r: Result<Vec<Stmt>, LaxError>)
        requires
            old(self).wf(),
        ensures
            final (self).wf(),
            final (self).tokens == old(self).tokens,
            old(self).current <= final (self).current,
            match r {
                Result::Ok(ss) => {
                    &&& p_program(old(self).toks(), old(self).current as int) == ProgramR::Ok(
                        (ss@.map_values(|s: Stmt| view_stmt(s)), final (self).current as int),
                    )
                    &&& (toks_lit_wf(old(self).toks()) ==> forall|k: int|
                        0 <= k < ss@.len() ==> stmt_wf(view_stmt(#[trigger] ss@[k])))
                    &&& forall|k: int| 0 <= k < ss@.len() ==> stmt_op_wf(view_stmt(#[trigger] ss@[k]))
                },
                Result::Err(er) => p_program(old(self).toks(), old(self).current as int)
                    == ProgramR::Err(er@),
            },
    {
        let mut stmts: Vec<Stmt> = Vec::new();
        loop
            invariant
                self.wf(),
                self.tokens == old(self).tokens,
                old(self).current <= self.current,
                p_program(self.toks(), old(self).current as int) == prog_prepend(
                    stmts@.map_values(|s: Stmt| view_stmt(s)),
                    p_program(self.toks(), self.current as int),
                ),
                toks_lit_wf(self.toks()) ==> forall|k: int|
                    0 <= k < stmts@.len() ==> stmt_wf(view_stmt(#[trigger] stmts@[k])),
                forall|k: int| 0 <= k < stmts@.len() ==> stmt_op_wf(view_stmt(#[trigger] stmts@[k])),
            ensures
                self.wf(),
                self.tokens == old(self).tokens,
                old(self).current <= self.current,
                p_program(self.toks(), old(self).current as int) == ProgramR::Ok(
                    (stmts@.map_values(|s: Stmt| view_stmt(s)), self.current as int),
                ),
                toks_lit_wf(self.toks()) ==> forall|k: int|
                    0 <= k < stmts@.len() ==> stmt_wf(view_stmt(#[trigger] stmts@[k])),
                forall|k: int| 0 <= k < stmts@.len() ==> stmt_op_wf(view_stmt(#[trigger] stmts@[k])),
            decreases self.tokens@.len() - self.current, 13int,
        {
            if self.is_at_end() {
                break ;
            }
            let ghost c_head = self.current as int;
            let ghost pre = stmts@;
            let s = self.statement()?;
            stmts.push(s);
            proof {
                let f = |s: Stmt| view_stmt(s);
                let toksv = self.toks();
                let sv = view_stmt(stmts@[pre.len() as int]);
                let rest = p_program(toksv, self.current as int);
                assert(stmts@.map_values(f) =~= pre.map_values(f).push(sv));
                assert(p_program(toksv, c_head) == prog_prepend(seq![sv], rest));
                if rest is Ok {
                    let (ss, k) = rest->Ok_0;
                    assert(pre.map_values(f) + (seq![sv] + ss) =~= stmts@.map_values(f) + ss);
                }
            }
        }
        proof {
            assert(stmts@.map_values(|s: Stmt| view_stmt(s)) + Seq::<StmtV>::empty()
                =~= stmts@.map_values(|s: Stmt| view_stmt(s)));
        }
        Result::Ok(stmts)
    }

    /// The recovery helper the statement parse does not currently invoke:
    /// discards tokens until a likely statement boundary, either just
    /// past a semicolon or in front of a token that begins a statement,
    /// or to the end of input.
    pub fn synchronize(&mut self)
        requires
            old(self).wf(),
            old(self).current >= 1 || old(self).toks()[old(self).current as int].t_type
                != TokenType::EOF,
        ensures
            final (self).wf(),
            final (self).tokens == old(self).tokens,
            ({
                let toks = final (self).toks();
                let c = final (self).current as int;
                ||| toks[c].t_type == TokenType::EOF
                ||| toks[c - 1].t_type == TokenType::Semicolon
                ||| (toks[c].t_type == TokenType::Class || toks[c].t_type == TokenType::Fun
                    || toks[c].t_type == TokenType::Var || toks[c].t_type == TokenType::For
                    || toks[c].t_type == TokenType::If || toks[c].t_type == TokenType::While
                    || toks[c].t_type == TokenType::Print || toks[c].t_type == TokenType::Return)
            }),
    {
        let _ = self.advance();
        while !self.is_at_end()
            invariant
                self.wf(),
                self.tokens == old(self).tokens,
                1 <= self.current,
            ensures
                self.wf(),
                self.tokens == old(self).tokens,
                1 <= self.current,
                self.toks()[self.current as int].t_type == TokenType::EOF || self.toks()[self.current
                    - 1].t_type == TokenType::Semicolon || (self.toks()[self.current as int].t_type
                    == TokenType::Class || self.toks()[self.current as int].t_type == TokenType::Fun
                    || self.toks()[self.current as int].t_type == TokenType::Var || self.toks()[self.current as int].t_type
                    == TokenType::For || self.toks()[self.current as int].t_type == TokenType::If
                    || self.toks()[self.current as int].t_type == TokenType::While || self.toks()[self.current as int].t_type
                    == TokenType::Print || self.toks()[self.current as int].t_type == TokenType::Return),
            decreases self.tokens@.len() - self.current,
        {
            if self.previous().is(TokenType::Semicolon) {
                return ;
            }
            if matches!(
                self.peek().t_type,
                TokenType::Class
                    | TokenType::Fun
                    | TokenType::Var
                    | TokenType::For
                    | TokenType::If
                    | TokenType::While
                    | TokenType::Print
                    | TokenType::Return
            ) {
                return ;
            }
            let _ = self.advance();
        }
    }

    /// A primary production, exactly as [`p_primary`] describes.
    fn primary(&mut self) -> (r: Result<Expr, LaxError>)
        requires
            old(self).wf(),
        ensures
            final (self).wf(),
            final (self).tokens == old(self).tokens,
            old(self).current <= final (self).current,
            match r {
                Result::Ok(e) => {
                    &&& p_primary(old(self).toks(), old(self).current as int) == ParseR::Ok(
                        (view_expr(e), final (self).current as int),
                    )
                    &&& old(self).current < final (self).current
                    &&& (toks_lit_wf(old(self).toks()) ==> expr_wf(view_expr(e)))
                    &&& op_wf(view_expr(e))
                },
                Result::Err(er) => p_primary(old(self).toks(), old(self).current as int)
                    == ParseR::Err(er@),
            },
        decreases self.tokens@.len() - self.current, 0int,
    {
        if self.match_token(&[TokenType::True]) {
            Result::Ok(Expr::Literal(LiteralExpr { value: Option::Some(Object::Bool(true)) }))
        } else if self.match_token(&[TokenType::False]) {
            Result::Ok(Expr::Literal(LiteralExpr { value: Option::Some(Object::Bool(false)) }))
        } else if self.match_token(&[TokenType::Nil]) {
            Result::Ok(Expr::Literal(LiteralExpr { value: Option::Some(Object::Nil) }))
        } else if self.match_token(&[TokenType::Number, TokenType::String]) {
            Result::Ok(Expr::Literal(LiteralExpr { value: self.previous().literal }))
        } else if self.match_token(&[TokenType::LeftParen]) {
            let expr = self.expression()?;
            self.consume(TokenType::RightParent, "Expect ')' after expression.")?;
            Result::Ok(Expr::Grouping(GroupingExpr { expression: Box::new(expr) }))
        } else {
            Result::Err(
                LaxError::error(self.peek().line, String::from_str("Expected expression")),
            )
        }
    }

    /// A unary production, exactly as [`p_unary`] describes.
    fn unary(&mut self) -> (r: Result<Expr, LaxError>)
        requires
            old(self).wf(),
        ensures
            final (self).wf(),
            final (self).tokens == old(self).tokens,
            old(self).current <= final (self).current,
            match r {
                Result::Ok(e) => {
                    &&& p_unary(old(self).toks(), old(self).current as int) == ParseR::Ok(
                        (view_expr(e), final (self).current as int),
                    )
                    &&& old(self).current < final (self).current
                    &&& (toks_lit_wf(old(self).toks()) ==> expr_wf(view_expr(e)))
                    &&& op_wf(view_expr(e))
                },
                Result::Err(er) => p_unary(old(self).toks(), old(self).current as int)
                    == ParseR::Err(er@),
            },
        decreases self.tokens@.len() - self.current, 1int,
    {
        if self.match_token(
            &[TokenType::Bang, TokenType::Minus, TokenType::Not, TokenType::Plus],
        ) {
            let operator = self.previous();
            let right = self.unary()?;
            return Result::Ok(Expr::Unary(UnaryExpr { operator, right: Box::new(right) }));
        }
        self.primary()
    }

    /// A factor production, exactly as [`p_factor`] describes.
    #[verifier::rlimit(60)]
    fn factor(&mut self) -> (r: Result<Expr, LaxError>)
        requires
            old(self).wf(),
        ensures
            final (self).wf(),
            final (self).tokens == old(self).tokens,
            old(self).current <= final (self).current,
            match r {
                Result::Ok(e) => {
                    &&& p_factor(old(self).toks(), old(self).current as int) == ParseR::Ok(
                        (view_expr(e), final (self).current as int),
                    )
                    &&& old(self).current < final (self).current
                    &&& (toks_lit_wf(old(self).toks()) ==> expr_wf(view_expr(e)))
                    &&& op_wf(view_expr(e))
                },
                Result::Err(er) => p_factor(old(self).toks(), old(self).current as int)
                    == ParseR::Err(er@),
            },
        decreases self.tokens@.len() - self.current, 3int,
    {
        let mut expr = self.unary()?;
        loop
            invariant
                self.wf(),
                self.tokens == old(self).tokens,
                old(self).current < self.current,
                p_factor(self.toks(), old(self).current as int) == p_factor_rest(
                    self.toks(),
                    self.current as int,
                    view_expr(expr),
                ),
                toks_lit_wf(self.toks()) ==> expr_wf(view_expr(expr)),
                op_wf(view_expr(expr)),
            ensures
                self.wf(),
                self.tokens == old(self).tokens,
                old(self).current < self.current,
                p_factor(self.toks(), old(self).current as int) == ParseR::Ok((view_expr(expr), self.current as int)),
                toks_lit_wf(self.toks()) ==> expr_wf(view_expr(expr)),
                op_wf(view_expr(expr)),
            decreases self.tokens@.len() - self.current, 2int,
        {
            if !self.match_token(&[TokenType::Star, TokenType::Slash]) {
                break ;
            }
            let operator = self.previous();
            let right = self.unary()?;
            expr = Expr::Binary(
                BinaryExpr { left: Box::new(expr), operator, right: Box::new(right) },
            );
        }
        Result::Ok(expr)
    }

    /// A term production, exactly as [`p_term`] describes.
    #[verifier::rlimit(60)]
    fn term(&mut self) -> (r: Result<Expr, LaxError>)
        requires
            old(self).wf(),
        ensures
            final (self).wf(),
            final (self).tokens == old(self).tokens,
            old(self).current <= final (self).current,
            match r {
                Result::Ok(e) => {
                    &&& p_term(old(self).toks(), old(self).current as int) == ParseR::Ok(
                        (view_expr(e), final (self).current as int),
                    )
                    &&& old(self).current < final (self).current
                    &&& (toks_lit_wf(old(self).toks()) ==> expr_wf(view_expr(e)))
                    &&& op_wf(view_expr(e))
                },
                Result::Err(er) => p_term(old(self).toks(), old(self).current as int)
                    == ParseR::Err(er@),
            },
        decreases self.tokens@.len() - self.current, 5int,
    {
        let mut expr = self.factor()?;
        loop
            invariant
                self.wf(),
                self.tokens == old(self).tokens,
                old(self).current < self.current,
                p_term(self.toks(), old(self).current as int) == p_term_rest(
                    self.toks(),
                    self.current as int,
                    view_expr(expr),
                ),
                toks_lit_wf(self.toks()) ==> expr_wf(view_expr(expr)),
                op_wf(view_expr(expr)),
            ensures
                self.wf(),
                self.tokens == old(self).tokens,
                old(self).current < self.current,
                p_term(self.toks(), old(self).current as int) == ParseR::Ok((view_expr(expr), self.current as int)),
                toks_lit_wf(self.toks()) ==> expr_wf(view_expr(expr)),
                op_wf(view_expr(expr)),
            decreases self.tokens@.len() - self.current, 4int,
        {
            if !self.match_token(&[TokenType::Minus, TokenType::Plus]) {
                break ;
            }
            let operator = self.previous();
            let right = self.factor()?;
            expr = Expr::Binary(
                BinaryExpr { left: Box::new(expr), operator, right: Box::new(right) },
            );
        }
        Result::Ok(expr)
    }

    /// A comparison production, exactly as [`p_comparison`] describes.
    #[verifier::rlimit(60)]
    fn comparison(&mut self) -> (r: Result<Expr, LaxError>)
        requires
            old(self).wf(),
        ensures
            final (self).wf(),
            final (self).tokens == old(self).tokens,
            old(self).current <= final (self).current,
            match r {
                Result::Ok(e) => {
                    &&& p_comparison(old(self).toks(), old(self).current as int) == ParseR::Ok(
                        (view_expr(e), final (self).current as int),
                    )
                    &&& old(self).current < final (self).current
                    &&& (toks_lit_wf(old(self).toks()) ==> expr_wf(view_expr(e)))
                    &&& op_wf(view_expr(e))
                },
                Result::Err(er) => p_comparison(old(self).toks(), old(self).current as int)
                    == ParseR::Err(er@),
            },
        decreases self.tokens@.len() - self.current, 7int,
    {
        let mut expr = self.term()?;
        loop
            invariant
                self.wf(),
                self.tokens == old(self).tokens,
                old(self).current < self.current,
                p_comparison(self.toks(), old(self).current as int) == p_comparison_rest(
                    self.toks(),
                    self.current as int,
                    view_expr(expr),
                ),
                toks_lit_wf(self.toks()) ==> expr_wf(view_expr(expr)),
                op_wf(view_expr(expr)),
            ensures
                self.wf(),
                self.tokens == old(self).tokens,
                old(self).current < self.current,
                p_comparison(self.toks(), old(self).current as int) == ParseR::Ok(
                    (view_expr(expr), self.current as int),
                ),
                toks_lit_wf(self.toks()) ==> expr_wf(view_expr(expr)),
                op_wf(view_expr(expr)),
            decreases self.tokens@.len() - self.current, 6int,
        {
            if !self.match_token(
                &[
                    TokenType::Greater,
                    TokenType::GreaterEqual,
                    TokenType::Less,
                    TokenType::LessEqual,
                    TokenType::In,
                    TokenType::BangIn,
                ],
            ) {
                break ;
            }
            let operator = self.previous();
            let right = self.term()?;
            expr = Expr::Binary(
                BinaryExpr { left: Box::new(expr), operator, right: Box::new(right) },
            );
        }
        Result::Ok(expr)
    }

    /// An equality production, exactly as [`p_equality`] describes.
    #[verifier::rlimit(60)]
    fn equality(&mut self) -> (r: Result<Expr, LaxError>)
        requires
            old(self).wf(),
        ensures
            final (self).wf(),
            final (self).tokens == old(self).tokens,
            old(self).current <= final (self).current,
            match r {
                Result::Ok(e) => {
                    &&& p_equality(old(self).toks(), old(self).current as int) == ParseR::Ok(
                        (view_expr(e), final (self).current as int),
                    )
                    &&& old(self).current < final (self).current
                    &&& (toks_lit_wf(old(self).toks()) ==> expr_wf(view_expr(e)))
                    &&& op_wf(view_expr(e))
                },
                Result::Err(er) => p_equality(old(self).toks(), old(self).current as int)
                    == ParseR::Err(er@),
            },
        decreases self.tokens@.len() - self.current, 9int,
    {
        let mut expr = self.comparison()?;
        loop
            invariant
                self.wf(),
                self.tokens == old(self).tokens,
                old(self).current < self.current,
                p_equality(self.toks(), old(self).current as int) == p_equality_rest(
                    self.toks(),
                    self.current as int,
                    view_expr(expr),
                ),
                toks_lit_wf(self.toks()) ==> expr_wf(view_expr(expr)),
                op_wf(view_expr(expr)),
            ensures
                self.wf(),
                self.tokens == old(self).tokens,
                old(self).current < self.current,
                p_equality(self.toks(), old(self).current as int) == ParseR::Ok((view_expr(expr), self.current as int)),
                toks_lit_wf(self.toks()) ==> expr_wf(view_expr(expr)),
                op_wf(view_expr(expr)),
            decreases self.tokens@.len() - self.current, 8int,
        {
            if !self.match_token(&[TokenType::EqualEqual, TokenType::BangEqual]) {
                break ;
            }
            let operator = self.previous();
            let right = self.comparison()?;
            expr = Expr::Binary(
                BinaryExpr { left: Box::new(expr), operator, right: Box::new(right) },
            );
        }
        Result::Ok(expr)
    }

    /// A full expression, exactly as [`p_expression`] describes.
    fn expression(&mut self) -> (r: Result<Expr, LaxError>)
        requires
            old(self).wf(),
        ensures
            final (self).wf(),
            final (self).tokens == old(self).tokens,
            old(self).current <= final (self).current,
            match r {
                Result::Ok(e) => {
                    &&& p_expression(old(self).toks(), old(self).current as int) == ParseR::Ok(
                        (view_expr(e), final (self).current as int),
                    )
                    &&& old(self).current < final (self).current
                    &&& (toks_lit_wf(old(self).toks()) ==> expr_wf(view_expr(e)))
                    &&& op_wf(view_expr(e))
                },
                Result::Err(er) => p_expression(old(self).toks(), old(self).current as int)
                    == ParseR::Err(er@),
            },
        decreases self.tokens@.len() - self.current, 10int,
    {
        self.equality()
    }
}

} // verus!
