use std::io::Write;
use vstd::prelude::*;

use crate::token::Token;
use crate::token::TokenType;
use crate::token::TokenV;

verus! {

/// The one error shape every stage shares: a source line, an optional
/// offending token, and a message.
#[derive(Debug)]
pub struct LaxError {
    pub token: Option<Token>,
    pub line: usize,
    pub message: String,
}

/// The mathematical model of a [`LaxError`].
pub struct ErrV {
    pub token: Option<TokenV>,
    pub line: int,
    pub message: Seq<char>,
}

impl View for LaxError {
    type V = ErrV;

    open spec fn view(&self) -> ErrV {
        ErrV {
            token: match self.token {
                Option::Some(t) => Option::Some(t@),
                Option::None => Option::None,
            },
            line: self.line as int,
            message: self.message@,
        }
    }
}

/// The model of an error carrying no offending token, as the scanner and
/// the evaluator construct it.
pub open spec fn plain_error(line: int, message: Seq<char>) -> ErrV {
    ErrV { token: Option::None, line, message }
}

/// The model of an error anchored at an offending token, as the parser
/// constructs it.
pub open spec fn token_error(token: TokenV, message: Seq<char>) -> ErrV {
    ErrV { token: Option::Some(token), line: token.line, message }
}

impl LaxError {
    /// A plain error value: a line and a message, with no offending
    /// token.  Following the dual-reporting design, construction itself
    /// emits the diagnostic; the caller may still propagate the value.
    pub fn error(line: usize, message: String) -> (r: LaxError)
        ensures
            r@ == plain_error(line as int, message@),
    {
        let err = LaxError { token: Option::None, line, message };
        err.report("");
        err
    }

    /// An error value anchored at the offending token, on that token's line.
    pub fn parse_error(token: Token, message: &str) -> (r: LaxError)
        ensures
            r@ == token_error(token@, message@),
    {
        let line = token.line;
        let err = LaxError { token: Option::Some(token), line, message: String::from_str(message) };
        err.report("");
        err
    }

    /// Writes this error's diagnostic lines to the error stream.
    ///
    /// Relies on `std::io::Stderr` and the `writeln` macro; the error
    /// value itself is left untouched and nothing is promised of the
    /// stream.
    #[verifier::external_body]
    pub fn report(&self, loc: &str) {
        if let Option::Some(token) = &self.token {
            if token.t_type == TokenType::EOF {
                let _ = writeln!(std::io::stderr(), "{} at end {}", token.line, self.message);
            } else {
                let _ = writeln!(
                    std::io::stderr(),
                    "{} at '{}' {}",
                    token.line,
                    token.lexeme,
                    self.message,
                );
            }
        }
        let _ = writeln!(std::io::stderr(), "[line {}] Error{}: {}", self.line, loc, self.message);
    }
}

} // verus!
