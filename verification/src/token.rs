use vstd::prelude::*;

use crate::num::float_display;
use crate::num::num_display;

verus! {

/// The kind of a scanned token: punctuation, literals, keywords, and the
/// end-of-input marker.
#[derive(Debug, Eq, PartialEq, Clone, Copy, Structural)]
pub enum TokenType {
    // Single-character tokens.
    LeftParen,
    RightParent,
    LeftBrace,
    RightBrace,
    Comma,
    Dot,
    Minus,
    Plus,
    Semicolon,
    Slash,
    Star,
    // One or two character tokens.
    Bang,
    BangEqual,
    Equal,
    EqualEqual,
    Greater,
    GreaterEqual,
    Less,
    LessEqual,
    // Literals.
    String,
    Identifier,
    Number,
    // Keywords.
    And,
    Class,
    Else,
    False,
    Fun,
    For,
    If,
    Nil,
    Or,
    Not,
    Print,
    Return,
    Super,
    This,
    True,
    Var,
    Val,
    While,
    Loop,
    Continue,
    Break,
    Is,
    In,
    // The negated membership operator, written `!in` in diagnostics.
    BangIn,
    EOF,
}

/// A runtime value: a number, a string, a boolean, or nil.
///
/// A number is carried as the 64 bits of its IEEE 754 binary64
/// representation; all arithmetic on it goes through `crate::num`.
#[derive(Debug, PartialEq)]
pub enum Object {
    Num(u64),
    Str(String),
    Bool(bool),
    Nil,
}

/// The mathematical model of an [`Object`].
pub enum ValueV {
    Num(u64),
    Str(Seq<char>),
    Bool(bool),
    Nil,
}

impl View for Object {
    type V = ValueV;

    open spec fn view(&self) -> ValueV {
        match self {
            Object::Num(b) => ValueV::Num(*b),
            Object::Str(s) => ValueV::Str(s@),
            Object::Bool(b) => ValueV::Bool(*b),
            Object::Nil => ValueV::Nil,
        }
    }
}

impl Clone for Object {
    /// An explicit clone, so that the copy is known to carry the same value.
    fn clone(&self) -> (res: Self)
        ensures
            res == *self,
    {
        match self {
            Object::Num(b) => Object::Num(*b),
            Object::Str(s) => Object::Str(s.clone()),
            Object::Bool(b) => Object::Bool(*b),
            Object::Nil => Object::Nil,
        }
    }
}

/// The textual form of a value, as written by a `print` statement:
/// a number in its decimal rendering, a string between double quotes,
/// `true`/`false`, or `nil`.
pub open spec fn value_display(v: ValueV) -> Seq<char> {
    match v {
        ValueV::Num(b) => float_display(b),
        ValueV::Str(s) => "\""@ + s + "\""@,
        ValueV::Bool(b) => if b {
            "true"@
        } else {
            "false"@
        },
        ValueV::Nil => "nil"@,
    }
}

impl Object {
    /// Renders the value in its user-visible textual form.
    pub fn to_display_string(&self) -> (r: String)
        ensures
            r@ == value_display(self@),
    {
        match self {
            Object::Num(b) => num_display(*b),
            Object::Str(s) => {
                let mut out = String::from_str("\"");
                out.append(s.as_str());
                out.append("\"");
                out
            },
            Object::Bool(b) => {
                if *b {
                    String::from_str("true")
                } else {
                    String::from_str("false")
                }
            },
            Object::Nil => String::from_str("nil"),
        }
    }
}

/// The name of a token kind, as diagnostics spell it.
pub open spec fn kind_name(t: TokenType) -> Seq<char> {
    match t {
        TokenType::LeftParen => "LeftParen"@,
        TokenType::RightParent => "RightParent"@,
        TokenType::LeftBrace => "LeftBrace"@,
        TokenType::RightBrace => "RightBrace"@,
        TokenType::Comma => "Comma"@,
        TokenType::Dot => "Dot"@,
        TokenType::Minus => "Minus"@,
        TokenType::Plus => "Plus"@,
        TokenType::Semicolon => "Semicolon"@,
        TokenType::Slash => "Slash"@,
        TokenType::Star => "Star"@,
        TokenType::Bang => "Bang"@,
        TokenType::BangEqual => "BangEqual"@,
        TokenType::Equal => "Equal"@,
        TokenType::EqualEqual => "EqualEqual"@,
        TokenType::Greater => "Greater"@,
        TokenType::GreaterEqual => "GreaterEqual"@,
        TokenType::Less => "Less"@,
        TokenType::LessEqual => "LessEqual"@,
        TokenType::String => "String"@,
        TokenType::Identifier => "Identifier"@,
        TokenType::Number => "Number"@,
        TokenType::And => "And"@,
        TokenType::Class => "Class"@,
        TokenType::Else => "Else"@,
        TokenType::False => "False"@,
        TokenType::Fun => "Fun"@,
        TokenType::For => "For"@,
        TokenType::If => "If"@,
        TokenType::Nil => "Nil"@,
        TokenType::Or => "Or"@,
        TokenType::Not => "Not"@,
        TokenType::Print => "Print"@,
        TokenType::Return => "Return"@,
        TokenType::Super => "Super"@,
        TokenType::This => "This"@,
        TokenType::True => "True"@,
        TokenType::Var => "Var"@,
        TokenType::Val => "Val"@,
        TokenType::While => "While"@,
        TokenType::Loop => "Loop"@,
        TokenType::Continue => "Continue"@,
        TokenType::Break => "Break"@,
        TokenType::Is => "Is"@,
        TokenType::In => "In"@,
        TokenType::BangIn => "BangIn"@,
        TokenType::EOF => "EOF"@,
    }
}

/// The name of a token kind, as diagnostics spell it.
pub fn token_kind_name(t: TokenType) -> (r: &'static str)
    ensures
        r@ == kind_name(t),
{
    match t {
        TokenType::LeftParen => "LeftParen",
        TokenType::RightParent => "RightParent",
        TokenType::LeftBrace => "LeftBrace",
        TokenType::RightBrace => "RightBrace",
        TokenType::Comma => "Comma",
        TokenType::Dot => "Dot",
        TokenType::Minus => "Minus",
        TokenType::Plus => "Plus",
        TokenType::Semicolon => "Semicolon",
        TokenType::Slash => "Slash",
        TokenType::Star => "Star",
        TokenType::Bang => "Bang",
        TokenType::BangEqual => "BangEqual",
        TokenType::Equal => "Equal",
        TokenType::EqualEqual => "EqualEqual",
        TokenType::Greater => "Greater",
        TokenType::GreaterEqual => "GreaterEqual",
        TokenType::Less => "Less",
        TokenType::LessEqual => "LessEqual",
        TokenType::String => "String",
        TokenType::Identifier => "Identifier",
        TokenType::Number => "Number",
        TokenType::And => "And",
        TokenType::Class => "Class",
        TokenType::Else => "Else",
        TokenType::False => "False",
        TokenType::Fun => "Fun",
        TokenType::For => "For",
        TokenType::If => "If",
        TokenType::Nil => "Nil",
        TokenType::Or => "Or",
        TokenType::Not => "Not",
        TokenType::Print => "Print",
        TokenType::Return => "Return",
        TokenType::Super => "Super",
        TokenType::This => "This",
        TokenType::True => "True",
        TokenType::Var => "Var",
        TokenType::Val => "Val",
        TokenType::While => "While",
        TokenType::Loop => "Loop",
        TokenType::Continue => "Continue",
        TokenType::Break => "Break",
        TokenType::Is => "Is",
        TokenType::In => "In",
        TokenType::BangIn => "BangIn",
        TokenType::EOF => "EOF",
    }
}

/// A classified lexeme: its kind, the exact source text it was scanned
/// from, an optional literal payload, and the source line it ends on.
#[derive(Debug)]
pub struct Token {
    pub t_type: TokenType,
    pub lexeme: String,
    pub literal: Option<Object>,
    pub line: usize,
}

/// The mathematical model of a [`Token`].
pub struct TokenV {
    pub t_type: TokenType,
    pub lexeme: Seq<char>,
    pub literal: Option<ValueV>,
    pub line: int,
}

impl View for Token {
    type V = TokenV;

    open spec fn view(&self) -> TokenV {
        TokenV {
            t_type: self.t_type,
            lexeme: self.lexeme@,
            literal: match self.literal {
                Option::Some(o) => Option::Some(o@),
                Option::None => Option::None,
            },
            line: self.line as int,
        }
    }
}

impl Clone for Token {
    /// An explicit clone, so that the copy is known to carry the same fields.
    fn clone(&self) -> (res: Self)
        ensures
            res == *self,
    {
        Token {
            t_type: self.t_type,
            lexeme: self.lexeme.clone(),
            literal: match &self.literal {
                Option::Some(o) => Option::Some(o.clone()),
                Option::None => Option::None,
            },
            line: self.line,
        }
    }
}

impl Token {
    pub fn new(t_type: TokenType, lexeme: String, literal: Option<Object>, line: usize) -> (r:
        Self)
        ensures
            r == (Token { t_type, lexeme, literal, line }),
    {
        Self { t_type, lexeme, literal, line }
    }

    /// True exactly when this token has the given kind.
    pub fn is(&self, ttype: TokenType) -> (r: bool)
        ensures
            r == (self.t_type == ttype),
    {
        self.t_type == ttype
    }

    /// The end-of-input marker that terminates every token sequence.
    pub fn eof(current_line: usize) -> (r: Token)
        ensures
            r@ == (TokenV {
                t_type: TokenType::EOF,
                lexeme: Seq::<char>::empty(),
                literal: Option::None,
                line: current_line as int,
            }),
    {
        Token::new(TokenType::EOF, String::new(), Option::None, current_line)
    }
}

} // verus!
