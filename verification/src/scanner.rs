use vstd::prelude::*;

use crate::error::plain_error;
use crate::error::ErrV;
use crate::error::LaxError;
use crate::num::float_parse;
use crate::num::is_digit_char;
use crate::num::is_number_lexeme;
use crate::num::num_parse;
use crate::token::Object;
use crate::token::Token;
use crate::token::TokenType;
use crate::token::TokenV;
use crate::token::ValueV;
use vstd::string::StrSliceExecFns;

verus! {

// ---------------------------------------------------------------------
// The scanning model: one pass over the source characters, from a cursor
// and a line counter, producing tokens and retaining the latest error.
// ---------------------------------------------------------------------
/// Whether a character is an ASCII letter.
pub open spec fn is_alpha_char(c: char) -> bool {
    ('a' <= c <= 'z') || ('A' <= c <= 'Z')
}

/// Whether a character may start an identifier: a letter or an underscore.
pub open spec fn is_ident_start(c: char) -> bool {
    is_alpha_char(c) || c == '_'
}

/// Whether a character may continue an identifier: a letter, a digit, or
/// an underscore.
pub open spec fn is_ident_char(c: char) -> bool {
    is_alpha_char(c) || is_digit_char(c) || c == '_'
}

/// The first position at or after `i` that does not hold a digit.
pub open spec fn digits_end(s: Seq<char>, i: int) -> int
    decreases s.len() - i,
{
    if 0 <= i < s.len() && is_digit_char(s[i]) {
        digits_end(s, i + 1)
    } else {
        i
    }
}

/// The first position at or after `i` that does not hold an identifier
/// character.
pub open spec fn ident_end(s: Seq<char>, i: int) -> int
    decreases s.len() - i,
{
    if 0 <= i < s.len() && is_ident_char(s[i]) {
        ident_end(s, i + 1)
    } else {
        i
    }
}

/// Where a `//` comment ends: the position of the next newline, or the
/// end of the source.  The newline itself is not part of the comment.
pub open spec fn line_comment_end(s: Seq<char>, i: int) -> int
    decreases s.len() - i,
{
    if 0 <= i < s.len() && s[i] != '\n' {
        line_comment_end(s, i + 1)
    } else {
        i
    }
}

/// Where a block comment that is currently `depth` levels deep ends:
/// `Ok((position after the closing delimiter, line counter there))`, or
/// `Err(line counter at the end of input)` when it never closes.
pub open spec fn block_comment_end(s: Seq<char>, i: int, line: int, depth: int) -> Result<
    (int, int),
    int,
>
    decreases s.len() - i,
{
    if !(0 <= i < s.len()) {
        Result::Err(line)
    } else if s[i] == '*' && i + 1 < s.len() && s[i + 1] == '/' {
        if depth == 1 {
            Result::Ok((i + 2, line))
        } else {
            block_comment_end(s, i + 2, line, depth - 1)
        }
    } else if s[i] == '/' && i + 1 < s.len() && s[i + 1] == '*' {
        block_comment_end(s, i + 2, line, depth + 1)
    } else if s[i] == '\n' {
        block_comment_end(s, i + 1, line + 1, depth)
    } else {
        block_comment_end(s, i + 1, line, depth)
    }
}

/// Where a string literal whose opening quote sits just before `i` ends:
/// `Ok((position after the closing quote, line counter there))`, or
/// `Err(line counter at the end of input)` when the quote never closes.
pub open spec fn string_end(s: Seq<char>, i: int, line: int) -> Result<(int, int), int>
    decreases s.len() - i,
{
    if !(0 <= i < s.len()) {
        Result::Err(line)
    } else if s[i] == '"' {
        Result::Ok((i + 1, line))
    } else if s[i] == '\n' {
        string_end(s, i + 1, line + 1)
    } else {
        string_end(s, i + 1, line)
    }
}

/// Where a numeric lexeme that starts with the digit at `i` ends: past
/// the digit run, and past a fractional part when a decimal point is
/// directly followed by a digit.
pub open spec fn number_end(s: Seq<char>, i: int) -> int {
    let j = digits_end(s, i + 1);
    if j < s.len() && s[j] == '.' && j + 1 < s.len() && is_digit_char(s[j + 1]) {
        digits_end(s, j + 1)
    } else {
        j
    }
}

/// The keyword table: the token kind a reserved word scans to.
pub open spec fn keyword_type(s: Seq<char>) -> Option<TokenType> {
    if s == "class"@ {
        Option::Some(TokenType::Class)
    } else if s == "else"@ {
        Option::Some(TokenType::Else)
    } else if s == "if"@ {
        Option::Some(TokenType::If)
    } else if s == "false"@ {
        Option::Some(TokenType::False)
    } else if s == "true"@ {
        Option::Some(TokenType::True)
    } else if s == "fun"@ {
        Option::Some(TokenType::Fun)
    } else if s == "for"@ {
        Option::Some(TokenType::For)
    } else if s == "loop"@ {
        Option::Some(TokenType::Loop)
    } else if s == "while"@ {
        Option::Some(TokenType::While)
    } else if s == "break"@ {
        Option::Some(TokenType::Break)
    } else if s == "continue"@ {
        Option::Some(TokenType::Continue)
    } else if s == "this"@ {
        Option::Some(TokenType::This)
    } else if s == "super"@ {
        Option::Some(TokenType::Super)
    } else if s == "nil"@ {
        Option::Some(TokenType::Nil)
    } else if s == "var"@ {
        Option::Some(TokenType::Var)
    } else if s == "val"@ {
        Option::Some(TokenType::Val)
    } else if s == "not"@ {
        Option::Some(TokenType::Not)
    } else if s == "or"@ {
        Option::Some(TokenType::Or)
    } else if s == "and"@ {
        Option::Some(TokenType::And)
    } else if s == "print"@ {
        Option::Some(TokenType::Print)
    } else if s == "is"@ {
        Option::Some(TokenType::Is)
    } else if s == "in"@ {
        Option::Some(TokenType::In)
    } else if s == "return"@ {
        Option::Some(TokenType::Return)
    } else {
        Option::None
    }
}

/// A token without a literal payload, cut from the source text.
pub open spec fn plain_tok(t_type: TokenType, s: Seq<char>, start: int, end: int, line: int)
    -> TokenV {
    TokenV { t_type, lexeme: s.subrange(start, end), literal: Option::None, line }
}

/// What one step of the scanner does from position `i` on line `line`:
/// where the cursor and the line counter land, the token it emits, if
/// any, and the lexical error it records, if any.
pub struct ScanStep {
    pub next: int,
    pub line: int,
    pub tok: Option<TokenV>,
    pub err: Option<ErrV>,
}

/// One step that only moves the cursor.
pub open spec fn step_skip(next: int, line: int) -> ScanStep {
    ScanStep { next, line, tok: Option::None, err: Option::None }
}

/// One step that emits a token.
pub open spec fn step_tok(next: int, line: int, tok: TokenV) -> ScanStep {
    ScanStep { next, line, tok: Option::Some(tok), err: Option::None }
}

/// One step that records a lexical error.
pub open spec fn step_err(next: int, line: int, err: ErrV) -> ScanStep {
    ScanStep { next, line, tok: Option::None, err: Option::Some(err) }
}

/// One step of the scanner at position `i` (which must hold a character)
/// on line `line`.
pub open spec fn scan_step(s: Seq<char>, i: int, line: int) -> ScanStep
    recommends
        0 <= i < s.len(),
{
    let c = s[i];
    if c == '(' {
        step_tok(i + 1, line, plain_tok(TokenType::LeftParen, s, i, i + 1, line))
    } else if c == ')' {
        step_tok(i + 1, line, plain_tok(TokenType::RightParent, s, i, i + 1, line))
    } else if c == '{' {
        step_tok(i + 1, line, plain_tok(TokenType::LeftBrace, s, i, i + 1, line))
    } else if c == '}' {
        step_tok(i + 1, line, plain_tok(TokenType::RightBrace, s, i, i + 1, line))
    } else if c == ',' {
        step_tok(i + 1, line, plain_tok(TokenType::Comma, s, i, i + 1, line))
    } else if c == '.' {
        step_tok(i + 1, line, plain_tok(TokenType::Dot, s, i, i + 1, line))
    } else if c == '-' {
        step_tok(i + 1, line, plain_tok(TokenType::Minus, s, i, i + 1, line))
    } else if c == '+' {
        step_tok(i + 1, line, plain_tok(TokenType::Plus, s, i, i + 1, line))
    } else if c == ';' {
        step_tok(i + 1, line, plain_tok(TokenType::Semicolon, s, i, i + 1, line))
    } else if c == '*' {
        step_tok(i + 1, line, plain_tok(TokenType::Star, s, i, i + 1, line))
    } else if c == '!' {
        if i + 1 < s.len() && s[i + 1] == '=' {
            step_tok(i + 2, line, plain_tok(TokenType::BangEqual, s, i, i + 2, line))
        } else {
            step_tok(i + 1, line, plain_tok(TokenType::Bang, s, i, i + 1, line))
        }
    } else if c == '=' {
        if i + 1 < s.len() && s[i + 1] == '=' {
            step_tok(i + 2, line, plain_tok(TokenType::EqualEqual, s, i, i + 2, line))
        } else {
            step_tok(i + 1, line, plain_tok(TokenType::Equal, s, i, i + 1, line))
        }
    } else if c == '>' {
        if i + 1 < s.len() && s[i + 1] == '=' {
            step_tok(i + 2, line, plain_tok(TokenType::GreaterEqual, s, i, i + 2, line))
        } else {
            step_tok(i + 1, line, plain_tok(TokenType::Greater, s, i, i + 1, line))
        }
    } else if c == '<' {
        if i + 1 < s.len() && s[i + 1] == '=' {
            step_tok(i + 2, line, plain_tok(TokenType::LessEqual, s, i, i + 2, line))
        } else {
            step_tok(i + 1, line, plain_tok(TokenType::Less, s, i, i + 1, line))
        }
    } else if c == '/' {
        if i + 1 < s.len() && s[i + 1] == '/' {
            step_skip(line_comment_end(s, i + 2), line)
        } else if i + 1 < s.len() && s[i + 1] == '*' {
            match block_comment_end(s, i + 2, line, 1) {
                Result::Ok((j, l2)) => step_skip(j, l2),
                Result::Err(l2) => step_err(
                    s.len() as int,
                    l2,
                    plain_error(l2, "Unterminated comment"@),
                ),
            }
        } else {
            step_tok(i + 1, line, plain_tok(TokenType::Slash, s, i, i + 1, line))
        }
    } else if c == ' ' || c == '\r' || c == '\t' {
        step_skip(i + 1, line)
    } else if c == '\n' {
        step_skip(i + 1, line + 1)
    } else if c == '"' {
        match string_end(s, i + 1, line) {
            Result::Ok((j, l2)) => step_tok(
                j,
                l2,
                TokenV {
                    t_type: TokenType::String,
                    lexeme: s.subrange(i, j),
                    literal: Option::Some(ValueV::Str(s.subrange(i + 1, j - 1))),
                    line: l2,
                },
            ),
            Result::Err(l2) => step_err(
                s.len() as int,
                l2,
                plain_error(l2, "Unterminated string"@),
            ),
        }
    } else if is_digit_char(c) {
        let j2 = number_end(s, i);
        step_tok(
            j2,
            line,
            TokenV {
                t_type: TokenType::Number,
                lexeme: s.subrange(i, j2),
                literal: Option::Some(ValueV::Num(float_parse(s.subrange(i, j2))->Some_0)),
                line,
            },
        )
    } else if is_ident_start(c) {
        let j = ident_end(s, i + 1);
        let lex = s.subrange(i, j);
        match keyword_type(lex) {
            Option::Some(t) => step_tok(j, line, plain_tok(t, s, i, j, line)),
            Option::None => step_tok(j, line, plain_tok(TokenType::Identifier, s, i, j, line)),
        }
    } else {
        step_err(i + 1, line, plain_error(line, "Unexpected character."@))
    }
}

/// What scanning from position `i` on line `line` to the end of the
/// source produces: the tokens in order, the most recently recorded
/// lexical error, if any, and the final line counter.  The end-of-input
/// marker is not included; [`scan_result`] appends it.
pub struct ScanR {
    pub toks: Seq<TokenV>,
    pub err: Option<ErrV>,
    pub end_line: int,
}

pub open spec fn scan_spec(s: Seq<char>, i: int, line: int) -> ScanR
    decreases s.len() - i,
{
    if !(0 <= i < s.len()) {
        ScanR { toks: Seq::empty(), err: Option::None, end_line: line }
    } else {
        let st = scan_step(s, i, line);
        if i < st.next <= s.len() {
            let rest = scan_spec(s, st.next, st.line);
            ScanR {
                toks: match st.tok {
                    Option::Some(t) => seq![t] + rest.toks,
                    Option::None => rest.toks,
                },
                err: if rest.err is Some {
                    rest.err
                } else {
                    st.err
                },
                end_line: rest.end_line,
            }
        } else {
            ScanR { toks: Seq::empty(), err: Option::None, end_line: line }
        }
    }
}

/// What scanning a whole source text produces: the tokens of
/// [`scan_spec`] from the first character, terminated by exactly one
/// end-of-input marker on the final line.
pub open spec fn scan_result(s: Seq<char>) -> ScanR {
    let r = scan_spec(s, 0, 1);
    ScanR {
        toks: r.toks + seq![
            TokenV {
                t_type: TokenType::EOF,
                lexeme: Seq::empty(),
                literal: Option::None,
                line: r.end_line,
            },
        ],
        err: r.err,
        end_line: r.end_line,
    }
}

/// Every token the scanner produces carries its literal payload: a
/// number token a numeric value, a string token a string value.
pub open spec fn lit_wf(t: TokenV) -> bool {
    (t.t_type == TokenType::Number ==> (t.literal matches Option::Some(ValueV::Num(_)))) && (
    t.t_type == TokenType::String ==> (t.literal matches Option::Some(ValueV::Str(_))))
}

/// Every token that scanning from any position produces carries its
/// literal payload, as [`lit_wf`] states.
pub proof fn lemma_scan_spec_lit_wf(s: Seq<char>, i: int, line: int)
    ensures
        forall|k: int|
            0 <= k < scan_spec(s, i, line).toks.len() ==> lit_wf(
                #[trigger] scan_spec(s, i, line).toks[k],
            ),
    decreases s.len() - i,
{
    if 0 <= i < s.len() {
        let st = scan_step(s, i, line);
        if i < st.next <= s.len() {
            lemma_scan_spec_lit_wf(s, st.next, st.line);
        }
    }
}

/// Every token of a whole scan, the end-of-input marker included,
/// carries its literal payload.
pub proof fn lemma_scan_result_lit_wf(s: Seq<char>)
    ensures
        forall|k: int|
            0 <= k < scan_result(s).toks.len() ==> lit_wf(#[trigger] scan_result(s).toks[k]),
{
    lemma_scan_spec_lit_wf(s, 0, 1);
}

/// No token that scanning from any position produces is an end-of-input
/// marker: the one marker is appended afterwards.
pub proof fn lemma_scan_spec_no_eof(s: Seq<char>, i: int, line: int)
    ensures
        forall|k: int|
            0 <= k < scan_spec(s, i, line).toks.len() ==> (#[trigger] scan_spec(
                s,
                i,
                line,
            ).toks[k]).t_type != TokenType::EOF,
    decreases s.len() - i,
{
    if 0 <= i < s.len() {
        let st = scan_step(s, i, line);
        if i < st.next <= s.len() {
            lemma_scan_spec_no_eof(s, st.next, st.line);
        }
    }
}

/// A whole scan hands the parser a well-formed token sequence: it is
/// non-empty and exactly its last token is the end-of-input marker.
pub proof fn lemma_scan_result_tokens_wf(s: Seq<char>)
    ensures
        crate::parser::tokens_wf(scan_result(s).toks),
{
    lemma_scan_spec_no_eof(s, 0, 1);
}

/// A digit run neither moves backwards nor leaves the source, covers
/// digits only, and stops at a non-digit.
pub proof fn lemma_digits_end(s: Seq<char>, i: int)
    requires
        0 <= i <= s.len(),
    ensures
        i <= digits_end(s, i) <= s.len(),
        forall|k: int| i <= k < digits_end(s, i) ==> is_digit_char(#[trigger] s[k]),
        digits_end(s, i) < s.len() ==> !is_digit_char(s[digits_end(s, i)]),
    decreases s.len() - i,
{
    if i < s.len() && is_digit_char(s[i]) {
        lemma_digits_end(s, i + 1);
    }
}

/// The lexeme cut by [`number_end`] from a leading digit is a numeric
/// lexeme, and the cut is well within the source.
pub proof fn lemma_number_lexeme(s: Seq<char>, i: int)
    requires
        0 <= i < s.len(),
        is_digit_char(s[i]),
    ensures
        i < number_end(s, i) <= s.len(),
        is_number_lexeme(s.subrange(i, number_end(s, i))),
{
    lemma_digits_end(s, i + 1);
    let j = digits_end(s, i + 1);
    let j2 = number_end(s, i);
    let lex = s.subrange(i, j2);
    if j < s.len() && s[j] == '.' && j + 1 < s.len() && is_digit_char(s[j + 1]) {
        lemma_digits_end(s, j + 1);
        let k = j - i;
        assert(lex[k] == '.');
        assert(1 <= k < lex.len() - 1);
        assert(forall|m: int| 0 <= m < lex.len() && m != k ==> is_digit_char(#[trigger] lex[m]));
    } else {
        assert(forall|m: int| 0 <= m < lex.len() ==> is_digit_char(#[trigger] lex[m]));
    }
}

// ---------------------------------------------------------------------
// The executable scanner.
// ---------------------------------------------------------------------
/// Converts raw source text into the ordered token sequence that
/// [`scan_result`] describes.
pub struct Scanner {
    /// The source as a character sequence, for cheap cursor access.
    pub source: Vec<char>,
    /// The tokens produced so far.
    pub tokens: Vec<Token>,
    /// Where the lexeme being scanned begins.
    pub start: usize,
    /// The cursor: the next character to look at.
    pub current: usize,
    /// The current line, counted from one.
    pub line: usize,
    /// The source as text, for cutting lexemes out; always the same
    /// characters as `source`.
    pub text: String,
}

impl Scanner {
    /// The scanner's internal consistency: the two copies of the source
    /// agree, the cursors sit inside it, and the line counter cannot have
    /// passed the cursor.
    pub open spec fn wf(&self) -> bool {
        &&& self.text@ == self.source@
        &&& self.start <= self.current <= self.source@.len()
        &&& 1 <= self.line <= self.current + 1
        &&& self.source@.len() < usize::MAX
    }

    /// The views of the tokens produced so far.
    pub open spec fn toks(&self) -> Seq<TokenV> {
        self.tokens@.map_values(|t: Token| t@)
    }

    /// A fresh scanner over the given source text.
    pub fn new(source: String) -> (r: Self)
        requires
            source@.len() < usize::MAX,
        ensures
            r.wf(),
            r.source@ == source@,
            r.tokens@.len() == 0,
            r.start == 0,
            r.current == 0,
            r.line == 1,
    {
        let n = source.as_str().unicode_len();
        let mut chars: Vec<char> = Vec::new();
        let mut i: usize = 0;
        while i < n
            invariant
                n == source@.len(),
                i <= n,
                chars@ == source@.subrange(0, i as int),
            decreases n - i,
        {
            let c = source.as_str().get_char(i);
            chars.push(c);
            i = i + 1;
            proof {
                assert(chars@ =~= source@.subrange(0, i as int));
            }
        }
        assert(chars@ =~= source@);
        Self { source: chars, tokens: Vec::new(), start: 0, current: 0, line: 1, text: source }
    }

    /// Whether the cursor has passed the last character.
    fn is_at_end(&self) -> (r: bool)
        ensures
            r == (self.current >= self.source@.len()),
    {
        self.current >= self.source.len()
    }

    /// The character under the cursor, if any; the cursor does not move.
    fn peek(&self) -> (r: Option<char>)
        ensures
            r == (if self.current < self.source@.len() {
                Option::Some(self.source@[self.current as int])
            } else {
                Option::<char>::None
            }),
    {
        if self.current < self.source.len() {
            Option::Some(self.source[self.current])
        } else {
            Option::None
        }
    }

    /// The character one past the cursor, if any.
    fn peek_next(&self) -> (r: Option<char>)
        requires
            self.current < usize::MAX,
        ensures
            r == (if self.current + 1 < self.source@.len() {
                Option::Some(self.source@[self.current + 1])
            } else {
                Option::<char>::None
            }),
    {
        if self.current + 1 < self.source.len() {
            Option::Some(self.source[self.current + 1])
        } else {
            Option::None
        }
    }

    /// Consumes and returns the character under the cursor.
    fn advance(&mut self) -> (r: char)
        requires
            old(self).current < old(self).source@.len(),
            old(self).source@.len() < usize::MAX,
        ensures
            r == old(self).source@[old(self).current as int],
            *final(self) == (Scanner { current: (old(self).current + 1) as usize, ..*old(self) }),
    {
        let res = self.source[self.current];
        self.current = self.current + 1;
        res
    }

    /// Consumes the character under the cursor exactly when it is the
    /// expected one.
    fn matches(&mut self, expected: char) -> (r: bool)
        requires
            old(self).current <= old(self).source@.len(),
            old(self).source@.len() < usize::MAX,
        ensures
            r == (old(self).current < old(self).source@.len() && old(self).source@[old(
                self,
            ).current as int] == expected),
            *final(self) == (Scanner {
                current: if r {
                    (old(self).current + 1) as usize
                } else {
                    old(self).current
                },
                ..*old(self)
            }),
    {
        if self.current < self.source.len() && self.source[self.current] == expected {
            self.current = self.current + 1;
            true
        } else {
            false
        }
    }

    /// Cuts the current lexeme out of the source and appends a token of
    /// the given kind, with the given literal payload, on the current
    /// line.
    fn add_token(&mut self, t_type: TokenType, literal: Option<Object>)
        requires
            old(self).wf(),
        ensures
            *final(self) == (Scanner { tokens: final (self).tokens, ..*old(self) }),
            final (self).toks() == old(self).toks().push(
                TokenV {
                    t_type,
                    lexeme: old(self).source@.subrange(
                        old(self).start as int,
                        old(self).current as int,
                    ),
                    literal: match literal {
                        Option::Some(o) => Option::Some(o@),
                        Option::None => Option::None,
                    },
                    line: old(self).line as int,
                },
            ),
    {
        let text: String = String::from_str(
            self.text.as_str().substring_char(self.start, self.current),
        );
        let ghost pre = self.toks();
        self.tokens.push(Token::new(t_type, text, literal, self.line));
        proof {
            assert(self.toks() =~= pre.push(self.tokens@[self.tokens@.len() - 1]@));
        }
    }

    /// Whether a looked-at character is a decimal digit.
    fn is_digit(ch: Option<char>) -> (r: bool)
        ensures
            r == match ch {
                Option::Some(c) => is_digit_char(c),
                Option::None => false,
            },
    {
        if let Option::Some(c) = ch {
            '0' <= c && c <= '9'
        } else {
            false
        }
    }

    /// Whether a looked-at character may continue an identifier.
    fn is_alpha_numeric(ch: Option<char>) -> (r: bool)
        ensures
            r == match ch {
                Option::Some(c) => is_ident_char(c),
                Option::None => false,
            },
    {
        if let Option::Some(c) = ch {
            ('a' <= c && c <= 'z') || ('A' <= c && c <= 'Z') || ('0' <= c && c <= '9') || c == '_'
        } else {
            false
        }
    }

    /// Scans the rest of a string literal whose opening quote was just
    /// consumed, as [`string_end`] describes: on success the token, with
    /// the text between the quotes as its payload, is appended; at end of
    /// input the unterminated-string error is returned instead.
    fn string(&mut self) -> (r: Result<(), LaxError>)
        requires
            old(self).wf(),
            old(self).start < old(self).current,
        ensures
            final (self).wf(),
            final (self).source == old(self).source,
            final (self).text == old(self).text,
            final (self).start == old(self).start,
            old(self).current <= final (self).current,
            match string_end(old(self).source@, old(self).current as int, old(self).line as int) {
                Result::Ok((j, l2)) => {
                    &&& r is Ok
                    &&& final (self).current == j
                    &&& final (self).line == l2
                    &&& final (self).toks() == old(self).toks().push(
                        TokenV {
                            t_type: TokenType::String,
                            lexeme: old(self).source@.subrange(old(self).start as int, j),
                            literal: Option::Some(
                                ValueV::Str(
                                    old(self).source@.subrange(old(self).start + 1 as int, j - 1),
                                ),
                            ),
                            line: l2,
                        },
                    )
                },
                Result::Err(l2) => {
                    &&& r matches Result::Err(e) && e@ == plain_error(l2, "Unterminated string"@)
                    &&& final (self).current == old(self).source@.len()
                    &&& final (self).line == l2
                    &&& final (self).toks() == old(self).toks()
                },
            },
    {
        loop
            invariant
                self.wf(),
                self.source == old(self).source,
                self.text == old(self).text,
                self.start == old(self).start,
                self.tokens == old(self).tokens,
                old(self).start < self.current,
                old(self).current <= self.current,
                string_end(self.source@, old(self).current as int, old(self).line as int)
                    == string_end(self.source@, self.current as int, self.line as int),
            ensures
                self.wf(),
                self.source == old(self).source,
                self.text == old(self).text,
                self.start == old(self).start,
                self.tokens == old(self).tokens,
                old(self).start < self.current,
                string_end(self.source@, old(self).current as int, old(self).line as int)
                    == string_end(self.source@, self.current as int, self.line as int),
                self.current == self.source@.len() || self.source@[self.current as int] == '"',
            decreases self.source@.len() - self.current,
        {
            match self.peek() {
                Option::Some(ch) => {
                    if ch == '"' {
                        break ;
                    }
                    if ch == '\n' {
                        self.line = self.line + 1;
                        let _ = self.advance();
                    } else {
                        let _ = self.advance();
                    }
                },
                Option::None => {
                    break ;
                },
            }
        }
        if self.is_at_end() {
            return Result::Err(LaxError::error(self.line, String::from_str("Unterminated string")),
            );
        }
        let _ = self.advance();
        let value = String::from_str(
            self.text.as_str().substring_char(self.start + 1, self.current - 1),
        );
        self.add_token(TokenType::String, Option::Some(Object::Str(value)));
        Result::Ok(())
    }

    /// Skips a block comment whose opening delimiter was just consumed,
    /// tracking nesting depth, as [`block_comment_end`] describes; at end
    /// of input the unterminated-comment error is returned.
    fn scan_comment(&mut self) -> (r: Result<(), LaxError>)
        requires
            old(self).wf(),
        ensures
            final (self).wf(),
            final (self).source == old(self).source,
            final (self).text == old(self).text,
            final (self).start == old(self).start,
            final (self).tokens == old(self).tokens,
            old(self).current <= final (self).current,
            match block_comment_end(
                old(self).source@,
                old(self).current as int,
                old(self).line as int,
                1,
            ) {
                Result::Ok((j, l2)) => {
                    &&& r is Ok
                    &&& final (self).current == j
                    &&& final (self).line == l2
                },
                Result::Err(l2) => {
                    &&& r matches Result::Err(e) && e@ == plain_error(l2, "Unterminated comment"@)
                    &&& final (self).current == old(self).source@.len()
                    &&& final (self).line == l2
                },
            },
    {
        let mut depth: usize = 1;
        loop
            invariant
                self.wf(),
                self.source == old(self).source,
                self.text == old(self).text,
                self.start == old(self).start,
                self.tokens == old(self).tokens,
                old(self).current <= self.current,
                1 <= depth,
                2 * (depth - 1) <= self.current - old(self).current,
                block_comment_end(
                    self.source@,
                    old(self).current as int,
                    old(self).line as int,
                    1,
                ) == block_comment_end(
                    self.source@,
                    self.current as int,
                    self.line as int,
                    depth as int,
                ),
            decreases self.source@.len() - self.current,
        {
            match self.peek() {
                Option::Some(c) => {
                    if c == '*' {
                        let _ = self.advance();
                        if self.matches('/') {
                            if depth == 1 {
                                return Result::Ok(());
                            }
                            depth = depth - 1;
                        }
                    } else if c == '/' {
                        let _ = self.advance();
                        if self.matches('*') {
                            depth = depth + 1;
                        }
                    } else if c == '\n' {
                        let _ = self.advance();
                        self.line = self.line + 1;
                    } else {
                        let _ = self.advance();
                    }
                },
                Option::None => {
                    return Result::Err(
                        LaxError::error(self.line, String::from_str("Unterminated comment")),
                    );
                },
            }
        }
    }

    /// Scans the rest of a numeric literal whose first digit was just
    /// consumed, as [`number_end`] describes, and appends the number
    /// token with the parsed value as its payload.
    fn number(&mut self) -> (r: Result<(), LaxError>)
        requires
            old(self).wf(),
            old(self).current == old(self).start + 1,
            old(self).start < old(self).source@.len(),
            is_digit_char(old(self).source@[old(self).start as int]),
        ensures
            final (self).wf(),
            final (self).source == old(self).source,
            final (self).text == old(self).text,
            final (self).start == old(self).start,
            r is Ok,
            old(self).current <= final (self).current,
            final (self).current == number_end(old(self).source@, old(self).start as int),
            final (self).line == old(self).line,
            final (self).toks() == old(self).toks().push(
                TokenV {
                    t_type: TokenType::Number,
                    lexeme: old(self).source@.subrange(
                        old(self).start as int,
                        number_end(old(self).source@, old(self).start as int),
                    ),
                    literal: Option::Some(
                        ValueV::Num(
                            float_parse(
                                old(self).source@.subrange(
                                    old(self).start as int,
                                    number_end(old(self).source@, old(self).start as int),
                                ),
                            )->Some_0,
                        ),
                    ),
                    line: old(self).line as int,
                },
            ),
    {
        proof {
            lemma_digits_end(self.source@, self.current as int);
        }
        while Self::is_digit(self.peek())
            invariant
                self.wf(),
                self.source == old(self).source,
                self.text == old(self).text,
                self.start == old(self).start,
                self.tokens == old(self).tokens,
                self.line == old(self).line,
                old(self).current <= self.current,
                digits_end(self.source@, old(self).current as int) == digits_end(
                    self.source@,
                    self.current as int,
                ),
            decreases self.source@.len() - self.current,
        {
            let _ = self.advance();
        }
        proof {
            lemma_digits_end(self.source@, self.current as int);
        }
        let at_dot = match self.peek() {
            Option::Some(c) => c == '.',
            Option::None => false,
        };
        if at_dot && Self::is_digit(self.peek_next()) {
            let _ = self.advance();
            while Self::is_digit(self.peek())
                invariant
                    self.wf(),
                    self.source == old(self).source,
                    self.text == old(self).text,
                    self.start == old(self).start,
                    self.tokens == old(self).tokens,
                    self.line == old(self).line,
                    old(self).current <= self.current,
                    digits_end(
                        self.source@,
                        digits_end(self.source@, old(self).current as int) + 1,
                    ) == digits_end(self.source@, self.current as int),
                decreases self.source@.len() - self.current,
            {
                let _ = self.advance();
            }
        }
        proof {
            lemma_number_lexeme(self.source@, self.start as int);
        }
        let lex = String::from_str(self.text.as_str().substring_char(self.start, self.current));
        let bits = match num_parse(lex.as_str()) {
            Option::Some(b) => b,
            Option::None => 0,  // cannot happen: a numeric lexeme always parses
        };
        self.add_token(TokenType::Number, Option::Some(Object::Num(bits)));
        Result::Ok(())
    }

    /// Scans the rest of an identifier whose first character was just
    /// consumed, and appends either the keyword token the lexeme names or
    /// an identifier token.
    fn identifier(&mut self)
        requires
            old(self).wf(),
            old(self).start < old(self).current,
        ensures
            final (self).wf(),
            final (self).source == old(self).source,
            final (self).text == old(self).text,
            final (self).start == old(self).start,
            old(self).current <= final (self).current,
            final (self).current == ident_end(old(self).source@, old(self).current as int),
            final (self).line == old(self).line,
            final (self).toks() == old(self).toks().push(
                {
                    let lex = old(self).source@.subrange(
                        old(self).start as int,
                        ident_end(old(self).source@, old(self).current as int),
                    );
                    TokenV {
                        t_type: match keyword_type(lex) {
                            Option::Some(t) => t,
                            Option::None => TokenType::Identifier,
                        },
                        lexeme: lex,
                        literal: Option::None,
                        line: old(self).line as int,
                    }
                },
            ),
    {
        while Self::is_alpha_numeric(self.peek())
            invariant
                self.wf(),
                self.source == old(self).source,
                self.text == old(self).text,
                self.start == old(self).start,
                self.tokens == old(self).tokens,
                self.line == old(self).line,
                old(self).current <= self.current,
                ident_end(self.source@, old(self).current as int) == ident_end(
                    self.source@,
                    self.current as int,
                ),
            decreases self.source@.len() - self.current,
        {
            let _ = self.advance();
        }
        let value = String::from_str(self.text.as_str().substring_char(self.start, self.current));
        match Self::keyword(value.as_str()) {
            Option::Some(t_type) => self.add_token(t_type, Option::None),
            Option::None => self.add_token(TokenType::Identifier, Option::None),
        }
    }

    /// Scans one token (or skips blanks and comments) from the cursor,
    /// exactly as [`scan_step`] describes: the cursor, the line counter,
    /// the token list and the reported error all follow the step.
    fn scan_token(&mut self) -> (r: Result<(), LaxError>)
        requires
            old(self).wf(),
            old(self).start == old(self).current,
            old(self).current < old(self).source@.len(),
        ensures
            final (self).wf(),
            final (self).source == old(self).source,
            final (self).text == old(self).text,
            final (self).start == old(self).start,
            old(self).current < final (self).current,
            ({
                let st = scan_step(old(self).source@, old(self).current as int, old(self).line as int);
                &&& final (self).current == st.next
                &&& final (self).line == st.line
                &&& final (self).toks() == old(self).toks() + match st.tok {
                    Option::Some(t) => seq![t],
                    Option::None => Seq::<TokenV>::empty(),
                }
                &&& match r {
                    Result::Ok(_) => st.err is None,
                    Result::Err(e) => st.err == Option::Some(e@),
                }
            }),
    {
        let c = self.advance();
        match c {
            '(' => {
                self.add_token(TokenType::LeftParen, Option::None);
            },
            ')' => {
                self.add_token(TokenType::RightParent, Option::None);
            },
            '{' => {
                self.add_token(TokenType::LeftBrace, Option::None);
            },
            '}' => {
                self.add_token(TokenType::RightBrace, Option::None);
            },
            ',' => {
                self.add_token(TokenType::Comma, Option::None);
            },
            '.' => {
                self.add_token(TokenType::Dot, Option::None);
            },
            '-' => {
                self.add_token(TokenType::Minus, Option::None);
            },
            '+' => {
                self.add_token(TokenType::Plus, Option::None);
            },
            ';' => {
                self.add_token(TokenType::Semicolon, Option::None);
            },
            '*' => {
                self.add_token(TokenType::Star, Option::None);
            },
            '!' => {
                let tok = if self.matches('=') {
                    TokenType::BangEqual
                } else {
                    TokenType::Bang
                };
                self.add_token(tok, Option::None);
            },
            '=' => {
                let tok = if self.matches('=') {
                    TokenType::EqualEqual
                } else {
                    TokenType::Equal
                };
                self.add_token(tok, Option::None);
            },
            '>' => {
                let tok = if self.matches('=') {
                    TokenType::GreaterEqual
                } else {
                    TokenType::Greater
                };
                self.add_token(tok, Option::None);
            },
            '<' => {
                let tok = if self.matches('=') {
                    TokenType::LessEqual
                } else {
                    TokenType::Less
                };
                self.add_token(tok, Option::None);
            },
            '/' => {
                if self.matches('/') {
                    // The comment runs to the end of the line.
                    loop
                        invariant
                            self.wf(),
                            self.source == old(self).source,
                            self.text == old(self).text,
                            self.start == old(self).start,
                            self.tokens == old(self).tokens,
                            self.line == old(self).line,
                            old(self).current + 2 <= self.current,
                            line_comment_end(self.source@, old(self).current + 2) == line_comment_end(
                                self.source@,
                                self.current as int,
                            ),
                        ensures
                            self.wf(),
                            self.source == old(self).source,
                            self.text == old(self).text,
                            self.start == old(self).start,
                            self.tokens == old(self).tokens,
                            self.line == old(self).line,
                            old(self).current + 2 <= self.current,
                            self.current == line_comment_end(self.source@, old(self).current + 2),
                        decreases self.source@.len() - self.current,
                    {
                        match self.peek() {
                            Option::Some(ch) => {
                                if ch != '\n' {
                                    let _ = self.advance();
                                } else {
                                    break ;
                                }
                            },
                            Option::None => {
                                break ;
                            },
                        }
                    }
                } else if self.matches('*') {
                    self.scan_comment()?;
                } else {
                    self.add_token(TokenType::Slash, Option::None);
                }
            },
            ' ' | '\r' | '\t' => {},
            '\n' => {
                self.line = self.line + 1;
            },
            '"' => {
                self.string()?;
            },
            _ => {
                if '0' <= c && c <= '9' {
                    self.number()?;
                } else if ('a' <= c && c <= 'z') || ('A' <= c && c <= 'Z') || c == '_' {
                    self.identifier();
                } else {
                    return Result::Err(
                        LaxError::error(self.line, String::from_str("Unexpected character.")),
                    );
                }
            },
        }
        Result::Ok(())
    }

    /// Scans the whole source: tokens are produced in one left-to-right
    /// pass, scanning continues past lexical faults, and exactly one
    /// end-of-input marker is appended, as [`scan_result`] describes.
    /// The token sequence is returned when no fault occurred, the most
    /// recent fault otherwise; each fault is reported when it is met.
    pub fn scan_tokens(self) -> (r: Result<Vec<Token>, LaxError>)
        requires
            self.wf(),
            self.current == 0,
            self.line == 1,
            self.tokens@.len() == 0,
        ensures
            match r {
                Result::Ok(toks) => {
                    &&& scan_result(self.source@).err is None
                    &&& toks@.map_values(|t: Token| t@) == scan_result(self.source@).toks
                },
                Result::Err(e) => scan_result(self.source@).err == Option::Some(e@),
            },
    {
        let mut this = self;
        let ghost src = this.source@;
        let mut had_error: Option<LaxError> = Option::None;
        while !this.is_at_end()
            invariant
                this.wf(),
                this.source@ == src,
                scan_spec(src, 0, 1).toks == this.toks() + scan_spec(
                    src,
                    this.current as int,
                    this.line as int,
                ).toks,
                scan_spec(src, 0, 1).err == if scan_spec(
                    src,
                    this.current as int,
                    this.line as int,
                ).err is Some {
                    scan_spec(src, this.current as int, this.line as int).err
                } else {
                    match had_error {
                        Option::Some(e) => Option::Some(e@),
                        Option::None => Option::<ErrV>::None,
                    }
                },
                scan_spec(src, 0, 1).end_line == scan_spec(
                    src,
                    this.current as int,
                    this.line as int,
                ).end_line,
            decreases src.len() - this.current,
        {
            this.start = this.current;
            let ghost pre_toks = this.toks();
            match this.scan_token() {
                Result::Ok(_) => {},
                Result::Err(err) => {
                    had_error = Option::Some(err);
                },
            }
            proof {
                assert(scan_spec(src, 0, 1).toks =~= this.toks() + scan_spec(
                    src,
                    this.current as int,
                    this.line as int,
                ).toks);
            }
        }
        this.tokens.push(Token::eof(this.line));
        proof {
            assert(this.toks() =~= scan_result(src).toks);
        }
        if let Option::Some(e) = had_error {
            Result::Err(e)
        } else {
            Result::Ok(this.tokens)
        }
    }

    /// Looks a collected lexeme up in the keyword table.
    fn keyword(check: &str) -> (r: Option<TokenType>)
        ensures
            r == keyword_type(check@),
    {
        let c = String::from_str(check);
        if c == String::from_str("class") {
            Option::Some(TokenType::Class)
        } else if c == String::from_str("else") {
            Option::Some(TokenType::Else)
        } else if c == String::from_str("if") {
            Option::Some(TokenType::If)
        } else if c == String::from_str("false") {
            Option::Some(TokenType::False)
        } else if c == String::from_str("true") {
            Option::Some(TokenType::True)
        } else if c == String::from_str("fun") {
            Option::Some(TokenType::Fun)
        } else if c == String::from_str("for") {
            Option::Some(TokenType::For)
        } else if c == String::from_str("loop") {
            Option::Some(TokenType::Loop)
        } else if c == String::from_str("while") {
            Option::Some(TokenType::While)
        } else if c == String::from_str("break") {
            Option::Some(TokenType::Break)
        } else if c == String::from_str("continue") {
            Option::Some(TokenType::Continue)
        } else if c == String::from_str("this") {
            Option::Some(TokenType::This)
        } else if c == String::from_str("super") {
            Option::Some(TokenType::Super)
        } else if c == String::from_str("nil") {
            Option::Some(TokenType::Nil)
        } else if c == String::from_str("var") {
            Option::Some(TokenType::Var)
        } else if c == String::from_str("val") {
            Option::Some(TokenType::Val)
        } else if c == String::from_str("not") {
            Option::Some(TokenType::Not)
        } else if c == String::from_str("or") {
            Option::Some(TokenType::Or)
        } else if c == String::from_str("and") {
            Option::Some(TokenType::And)
        } else if c == String::from_str("print") {
            Option::Some(TokenType::Print)
        } else if c == String::from_str("is") {
            Option::Some(TokenType::Is)
        } else if c == String::from_str("in") {
            Option::Some(TokenType::In)
        } else if c == String::from_str("return") {
            Option::Some(TokenType::Return)
        } else {
            Option::None
        }
    }
}

} // verus!
