use rustc_apfloat::Float;
use vstd::prelude::*;
use vstd::string::StrSliceExecFns;

verus! {

// Numbers are carried as the 64 bits of their IEEE 754 binary64
// representation.  Every operation on them is delegated to
// `rustc_apfloat`'s software implementation of that format, which works
// directly on bit patterns; each operation's result is named by an
// uninterpreted function of the operand bits.
/// The bits of the IEEE 754 sum of two numbers given by their bits.
pub uninterp spec fn float_add(a: u64, b: u64) -> u64;

/// The bits of the IEEE 754 difference of two numbers given by their bits.
pub uninterp spec fn float_sub(a: u64, b: u64) -> u64;

/// The bits of the IEEE 754 product of two numbers given by their bits.
pub uninterp spec fn float_mul(a: u64, b: u64) -> u64;

/// The bits of the IEEE 754 quotient of two numbers given by their bits.
pub uninterp spec fn float_div(a: u64, b: u64) -> u64;

/// The bits of the IEEE 754 negation of a number given by its bits.
pub uninterp spec fn float_neg(a: u64) -> u64;

/// The IEEE 754 `<` comparison on two numbers given by their bits.
pub uninterp spec fn float_lt(a: u64, b: u64) -> bool;

/// The IEEE 754 `<=` comparison on two numbers given by their bits.
pub uninterp spec fn float_le(a: u64, b: u64) -> bool;

/// The IEEE 754 `>` comparison on two numbers given by their bits.
pub uninterp spec fn float_gt(a: u64, b: u64) -> bool;

/// The IEEE 754 `>=` comparison on two numbers given by their bits.
pub uninterp spec fn float_ge(a: u64, b: u64) -> bool;

/// The IEEE 754 equality of two numbers given by their bits.
pub uninterp spec fn float_eq(a: u64, b: u64) -> bool;

/// What parsing a piece of text as a number yields: the bits of the
/// nearest binary64 value, or `None` when the text is not numeric.  The
/// accepted grammar is the software float library's own: signed decimal
/// or hexadecimal forms with an optional exponent, and no word forms for
/// infinities or NaN.
pub uninterp spec fn float_parse(s: Seq<char>) -> Option<u64>;

/// The decimal rendering of a number given by its bits, rounded to the
/// given number of significant digits (`0` asks for the renderer's
/// natural precision).
pub uninterp spec fn float_fmt(bits: u64, precision: int) -> Seq<char>;

/// A numeric lexeme as the scanner produces it: one or more decimal
/// digits, optionally followed by a decimal point and one or more
/// further digits.
pub open spec fn is_number_lexeme(s: Seq<char>) -> bool {
    ||| (s.len() >= 1 && forall|i: int| 0 <= i < s.len() ==> is_digit_char(#[trigger] s[i]))
    ||| (exists|k: int|
        {
            &&& 1 <= k < s.len() - 1
            &&& s[k] == '.'
            &&& forall|i: int| 0 <= i < s.len() && i != k ==> is_digit_char(#[trigger] s[i])
        })
}

/// Whether a character is a decimal digit.
pub open spec fn is_digit_char(c: char) -> bool {
    '0' <= c <= '9'
}

/// Relies on `rustc_apfloat::ieee::Double`'s addition (IEEE 754 binary64,
/// round to nearest, ties to even): the result depends on the operand
/// bits alone.
#[verifier::external_body]
pub(crate) fn num_add(a: u64, b: u64) -> (r: u64)
    ensures
        r == float_add(a, b),
{
    let x = rustc_apfloat::ieee::Double::from_bits(a as u128);
    let y = rustc_apfloat::ieee::Double::from_bits(b as u128);
    (x + y).value.to_bits() as u64
}

/// Relies on `rustc_apfloat::ieee::Double`'s subtraction: the result
/// depends on the operand bits alone.
#[verifier::external_body]
pub(crate) fn num_sub(a: u64, b: u64) -> (r: u64)
    ensures
        r == float_sub(a, b),
{
    let x = rustc_apfloat::ieee::Double::from_bits(a as u128);
    let y = rustc_apfloat::ieee::Double::from_bits(b as u128);
    (x - y).value.to_bits() as u64
}

/// Relies on `rustc_apfloat::ieee::Double`'s multiplication: the result
/// depends on the operand bits alone.
#[verifier::external_body]
pub(crate) fn num_mul(a: u64, b: u64) -> (r: u64)
    ensures
        r == float_mul(a, b),
{
    let x = rustc_apfloat::ieee::Double::from_bits(a as u128);
    let y = rustc_apfloat::ieee::Double::from_bits(b as u128);
    (x * y).value.to_bits() as u64
}

/// Relies on `rustc_apfloat::ieee::Double`'s division: the result depends
/// on the operand bits alone.  Division by zero yields an infinity or a
/// NaN, never a fault.
#[verifier::external_body]
pub(crate) fn num_div(a: u64, b: u64) -> (r: u64)
    ensures
        r == float_div(a, b),
{
    let x = rustc_apfloat::ieee::Double::from_bits(a as u128);
    let y = rustc_apfloat::ieee::Double::from_bits(b as u128);
    (x / y).value.to_bits() as u64
}

/// Relies on `rustc_apfloat::ieee::Double`'s negation: the result depends
/// on the operand bits alone.
#[verifier::external_body]
pub(crate) fn num_neg(a: u64) -> (r: u64)
    ensures
        r == float_neg(a),
{
    (-rustc_apfloat::ieee::Double::from_bits(a as u128)).to_bits() as u64
}

/// Relies on `rustc_apfloat::ieee::Double`'s IEEE 754 ordering for `<`:
/// the result depends on the operand bits alone.
#[verifier::external_body]
pub(crate) fn num_lt(a: u64, b: u64) -> (r: bool)
    ensures
        r == float_lt(a, b),
{
    rustc_apfloat::ieee::Double::from_bits(a as u128) < rustc_apfloat::ieee::Double::from_bits(
        b as u128,
    )
}

/// Relies on `rustc_apfloat::ieee::Double`'s IEEE 754 ordering for `<=`:
/// the result depends on the operand bits alone.
#[verifier::external_body]
pub(crate) fn num_le(a: u64, b: u64) -> (r: bool)
    ensures
        r == float_le(a, b),
{
    rustc_apfloat::ieee::Double::from_bits(a as u128) <= rustc_apfloat::ieee::Double::from_bits(
        b as u128,
    )
}

/// Relies on `rustc_apfloat::ieee::Double`'s IEEE 754 ordering for `>`:
/// the result depends on the operand bits alone.
#[verifier::external_body]
pub(crate) fn num_gt(a: u64, b: u64) -> (r: bool)
    ensures
        r == float_gt(a, b),
{
    rustc_apfloat::ieee::Double::from_bits(a as u128) > rustc_apfloat::ieee::Double::from_bits(
        b as u128,
    )
}

/// Relies on `rustc_apfloat::ieee::Double`'s IEEE 754 ordering for `>=`:
/// the result depends on the operand bits alone.
#[verifier::external_body]
pub(crate) fn num_ge(a: u64, b: u64) -> (r: bool)
    ensures
        r == float_ge(a, b),
{
    rustc_apfloat::ieee::Double::from_bits(a as u128) >= rustc_apfloat::ieee::Double::from_bits(
        b as u128,
    )
}

/// Relies on `rustc_apfloat::ieee::Double`'s IEEE 754 equality (so a NaN
/// equals nothing, and the two zeros are equal): the result depends on
/// the operand bits alone.
#[verifier::external_body]
pub(crate) fn num_eq(a: u64, b: u64) -> (r: bool)
    ensures
        r == float_eq(a, b),
{
    rustc_apfloat::ieee::Double::from_bits(a as u128) == rustc_apfloat::ieee::Double::from_bits(
        b as u128,
    )
}

/// Relies on `rustc_apfloat::ieee::Double`'s decimal parsing, which its
/// source shows accepts every string of decimal digits with at most one
/// embedded decimal point; the rounded result depends on the text alone.
#[verifier::external_body]
pub(crate) fn num_parse(s: &str) -> (r: Option<u64>)
    ensures
        r == float_parse(s@),
        is_number_lexeme(s@) ==> r is Some,
{
    match s.parse::<rustc_apfloat::ieee::Double>() {
        Ok(d) => Some(d.to_bits() as u64),
        Err(_) => None,
    }
}

/// Relies on `rustc_apfloat::ieee::Double`'s decimal rendering at the
/// given number of significant digits (`0` leaves the precision to the
/// renderer), with room for 400 zeros of positional padding before the
/// renderer would fall back to scientific notation: the text depends on
/// the bits and the precision alone.
#[verifier::external_body]
pub(crate) fn num_fmt(bits: u64, precision: usize) -> (r: String)
    ensures
        r@ == float_fmt(bits, precision as int),
{
    let d = rustc_apfloat::ieee::Double::from_bits(bits as u128);
    if precision == 0 {
        format!("{:1$}", d, 400)
    } else {
        format!("{:1$.2$}", d, 400, precision)
    }
}

/// Whether the character occurs in the text.
pub open spec fn has_char(s: Seq<char>, c: char) -> bool {
    exists|i: int| 0 <= i < s.len() && s[i] == c
}

/// Whether the character occurs in the text.
fn contains_char(s: &str, c: char) -> (r: bool)
    ensures
        r == has_char(s@, c),
{
    let n = s.unicode_len();
    let mut i: usize = 0;
    while i < n
        invariant
            i <= n == s@.len(),
            forall|k: int| 0 <= k < i ==> s@[k] != c,
        decreases n - i,
    {
        if s.get_char(i) == c {
            return true;
        }
        i = i + 1;
    }
    false
}

/// The decimal rendering a number is displayed with: the positional
/// (non-scientific) rendering with the fewest significant digits that
/// parses back to exactly the same bits.  Every finite number has one
/// within 350 digits, where the search stops; past it (a NaN or an
/// infinity, whose renderings are not numeric lexemes) the renderer's
/// natural form stands: `NaN`, `+Inf` or `-Inf`.
pub open spec fn float_display(bits: u64) -> Seq<char> {
    float_display_from(bits, 1)
}

/// The display search of [`float_display`], starting at `p` significant
/// digits.  A candidate is taken when it parses back to the same bits
/// and carries no scientific-notation marker.
pub open spec fn float_display_from(bits: u64, p: int) -> Seq<char>
    decreases 351 - p,
{
    if p > 350 {
        float_fmt(bits, 0)
    } else if float_parse(float_fmt(bits, p)) == Option::<u64>::Some(bits) && !has_char(
        float_fmt(bits, p),
        'E',
    ) {
        float_fmt(bits, p)
    } else {
        float_display_from(bits, p + 1)
    }
}

/// Renders a number's bits as the positional decimal text with the
/// fewest digits that reads back as exactly the same number.
pub fn num_display(bits: u64) -> (r: String)
    ensures
        r@ == float_display(bits),
{
    let mut p: usize = 1;
    while p <= 350
        invariant
            1 <= p <= 351,
            float_display(bits) == float_display_from(bits, p as int),
        decreases 351 - p,
    {
        let s = num_fmt(bits, p);
        let positional = !contains_char(s.as_str(), 'E');
        let back = num_parse(s.as_str());
        let same = match back {
            Option::Some(b) => b == bits,
            Option::None => false,
        };
        if same && positional {
            return s;
        }
        p = p + 1;
    }
    num_fmt(bits, 0)
}

} // verus!
