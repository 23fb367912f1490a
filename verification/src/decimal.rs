//! Arbitrary-precision decimal arithmetic from `dashu_float`.
//!
//! A decimal value is held as its exact scientific text (what `{:e}` writes
//! for a `DBig`) together with the precision of its context, in decimal
//! digits. Each function here converts its texts to `DBig` values carrying
//! exactly those digits and contexts, makes one call into `dashu_float`, and
//! writes the result back as exact text with the result's context precision.
//! What that call returns is named by a spec function of the texts and
//! precisions alone.
//!
//! `dashu_float` keeps exponents in an `isize` and panics when one
//! overflows, so every text handed to it is first held to
//! [`decimal_in_range`]: at most a sixteenth of `isize::MAX` characters, and
//! a written scale below `10^17` in magnitude (below `10^8` where `isize` has
//! 32 bits). Every exponent met while parsing then stays within a tenth of
//! the `isize` range, and within a third of it through one operation.
//! Precisions are bounded the same way. The bounds scale with `isize`, so
//! on a 64-bit target only values whose exponents approach the range that
//! `dashu_float` itself can carry are refused.

use std::str::FromStr;

use dashu_float::DBig;
use vstd::prelude::*;

use crate::text::chars_of;

verus! {

/// The longest decimal text handed to `dashu_float`, the largest context
/// precision in decimal digits, and the largest decimal exponent of a
/// constant built from its parts: a sixteenth of the largest `isize`.
pub open spec fn decimal_limit() -> int {
    isize::MAX / 16
}

/// The limit of [`decimal_limit`].
pub fn decimal_limit_value() -> (limit: usize)
    ensures
        limit == decimal_limit(),
{
    (isize::MAX / 16) as usize
}

/// How many characters a scale marker and its scale may take at the end of
/// a decimal text: the marker and 17 characters (a scale below `10^17` in
/// magnitude) where `isize` has 64 bits, the marker and 8 where it has 32.
pub open spec fn scale_width() -> int {
    if usize::BITS == 64 { 18 } else { 9 }
}

/// The characters `DBig::from_str` reads as the start of a decimal scale.
pub open spec fn is_scale_marker(c: char) -> bool {
    c == 'e' || c == 'E' || c == '@'
}

/// A text whose exponents stay within a tenth of the `isize` range wherever
/// `dashu_float` reads it, and within a third of it through one operation:
/// at most [`decimal_limit`] characters, and every scale marker among the
/// last [`scale_width`] characters.
pub open spec fn decimal_in_range(text: Seq<char>) -> bool {
    &&& text.len() <= decimal_limit()
    &&& forall|i: int| 0 <= i < text.len() && is_scale_marker(#[trigger] text[i]) ==> text.len() - i <= scale_width()
}

/// Whether `text` is in range (see [`decimal_in_range`]).
pub fn decimal_text_in_range(text: &str) -> (in_range: bool)
    ensures
        in_range == decimal_in_range(text@),
{
    let chars = chars_of(text);
    if chars.len() > decimal_limit_value() {
        return false;
    }
    let width: usize = if usize::BITS == 64 { 18 } else { 9 };
    let mut index: usize = 0;
    while index < chars.len()
        invariant
            chars@ == text@,
            index <= chars@.len(),
            chars@.len() <= decimal_limit(),
            width == scale_width(),
            forall|i: int| 0 <= i < index && is_scale_marker(#[trigger] chars@[i]) ==> chars@.len() - i <= scale_width(),
        decreases chars@.len() - index,
    {
        let c = chars[index];
        if (c == 'e' || c == 'E' || c == '@') && chars.len() - index > width {
            return false;
        }
        index += 1;
    }
    true
}

/// The number of ASCII digits before the first scale marker: at least the
/// number of significant digits `dashu_float` reads from `text`.
pub open spec fn digits_before_scale(text: Seq<char>) -> nat
    decreases text.len(),
{
    if text.len() == 0 || is_scale_marker(text[0]) {
        0
    } else {
        (if '0' <= text[0] <= '9' { 1nat } else { 0nat }) + digits_before_scale(text.drop_first())
    }
}

/// The digits of `text` before its scale (see [`digits_before_scale`]).
pub fn count_digits_before_scale(text: &str) -> (count: usize)
    ensures
        count as nat == digits_before_scale(text@),
{
    let chars = chars_of(text);
    let mut index: usize = 0;
    let mut count: usize = 0;
    assert(text@.subrange(0, text@.len() as int) =~= text@);
    while index < chars.len()
        invariant
            chars@ == text@,
            index <= chars@.len(),
            count <= index,
            digits_before_scale(text@) == count + digits_before_scale(text@.subrange(index as int, text@.len() as int)),
        decreases chars@.len() - index,
    {
        let c = chars[index];
        assert(text@.subrange(index as int, text@.len() as int).drop_first()
            =~= text@.subrange(index as int + 1, text@.len() as int));
        if c == 'e' || c == 'E' || c == '@' {
            return count;
        }
        if '0' <= c && c <= '9' {
            count += 1;
        }
        index += 1;
    }
    count
}

/// `DBig::from_str` on `text`: the exact text of the value and its context
/// precision (the number of digits written), or the parse error's message.
pub uninterp spec fn decimal_parse(text: Seq<char>) -> Result<(Seq<char>, nat), Seq<char>>;

/// `with_precision(digits)` on the value of `text` at context precision
/// `context`: rounded when the context is wider than `digits`.
pub uninterp spec fn decimal_round(text: Seq<char>, context: nat, digits: nat) -> Seq<char>;

/// `&a + &b`: the exact text and context precision of the sum.
pub uninterp spec fn decimal_sum(a: Seq<char>, a_context: nat, b: Seq<char>, b_context: nat) -> (Seq<char>, nat);

/// `&a - &b`: the exact text and context precision of the difference.
pub uninterp spec fn decimal_difference(a: Seq<char>, a_context: nat, b: Seq<char>, b_context: nat) -> (Seq<char>, nat);

/// `&a * &b`: the exact text and context precision of the product.
pub uninterp spec fn decimal_product(a: Seq<char>, a_context: nat, b: Seq<char>, b_context: nat) -> (Seq<char>, nat);

/// `&a / &b`: the exact text and context precision of the quotient.
pub uninterp spec fn decimal_quotient(a: Seq<char>, a_context: nat, b: Seq<char>, b_context: nat) -> (Seq<char>, nat);

/// `&a * factor` for an `i32` factor: the exact text and context precision.
pub uninterp spec fn decimal_scaled(a: Seq<char>, a_context: nat, factor: i32) -> (Seq<char>, nat);

/// `value < DBig::ZERO`.
pub uninterp spec fn decimal_is_negative(text: Seq<char>) -> bool;

/// `value == DBig::ZERO`.
pub uninterp spec fn decimal_is_zero(text: Seq<char>) -> bool;

/// `format!("{:.*e}", fractional_digits, value)`: scientific notation with
/// `fractional_digits` digits after the point.
pub uninterp spec fn decimal_scientific(text: Seq<char>, fractional_digits: nat) -> Seq<char>;

/// `DBig::from_parts(significand, exponent).with_precision(digits)`: the
/// value `significand × 10^exponent` at context precision `digits`.
pub uninterp spec fn decimal_from_parts(significand: i64, exponent: isize, digits: nat) -> Seq<char>;

/// A text that `dashu_float` reads back: in range and accepted by its parser.
pub open spec fn decimal_readable(text: Seq<char>) -> bool {
    decimal_in_range(text) && decimal_parse(text) is Ok
}

/// A context precision `dashu_float` is handed: limited and bounded.
pub open spec fn context_in_range(context: nat) -> bool {
    1 <= context <= decimal_limit()
}

/// The texts of a parsed value or an error.
pub open spec fn parsed_text(result: Result<(String, usize), String>) -> Result<(Seq<char>, nat), Seq<char>> {
    match result {
        Ok((value, context)) => Ok((value@, context as nat)),
        Err(message) => Err(message@),
    }
}

/// Parses decimal text with `DBig::from_str`, giving the exact text of the
/// value and its context precision, or the message of the parse error.
/// What `{:e}` writes is read back by `from_str` (its documented
/// `aaa.bbbEcc` form), so a parsed value's text parses.
#[verifier::external_body]
pub(crate) fn parse_decimal(text: &str) -> (parsed: Result<(String, usize), String>)
    requires
        decimal_in_range(text@),
    ensures
        parsed_text(parsed) == decimal_parse(text@),
        parsed matches Ok((value, _)) ==> decimal_parse(value@) is Ok,
{
    match DBig::from_str(text) {
        Ok(value) => Ok((format!("{:e}", value), value.precision())),
        Err(error) => Err(error.to_string()),
    }
}

/// Rounds a value held at context precision `context` to `digits` digits
/// with `with_precision`.
#[verifier::external_body]
pub(crate) fn round_decimal(text: &str, context: usize, digits: usize) -> (rounded: String)
    requires
        decimal_readable(text@),
        context_in_range(context as nat),
        context_in_range(digits as nat),
    ensures
        rounded@ == decimal_round(text@, context as nat, digits as nat),
        decimal_parse(rounded@) is Ok,
{
    let value = DBig::from_repr_const(DBig::from_str(text).unwrap().into_repr()).with_precision(context).value();
    format!("{:e}", value.with_precision(digits).value())
}

/// Adds two values, each at its own context precision.
#[verifier::external_body]
pub(crate) fn add_decimals(a: &str, a_context: usize, b: &str, b_context: usize) -> (sum: (String, usize))
    requires
        decimal_readable(a@),
        decimal_readable(b@),
        context_in_range(a_context as nat),
        context_in_range(b_context as nat),
    ensures
        (sum.0@, sum.1 as nat) == decimal_sum(a@, a_context as nat, b@, b_context as nat),
        decimal_parse(sum.0@) is Ok,
{
    let a = DBig::from_repr_const(DBig::from_str(a).unwrap().into_repr()).with_precision(a_context).value();
    let b = DBig::from_repr_const(DBig::from_str(b).unwrap().into_repr()).with_precision(b_context).value();
    let sum = &a + &b;
    (format!("{:e}", sum), sum.precision())
}

/// Subtracts two values, each at its own context precision.
#[verifier::external_body]
pub(crate) fn subtract_decimals(a: &str, a_context: usize, b: &str, b_context: usize) -> (difference: (String, usize))
    requires
        decimal_readable(a@),
        decimal_readable(b@),
        context_in_range(a_context as nat),
        context_in_range(b_context as nat),
    ensures
        (difference.0@, difference.1 as nat) == decimal_difference(a@, a_context as nat, b@, b_context as nat),
        decimal_parse(difference.0@) is Ok,
{
    let a = DBig::from_repr_const(DBig::from_str(a).unwrap().into_repr()).with_precision(a_context).value();
    let b = DBig::from_repr_const(DBig::from_str(b).unwrap().into_repr()).with_precision(b_context).value();
    let difference = &a - &b;
    (format!("{:e}", difference), difference.precision())
}

/// Multiplies two values, each at its own context precision.
#[verifier::external_body]
pub(crate) fn multiply_decimals(a: &str, a_context: usize, b: &str, b_context: usize) -> (product: (String, usize))
    requires
        decimal_readable(a@),
        decimal_readable(b@),
        context_in_range(a_context as nat),
        context_in_range(b_context as nat),
    ensures
        (product.0@, product.1 as nat) == decimal_product(a@, a_context as nat, b@, b_context as nat),
        decimal_parse(product.0@) is Ok,
{
    let a = DBig::from_repr_const(DBig::from_str(a).unwrap().into_repr()).with_precision(a_context).value();
    let b = DBig::from_repr_const(DBig::from_str(b).unwrap().into_repr()).with_precision(b_context).value();
    let product = &a * &b;
    (format!("{:e}", product), product.precision())
}

/// Divides two values, each at its own context precision. `dashu_float`
/// panics on a zero divisor, so it is ruled out, and its division expects a
/// dividend with at most one digit beyond its context (as every rounded
/// result has).
#[verifier::external_body]
pub(crate) fn divide_decimals(a: &str, a_context: usize, b: &str, b_context: usize) -> (quotient: (String, usize))
    requires
        decimal_readable(a@),
        decimal_readable(b@),
        !decimal_is_zero(b@),
        digits_before_scale(a@) <= a_context + 1,
        context_in_range(a_context as nat),
        context_in_range(b_context as nat),
    ensures
        (quotient.0@, quotient.1 as nat) == decimal_quotient(a@, a_context as nat, b@, b_context as nat),
        decimal_parse(quotient.0@) is Ok,
{
    let a = DBig::from_repr_const(DBig::from_str(a).unwrap().into_repr()).with_precision(a_context).value();
    let b = DBig::from_repr_const(DBig::from_str(b).unwrap().into_repr()).with_precision(b_context).value();
    let quotient = &a / &b;
    (format!("{:e}", quotient), quotient.precision())
}

/// Multiplies a value by an integer factor.
#[verifier::external_body]
pub(crate) fn scale_decimal(a: &str, a_context: usize, factor: i32) -> (scaled: (String, usize))
    requires
        decimal_readable(a@),
        context_in_range(a_context as nat),
    ensures
        (scaled.0@, scaled.1 as nat) == decimal_scaled(a@, a_context as nat, factor),
        decimal_parse(scaled.0@) is Ok,
{
    let a = DBig::from_repr_const(DBig::from_str(a).unwrap().into_repr()).with_precision(a_context).value();
    let scaled = &a * factor;
    (format!("{:e}", scaled), scaled.precision())
}

/// Whether a value is below zero.
#[verifier::external_body]
pub(crate) fn decimal_below_zero(text: &str) -> (negative: bool)
    requires
        decimal_readable(text@),
    ensures
        negative == decimal_is_negative(text@),
{
    DBig::from_str(text).unwrap() < DBig::ZERO
}

/// Whether a value is zero.
#[verifier::external_body]
pub(crate) fn decimal_equals_zero(text: &str) -> (zero: bool)
    requires
        decimal_readable(text@),
    ensures
        zero == decimal_is_zero(text@),
{
    DBig::from_str(text).unwrap() == DBig::ZERO
}

/// Writes a value in scientific notation with a fixed number of digits after
/// the point.
#[verifier::external_body]
pub(crate) fn scientific_decimal(text: &str, fractional_digits: usize) -> (written: String)
    requires
        decimal_readable(text@),
        fractional_digits <= decimal_limit(),
    ensures
        written@ == decimal_scientific(text@, fractional_digits as nat),
{
    let value = DBig::from_str(text).unwrap();
    format!("{:.*e}", fractional_digits, value)
}

/// The value `significand × 10^exponent` at context precision `digits`.
#[verifier::external_body]
pub(crate) fn decimal_of_parts(significand: i64, exponent: isize, digits: usize) -> (value: String)
    requires
        -decimal_limit() <= exponent <= decimal_limit(),
        context_in_range(digits as nat),
    ensures
        value@ == decimal_from_parts(significand, exponent, digits as nat),
        decimal_parse(value@) is Ok,
{
    format!("{:e}", DBig::from_parts(significand.into(), exponent).with_precision(digits).value())
}

} // verus!
