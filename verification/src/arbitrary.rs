//! Arbitrary-precision coordinates for deep navigation: the precision a
//! zoom depth needs, and decimal reals and complex numbers carried at that
//! precision through `dashu_float`.

use vstd::prelude::*;

use crate::family::{FractalFamily, StartValue};
use crate::decimal::{
    add_decimals, context_in_range, count_digits_before_scale, decimal_below_zero, decimal_difference,
    decimal_equals_zero, decimal_from_parts, decimal_in_range, decimal_is_negative, decimal_is_zero,
    decimal_of_parts, decimal_parse, decimal_product, decimal_quotient, decimal_round, decimal_scaled,
    decimal_scientific, decimal_sum, decimal_text_in_range, digits_before_scale, divide_decimals,
    multiply_decimals, parse_decimal, round_decimal, scale_decimal, scientific_decimal, subtract_decimals,
    decimal_limit, decimal_limit_value,
};
use crate::text::chars_equal;
use crate::text::chars_of;

verus! {

/// Concrete acceptance target for the deep renderer.
pub const TARGET_DECIMAL_ZOOM_EXPONENT: u32 = 1_000;
/// Current user-selectable arbitrary-precision navigation ceiling.
pub const MAX_DECIMAL_ZOOM_EXPONENT: u32 = 5_000;
/// Digits kept beyond one per order of magnification.
pub const GUARD_DECIMAL_DIGITS: u32 = 32;
/// Fewest decimal digits any deep coordinate carries.
pub const MIN_DECIMAL_DIGITS: u32 = 48;

/// One digit per order of magnification plus the guard digits (saturating
/// at `u32::MAX`), and never fewer than the minimum.
pub open spec fn spec_decimal_digits(exponent: u32) -> nat {
    let guarded = if exponent as nat + GUARD_DECIMAL_DIGITS as nat > u32::MAX as nat {
        u32::MAX as nat
    } else {
        exponent as nat + GUARD_DECIMAL_DIGITS as nat
    };
    if guarded < MIN_DECIMAL_DIGITS as nat { MIN_DECIMAL_DIGITS as nat } else { guarded }
}

/// Decimal precision used at a given magnification.
///
/// One digit is required per order of magnification. Guard digits cover
/// coordinate transforms and reference-orbit error growth.
pub fn decimal_digits_for_zoom_exponent(exponent: u32) -> (digits: usize)
    ensures
        digits as nat == spec_decimal_digits(exponent),
{
    let guarded = exponent.saturating_add(GUARD_DECIMAL_DIGITS);
    let digits = if guarded < MIN_DECIMAL_DIGITS { MIN_DECIMAL_DIGITS } else { guarded };
    digits as usize
}

/// `ceil(digits × 3.322)`: a slightly high rational bound on
/// `digits × log2(10)`, so the binary precision never undershoots.
pub open spec fn spec_binary_bits(exponent: u32) -> nat {
    (spec_decimal_digits(exponent) * 3322 + 999) / 1000
}

/// Binary precision matching [`decimal_digits_for_zoom_exponent`]. On a
/// 32-bit target the count wraps modulo `2^32`, as the cast does.
pub fn binary_bits_for_zoom_exponent(exponent: u32) -> (bits: usize)
    ensures
        bits as nat == spec_binary_bits(exponent) % (usize::MAX as nat + 1),
{
    let digits = decimal_digits_for_zoom_exponent(exponent) as u64;
    let bits = (digits * 3_322 + 999) / 1_000;
    assert(bits as nat == spec_binary_bits(exponent));
    if bits <= usize::MAX as u64 {
        proof {
            vstd::arithmetic::div_mod::lemma_small_mod(bits as nat, usize::MAX as nat + 1);
        }
        bits as usize
    } else {
        (bits % (usize::MAX as u64 + 1)) as usize
    }
}

/// Deeper zooms never get less precision, every zoom gets at least the
/// minimum and one digit per decade beyond the guard, and the binary
/// precision covers the decimal one (3.322 bits per digit, rounded up).
pub proof fn precision_grows_with_depth(shallow: u32, deep: u32)
    requires
        shallow <= deep,
    ensures
        spec_decimal_digits(shallow) <= spec_decimal_digits(deep),
        spec_binary_bits(shallow) <= spec_binary_bits(deep),
        spec_decimal_digits(deep) >= MIN_DECIMAL_DIGITS,
        deep as nat + GUARD_DECIMAL_DIGITS as nat <= u32::MAX ==> spec_decimal_digits(deep) >= deep as nat + GUARD_DECIMAL_DIGITS as nat,
        spec_binary_bits(deep) * 1000 >= spec_decimal_digits(deep) * 3322,
{
    let a = spec_decimal_digits(shallow);
    let b = spec_decimal_digits(deep);
    assert((a * 3322 + 999) / 1000 <= (b * 3322 + 999) / 1000) by (nonlinear_arith)
        requires a <= b;
    assert(((b * 3322 + 999) / 1000) * 1000 >= b * 3322) by (nonlinear_arith);
}


/// A decimal value: its exact text and the precision of its context.
pub type DecimalView = (Seq<char>, nat);

/// A complex value: real part, imaginary part.
pub type ComplexView = (DecimalView, DecimalView);

/// An orbit state: `z`, the previous `z` and `c`.
pub type StateView = (ComplexView, ComplexView, ComplexView);

/// Whether the precision of `zoom_exponent` is one `dashu_float` is handed:
/// every zoom exponent where `isize` has 64 bits.
pub open spec fn carried_zoom_exponent(zoom_exponent: u32) -> bool {
    spec_decimal_digits(zoom_exponent) <= decimal_limit()
}

/// Whether the precision of `zoom_exponent` is carried (see
/// [`carried_zoom_exponent`]).
pub fn zoom_exponent_is_carried(zoom_exponent: u32) -> (carried: bool)
    ensures
        carried == carried_zoom_exponent(zoom_exponent),
{
    decimal_digits_for_zoom_exponent(zoom_exponent) <= decimal_limit_value()
}

/// What a deep decimal out of the range `dashu_float` can carry is told.
pub open spec fn out_of_range_message() -> Seq<char> {
    "deep decimal is out of range"@
}

/// A value held at context precision `context`, rounded to `digits`.
pub open spec fn deep_rounded(text: Seq<char>, context: nat, digits: nat) -> DecimalView {
    (decimal_round(text, context, digits), digits)
}

/// An exact result rounded to `digits`, when `dashu_float` can read it back.
pub open spec fn deep_result(exact: (Seq<char>, nat), digits: nat) -> Option<DecimalView> {
    if decimal_in_range(exact.0) && context_in_range(exact.1) {
        Some(deep_rounded(exact.0, exact.1, digits))
    } else {
        None
    }
}

/// Both operands can be handed to `dashu_float`.
pub open spec fn both_in_range(a: DecimalView, b: DecimalView) -> bool {
    decimal_in_range(a.0) && decimal_in_range(b.0)
}

/// `a + b`, rounded to the precision of `a`; `None` when an operand or the
/// exact sum is out of range.
pub open spec fn deep_add(a: DecimalView, b: DecimalView) -> Option<DecimalView> {
    if both_in_range(a, b) { deep_result(decimal_sum(a.0, a.1, b.0, b.1), a.1) } else { None }
}

/// `a - b`, rounded to the precision of `a`.
pub open spec fn deep_sub(a: DecimalView, b: DecimalView) -> Option<DecimalView> {
    if both_in_range(a, b) { deep_result(decimal_difference(a.0, a.1, b.0, b.1), a.1) } else { None }
}

/// `a × b`, rounded to the precision of `a`.
pub open spec fn deep_mul(a: DecimalView, b: DecimalView) -> Option<DecimalView> {
    if both_in_range(a, b) { deep_result(decimal_product(a.0, a.1, b.0, b.1), a.1) } else { None }
}

/// `a / b`, rounded to the precision of `a`; `None` also when `a` holds more
/// than one digit beyond its precision, which no rounded value does.
pub open spec fn deep_div(a: DecimalView, b: DecimalView) -> Option<DecimalView> {
    if both_in_range(a, b) && digits_before_scale(a.0) <= a.1 + 1 {
        deep_result(decimal_quotient(a.0, a.1, b.0, b.1), a.1)
    } else {
        None
    }
}

/// `a × factor`, rounded to the precision of `a`.
pub open spec fn deep_mul_i32(a: DecimalView, factor: i32) -> Option<DecimalView> {
    if decimal_in_range(a.0) { deep_result(decimal_scaled(a.0, a.1, factor), a.1) } else { None }
}

/// `|a|`.
pub open spec fn deep_abs(a: DecimalView) -> Option<DecimalView> {
    if !decimal_in_range(a.0) {
        None
    } else if decimal_is_negative(a.0) {
        deep_mul_i32(a, -1i32)
    } else {
        Some(a)
    }
}

/// The constant `significand × 10^exponent` at `digits` digits.
pub open spec fn deep_constant(significand: i64, exponent: isize, digits: nat) -> DecimalView {
    (decimal_from_parts(significand, exponent, digits), digits)
}

/// A decimal's text parsed at `digits` digits, or why it is refused.
pub open spec fn deep_parsed(value: Seq<char>, digits: nat) -> Result<DecimalView, Seq<char>> {
    if !decimal_in_range(value) {
        Err(out_of_range_message())
    } else {
        match decimal_parse(value) {
            Err(message) => Err(message),
            Ok(exact) => match deep_result(exact, digits) {
                Some(number) => Ok(number),
                None => Err(out_of_range_message()),
            },
        }
    }
}

/// The value `x` continues with, if any.
pub open spec fn then_real(x: Option<DecimalView>, f: spec_fn(DecimalView) -> Option<DecimalView>) -> Option<DecimalView> {
    match x {
        Some(v) => f(v),
        None => None,
    }
}

/// The view of an optional real.
pub open spec fn real_view(value: Option<DeepReal>) -> Option<DecimalView> {
    match value {
        Some(v) => Some(v@),
        None => None,
    }
}

/// A parsed real's view, or the error.
pub open spec fn parsed_real(value: Result<DeepReal, String>) -> Result<DecimalView, Seq<char>> {
    match value {
        Ok(v) => Ok(v@),
        Err(message) => Err(message@),
    }
}

/// An arbitrary-precision real: a decimal value and the number of decimal
/// digits every result computed from it is rounded to (the precision of its
/// context).
#[derive(Debug)]
pub struct DeepReal {
    decimal: String,
    decimal_digits: usize,
}

impl View for DeepReal {
    type V = DecimalView;

    /// The exact decimal text of the value and its precision.
    closed spec fn view(&self) -> DecimalView {
        (self.decimal@, self.decimal_digits as nat)
    }
}

impl DeepReal {
    /// Every value is carried at a limited precision within the range
    /// `dashu_float` is handed, and its text is one `dashu_float` wrote.
    #[verifier::type_invariant]
    spec fn well_formed(self) -> bool {
        &&& context_in_range(self.decimal_digits as nat)
        &&& decimal_parse(self.decimal@) is Ok
    }

    /// Parses a decimal at the precision [`decimal_digits_for_zoom_exponent`]
    /// gives for `zoom_exponent`. A text whose exponent `dashu_float` could
    /// not carry is refused.
    pub fn parse(value: &str, zoom_exponent: u32) -> (parsed: Result<Self, String>)
        requires
            carried_zoom_exponent(zoom_exponent),
        ensures
            parsed_real(parsed) == deep_parsed(value@, spec_decimal_digits(zoom_exponent)),
    {
        let decimal_digits = decimal_digits_for_zoom_exponent(zoom_exponent);
        Self::parse_at(value, decimal_digits)
    }

    fn parse_at(value: &str, decimal_digits: usize) -> (parsed: Result<Self, String>)
        requires
            context_in_range(decimal_digits as nat),
        ensures
            parsed_real(parsed) == deep_parsed(value@, decimal_digits as nat),
    {
        if !decimal_text_in_range(value) {
            return Err("deep decimal is out of range".to_owned());
        }
        match parse_decimal(value) {
            Ok((exact, context)) => {
                if !decimal_text_in_range(exact.as_str()) || context == 0 || context > decimal_limit_value() {
                    return Err("deep decimal is out of range".to_owned());
                }
                Ok(DeepReal { decimal: round_decimal(exact.as_str(), context, decimal_digits), decimal_digits })
            },
            Err(message) => Err(message),
        }
    }

    /// A decimal carried at the precision of `self`.
    pub fn decimal_like(&self, value: &str) -> (parsed: Result<Self, String>)
        ensures
            parsed_real(parsed) == deep_parsed(value@, self@.1),
    {
        proof {
            use_type_invariant(self);
        }
        Self::parse_at(value, self.decimal_digits)
    }

    /// The constant `significand × 10^exponent` at the precision of `self`.
    pub fn constant_like(&self, significand: i64, exponent: isize) -> (constant: Self)
        requires
            -decimal_limit() <= exponent <= decimal_limit(),
        ensures
            constant@ == deep_constant(significand, exponent, self@.1),
    {
        proof {
            use_type_invariant(self);
        }
        DeepReal { decimal: decimal_of_parts(significand, exponent, self.decimal_digits), decimal_digits: self.decimal_digits }
    }

    /// Precision in decimal digits.
    pub fn precision(&self) -> (digits: usize)
        ensures
            digits as nat == self@.1,
    {
        self.decimal_digits
    }

    /// The exact value in scientific notation.
    pub fn exact_decimal(&self) -> (text: String)
        ensures
            text@ == self@.0,
    {
        self.decimal.clone()
    }

    /// Whether `dashu_float` can be handed the value (see
    /// [`decimal_in_range`]).
    pub fn in_range(&self) -> (in_range: bool)
        ensures
            in_range == decimal_in_range(self@.0),
    {
        decimal_text_in_range(self.decimal.as_str())
    }

    /// The value in scientific notation with `fractional_digits` digits
    /// after the point.
    pub fn scientific(&self, fractional_digits: usize) -> (text: String)
        requires
            decimal_in_range(self@.0),
            fractional_digits <= decimal_limit(),
        ensures
            text@ == decimal_scientific(self@.0, fractional_digits as nat),
    {
        proof {
            use_type_invariant(self);
        }
        scientific_decimal(self.decimal.as_str(), fractional_digits)
    }

    /// The same value and precision.
    pub fn duplicate(&self) -> (copy: Self)
        ensures
            copy@ == self@,
    {
        proof {
            use_type_invariant(self);
        }
        DeepReal { decimal: self.decimal.clone(), decimal_digits: self.decimal_digits }
    }

    /// Whether two reals hold the same value at the same precision.
    pub fn equals(&self, other: &Self) -> (same: bool)
        ensures
            same == (self@ == other@),
    {
        if self.decimal_digits != other.decimal_digits {
            return false;
        }
        let a = chars_of(self.decimal.as_str());
        let b = chars_of(other.decimal.as_str());
        chars_equal(&a, &b)
    }

    /// The exact result of an operation, rounded to the precision of `self`.
    fn rounded(&self, exact: (String, usize)) -> (number: Option<Self>)
        requires
            decimal_parse(exact.0@) is Ok,
        ensures
            real_view(number) == deep_result((exact.0@, exact.1 as nat), self@.1),
    {
        proof {
            use_type_invariant(self);
        }
        let (text, context) = exact;
        if !decimal_text_in_range(text.as_str()) || context == 0 || context > decimal_limit_value() {
            return None;
        }
        Some(DeepReal { decimal: round_decimal(text.as_str(), context, self.decimal_digits), decimal_digits: self.decimal_digits })
    }

    /// `self + other`; `None` when the values leave the range `dashu_float`
    /// can carry.
    pub fn add(&self, other: &Self) -> (sum: Option<Self>)
        ensures
            real_view(sum) == deep_add(self@, other@),
    {
        proof {
            use_type_invariant(self);
            use_type_invariant(other);
        }
        if !self.in_range() || !other.in_range() {
            return None;
        }
        let exact = add_decimals(self.decimal.as_str(), self.decimal_digits, other.decimal.as_str(), other.decimal_digits);
        self.rounded(exact)
    }

    /// `self - other`.
    pub fn sub(&self, other: &Self) -> (difference: Option<Self>)
        ensures
            real_view(difference) == deep_sub(self@, other@),
    {
        proof {
            use_type_invariant(self);
            use_type_invariant(other);
        }
        if !self.in_range() || !other.in_range() {
            return None;
        }
        let exact = subtract_decimals(
            self.decimal.as_str(),
            self.decimal_digits,
            other.decimal.as_str(),
            other.decimal_digits,
        );
        self.rounded(exact)
    }

    /// `self × other`.
    pub fn mul(&self, other: &Self) -> (product: Option<Self>)
        ensures
            real_view(product) == deep_mul(self@, other@),
    {
        proof {
            use_type_invariant(self);
            use_type_invariant(other);
        }
        if !self.in_range() || !other.in_range() {
            return None;
        }
        let exact = multiply_decimals(
            self.decimal.as_str(),
            self.decimal_digits,
            other.decimal.as_str(),
            other.decimal_digits,
        );
        self.rounded(exact)
    }

    /// `self × factor`.
    pub fn mul_i32(&self, factor: i32) -> (product: Option<Self>)
        ensures
            real_view(product) == deep_mul_i32(self@, factor),
    {
        proof {
            use_type_invariant(self);
        }
        if !self.in_range() {
            return None;
        }
        let exact = scale_decimal(self.decimal.as_str(), self.decimal_digits, factor);
        self.rounded(exact)
    }

    /// `self / other`; the divisor is not zero.
    pub fn div(&self, other: &Self) -> (quotient: Option<Self>)
        requires
            !decimal_is_zero(other@.0),
        ensures
            real_view(quotient) == deep_div(self@, other@),
    {
        proof {
            use_type_invariant(self);
            use_type_invariant(other);
        }
        let digits = count_digits_before_scale(self.decimal.as_str());
        if !self.in_range() || !other.in_range() || digits > self.decimal_digits + 1 {
            return None;
        }
        let exact = divide_decimals(
            self.decimal.as_str(),
            self.decimal_digits,
            other.decimal.as_str(),
            other.decimal_digits,
        );
        self.rounded(exact)
    }

    /// `-self`.
    pub fn neg(&self) -> (negated: Option<Self>)
        ensures
            real_view(negated) == deep_mul_i32(self@, -1i32),
    {
        self.mul_i32(-1)
    }

    /// `|self|`.
    pub fn abs(&self) -> (magnitude: Option<Self>)
        ensures
            real_view(magnitude) == deep_abs(self@),
    {
        if !self.in_range() {
            return None;
        }
        if self.is_negative() {
            self.neg()
        } else {
            Some(self.duplicate())
        }
    }

    /// Whether the value is zero.
    pub fn is_zero(&self) -> (zero: bool)
        requires
            decimal_in_range(self@.0),
        ensures
            zero == decimal_is_zero(self@.0),
    {
        proof {
            use_type_invariant(self);
        }
        decimal_equals_zero(self.decimal.as_str())
    }

    /// Whether the value is below zero.
    pub fn is_negative(&self) -> (negative: bool)
        requires
            decimal_in_range(self@.0),
        ensures
            negative == decimal_is_negative(self@.0),
    {
        proof {
            use_type_invariant(self);
        }
        decimal_below_zero(self.decimal.as_str())
    }

    /// The value carried at the precision of another zoom depth.
    pub fn with_zoom_exponent(&self, zoom_exponent: u32) -> (number: Option<Self>)
        requires
            carried_zoom_exponent(zoom_exponent),
        ensures
            real_view(number) == (if decimal_in_range(self@.0) {
                Some(deep_rounded(self@.0, self@.1, spec_decimal_digits(zoom_exponent)))
            } else {
                None
            }),
    {
        proof {
            use_type_invariant(self);
        }
        if !self.in_range() {
            return None;
        }
        let decimal_digits = decimal_digits_for_zoom_exponent(zoom_exponent);
        Some(DeepReal { decimal: round_decimal(self.decimal.as_str(), self.decimal_digits, decimal_digits), decimal_digits })
    }
}

impl Clone for DeepReal {
    fn clone(&self) -> (copy: Self)
        ensures
            copy@ == self@,
    {
        self.duplicate()
    }
}

/// Both parts, when both exist.
pub open spec fn join(re: Option<DecimalView>, im: Option<DecimalView>) -> Option<ComplexView> {
    match (re, im) {
        (Some(r), Some(i)) => Some((r, i)),
        _ => None,
    }
}

/// The value `x` continues with, if any.
pub open spec fn then_complex(x: Option<ComplexView>, f: spec_fn(ComplexView) -> Option<ComplexView>) -> Option<ComplexView> {
    match x {
        Some(v) => f(v),
        None => None,
    }
}

/// The view of an optional complex number.
pub open spec fn complex_view(value: Option<DeepComplex>) -> Option<ComplexView> {
    match value {
        Some(v) => Some(v@),
        None => None,
    }
}

/// Component-wise sum of two complex views (real part, imaginary part).
pub open spec fn complex_add(a: ComplexView, b: ComplexView) -> Option<ComplexView> {
    join(deep_add(a.0, b.0), deep_add(a.1, b.1))
}

/// Component-wise difference.
pub open spec fn complex_sub(a: ComplexView, b: ComplexView) -> Option<ComplexView> {
    join(deep_sub(a.0, b.0), deep_sub(a.1, b.1))
}

/// `(a.re b.re - a.im b.im, a.re b.im + a.im b.re)`, each step rounded.
pub open spec fn complex_mul(a: ComplexView, b: ComplexView) -> Option<ComplexView> {
    match (deep_mul(a.0, b.0), deep_mul(a.1, b.1), deep_mul(a.0, b.1), deep_mul(a.1, b.0)) {
        (Some(p), Some(q), Some(r), Some(s)) => join(deep_sub(p, q), deep_add(r, s)),
        _ => None,
    }
}

/// The real constant `significand × 10^exponent` at the precision of the
/// real part of `a`.
pub open spec fn complex_constant(a: ComplexView, significand: i64, exponent: isize) -> ComplexView {
    (deep_constant(significand, exponent, a.0.1), deep_constant(0, 0, a.0.1))
}

/// The quotient; a zero divisor gives `1.00000000000000005e300`, beyond
/// every escape radius.
pub open spec fn complex_div(a: ComplexView, b: ComplexView) -> Option<ComplexView> {
    match (deep_mul(b.0, b.0), deep_mul(b.1, b.1)) {
        (Some(p), Some(q)) => match deep_add(p, q) {
            Some(denominator) => if !decimal_in_range(denominator.0) {
                None
            } else if decimal_is_zero(denominator.0) {
                Some(complex_constant(a, 100_000_000_000_000_005, 283))
            } else {
                match (deep_mul(a.0, b.0), deep_mul(a.1, b.1), deep_mul(a.1, b.0), deep_mul(a.0, b.1)) {
                    (Some(w), Some(x), Some(y), Some(z)) => join(
                        then_real(deep_add(w, x), |n: DecimalView| deep_div(n, denominator)),
                        then_real(deep_sub(y, z), |n: DecimalView| deep_div(n, denominator)),
                    ),
                    _ => None,
                }
            },
            None => None,
        },
        _ => None,
    }
}

/// Both parts times an integer.
pub open spec fn complex_scale_i32(a: ComplexView, factor: i32) -> Option<ComplexView> {
    join(deep_mul_i32(a.0, factor), deep_mul_i32(a.1, factor))
}

/// Both parts times a real.
pub open spec fn complex_scale_real(a: ComplexView, factor: DecimalView) -> Option<ComplexView> {
    join(deep_mul(a.0, factor), deep_mul(a.1, factor))
}

/// `(re² - im², 2 re im)`.
pub open spec fn complex_square(a: ComplexView) -> Option<ComplexView> {
    match (deep_mul(a.0, a.0), deep_mul(a.1, a.1), deep_mul(a.0, a.1)) {
        (Some(p), Some(q), Some(r)) => join(deep_sub(p, q), deep_mul_i32(r, 2)),
        _ => None,
    }
}

/// `z² + c`.
pub open spec fn complex_square_add(z: ComplexView, c: ComplexView) -> Option<ComplexView> {
    match (deep_mul(z.0, z.0), deep_mul(z.1, z.1)) {
        (Some(p), Some(q)) => match (deep_sub(p, q), deep_mul(z.0, z.1)) {
            (Some(s), Some(r)) => join(deep_add(s, c.0), then_real(deep_mul_i32(r, 2), |t: DecimalView| deep_add(t, c.1))),
            _ => None,
        },
        _ => None,
    }
}

/// `a^degree` by repeated multiplication (`a` itself for degrees below 2).
pub open spec fn complex_pow(a: ComplexView, degree: nat) -> Option<ComplexView>
    decreases degree,
{
    if degree <= 1 {
        Some(a)
    } else {
        then_complex(complex_pow(a, (degree - 1) as nat), |p: ComplexView| complex_mul(p, a))
    }
}

/// A parsed complex number's view, or the error.
pub open spec fn parsed_complex(value: Result<DeepComplex, String>) -> Result<ComplexView, Seq<char>> {
    match value {
        Ok(v) => Ok(v@),
        Err(message) => Err(message@),
    }
}

/// Both parts parsed at `digits` digits: the first refusal, real part first.
pub open spec fn deep_parsed_complex(re: Seq<char>, im: Seq<char>, digits: nat) -> Result<ComplexView, Seq<char>> {
    match deep_parsed(re, digits) {
        Err(message) => Err(message),
        Ok(r) => match deep_parsed(im, digits) {
            Err(message) => Err(message),
            Ok(i) => Ok((r, i)),
        },
    }
}

/// An arbitrary-precision complex number.
#[derive(Clone, Debug)]
pub struct DeepComplex {
    pub re: DeepReal,
    pub im: DeepReal,
}

impl View for DeepComplex {
    type V = ComplexView;

    open spec fn view(&self) -> ComplexView {
        (self.re@, self.im@)
    }
}

impl DeepComplex {
    /// Parses both parts at the precision of `zoom_exponent`.
    pub fn parse(re: &str, im: &str, zoom_exponent: u32) -> (parsed: Result<Self, String>)
        requires
            carried_zoom_exponent(zoom_exponent),
        ensures
            parsed_complex(parsed) == deep_parsed_complex(re@, im@, spec_decimal_digits(zoom_exponent)),
    {
        let re = match DeepReal::parse(re, zoom_exponent) {
            Ok(value) => value,
            Err(message) => return Err(message),
        };
        let im = match DeepReal::parse(im, zoom_exponent) {
            Ok(value) => value,
            Err(message) => return Err(message),
        };
        Ok(DeepComplex { re, im })
    }

    /// The same value and precision.
    pub fn duplicate(&self) -> (copy: Self)
        ensures
            copy@ == self@,
    {
        DeepComplex { re: self.re.duplicate(), im: self.im.duplicate() }
    }

    /// Whether both parts hold the same values at the same precisions.
    pub fn equals(&self, other: &Self) -> (same: bool)
        ensures
            same == (self@ == other@),
    {
        self.re.equals(&other.re) && self.im.equals(&other.im)
    }

    pub fn add(&self, other: &Self) -> (sum: Option<Self>)
        ensures
            complex_view(sum) == complex_add(self@, other@),
    {
        let re = self.re.add(&other.re)?;
        let im = self.im.add(&other.im)?;
        Some(DeepComplex { re, im })
    }

    pub fn sub(&self, other: &Self) -> (difference: Option<Self>)
        ensures
            complex_view(difference) == complex_sub(self@, other@),
    {
        let re = self.re.sub(&other.re)?;
        let im = self.im.sub(&other.im)?;
        Some(DeepComplex { re, im })
    }

    pub fn mul(&self, other: &Self) -> (product: Option<Self>)
        ensures
            complex_view(product) == complex_mul(self@, other@),
    {
        let p = self.re.mul(&other.re)?;
        let q = self.im.mul(&other.im)?;
        let re = p.sub(&q)?;
        let r = self.re.mul(&other.im)?;
        let s = self.im.mul(&other.re)?;
        let im = r.add(&s)?;
        Some(DeepComplex { re, im })
    }

    /// The quotient. A zero divisor is a pole: the value is then far beyond
    /// every escape radius, so the orbit counts as escaped.
    pub fn div(&self, other: &Self) -> (quotient: Option<Self>)
        ensures
            complex_view(quotient) == complex_div(self@, other@),
    {
        let p = other.re.mul(&other.re)?;
        let q = other.im.mul(&other.im)?;
        let denominator = p.add(&q)?;
        if !denominator.in_range() {
            return None;
        }
        if denominator.is_zero() {
            return Some(self.real_like(100_000_000_000_000_005, 283));
        }
        let w = self.re.mul(&other.re)?;
        let x = self.im.mul(&other.im)?;
        let re = w.add(&x)?.div(&denominator)?;
        let y = self.im.mul(&other.re)?;
        let z = self.re.mul(&other.im)?;
        let im = y.sub(&z)?.div(&denominator)?;
        Some(DeepComplex { re, im })
    }

    pub fn scale_i32(&self, factor: i32) -> (scaled: Option<Self>)
        ensures
            complex_view(scaled) == complex_scale_i32(self@, factor),
    {
        let re = self.re.mul_i32(factor)?;
        let im = self.im.mul_i32(factor)?;
        Some(DeepComplex { re, im })
    }

    pub fn scale_real(&self, factor: &DeepReal) -> (scaled: Option<Self>)
        ensures
            complex_view(scaled) == complex_scale_real(self@, factor@),
    {
        let re = self.re.mul(factor)?;
        let im = self.im.mul(factor)?;
        Some(DeepComplex { re, im })
    }

    pub fn square(&self) -> (squared: Option<Self>)
        ensures
            complex_view(squared) == complex_square(self@),
    {
        let p = self.re.mul(&self.re)?;
        let q = self.im.mul(&self.im)?;
        let re = p.sub(&q)?;
        let im = self.re.mul(&self.im)?.mul_i32(2)?;
        Some(DeepComplex { re, im })
    }

    /// `self² + c`, the quadratic step.
    pub fn square_add(&self, c: &Self) -> (next: Option<Self>)
        ensures
            complex_view(next) == complex_square_add(self@, c@),
    {
        let p = self.re.mul(&self.re)?;
        let q = self.im.mul(&self.im)?;
        let s = p.sub(&q)?;
        let r = self.re.mul(&self.im)?;
        let re = s.add(&c.re)?;
        let im = r.mul_i32(2)?.add(&c.im)?;
        Some(DeepComplex { re, im })
    }

    /// `self^degree` by repeated multiplication.
    pub fn pow(&self, degree: u32) -> (power: Option<Self>)
        ensures
            complex_view(power) == complex_pow(self@, degree as nat),
    {
        let mut result = self.duplicate();
        let mut exponent: u32 = 1;
        while exponent < degree
            invariant
                1 <= exponent,
                degree <= 1 ==> exponent == 1,
                degree > 1 ==> exponent <= degree,
                complex_pow(self@, exponent as nat) == Some(result@),
            decreases degree - exponent,
        {
            result = match result.mul(self) {
                Some(next) => next,
                None => {
                    proof {
                        lemma_pow_stays_none(self@, (exponent + 1) as nat, degree as nat);
                    }
                    return None;
                },
            };
            exponent += 1;
        }
        proof {
            if degree <= 1 {
                assert(complex_pow(self@, degree as nat) == Some(self@));
            }
        }
        Some(result)
    }

    /// The real constant `significand × 10^exponent`, at the precision of
    /// the real part.
    pub fn real_like(&self, significand: i64, exponent: isize) -> (constant: Self)
        requires
            -decimal_limit() <= exponent <= decimal_limit(),
        ensures
            constant@ == complex_constant(self@, significand, exponent),
    {
        DeepComplex { re: self.re.constant_like(significand, exponent), im: self.re.constant_like(0, 0) }
    }

    /// Both parts carried at the precision of another zoom depth.
    pub fn with_zoom_exponent(&self, zoom_exponent: u32) -> (number: Option<Self>)
        requires
            carried_zoom_exponent(zoom_exponent),
        ensures
            complex_view(number) == (if decimal_in_range(self@.0.0) && decimal_in_range(self@.1.0) {
                Some((
                    deep_rounded(self@.0.0, self@.0.1, spec_decimal_digits(zoom_exponent)),
                    deep_rounded(self@.1.0, self@.1.1, spec_decimal_digits(zoom_exponent)),
                ))
            } else {
                None
            }),
    {
        let re = self.re.with_zoom_exponent(zoom_exponent)?;
        let im = self.im.with_zoom_exponent(zoom_exponent)?;
        Some(DeepComplex { re, im })
    }
}

/// Once a power leaves the range, every higher power stays out of it.
proof fn lemma_pow_stays_none(a: ComplexView, failed: nat, degree: nat)
    requires
        2 <= failed,
        complex_pow(a, failed) is None,
    ensures
        failed <= degree ==> complex_pow(a, degree) is None,
    decreases degree,
{
    if failed < degree {
        lemma_pow_stays_none(a, failed, (degree - 1) as nat);
    }
}

/// The zoom exponent whose precision is `digits`: digits beyond the guard.
pub open spec fn zero_exponent(digits: nat) -> u32 {
    if digits >= GUARD_DECIMAL_DIGITS { (digits - GUARD_DECIMAL_DIGITS) as u32 } else { 0 }
}

/// Zero in both parts at the precision matching `value`.
pub open spec fn complex_zero_like(value: ComplexView) -> ComplexView {
    let digits = spec_decimal_digits(zero_exponent(value.0.1));
    (deep_constant(0, 0, digits), deep_constant(0, 0, digits))
}

/// Arbitrary-precision orbit state: `z`, the previous `z` and `c`.
#[derive(Clone, Debug)]
pub struct DeepState {
    pub z: DeepComplex,
    pub z_prev: DeepComplex,
    pub c: DeepComplex,
}

impl View for DeepState {
    type V = StateView;

    open spec fn view(&self) -> Self::V {
        (self.z@, self.z_prev@, self.c@)
    }
}

/// The starting state of a deep orbit: on the dynamical plane the pixel is
/// `z` under the selected parameter; on the parameter plane the pixel is `c`
/// and `z` starts at the family's distinguished point.
pub open spec fn spec_deep_initial(
    family: FractalFamily,
    world: ComplexView,
    dynamical: bool,
    parameter: ComplexView,
) -> StateView {
    let zero = complex_zero_like(world);
    if dynamical {
        (world, if family == FractalFamily::Manowar { world } else { zero }, parameter)
    } else {
        match family {
            FractalFamily::Lambda => (complex_constant(world, 5, -1isize), zero, world),
            FractalFamily::Manowar => (world, world, world),
            FractalFamily::Nova => (complex_constant(world, 1, 0), zero, world),
            FractalFamily::BarnsleyOne | FractalFamily::BarnsleyTwo => (world, zero, world),
            _ => (zero, zero, world),
        }
    }
}

impl DeepComplex {
    /// Zero in both parts, at the precision of the zoom depth matching the
    /// precision of `value`.
    pub fn zero_like(value: &Self) -> (zero: Self)
        ensures
            zero@ == complex_zero_like(value@),
    {
        proof {
            use_type_invariant(&value.re);
        }
        let digits = value.re.precision();
        let exponent: u32 = if digits >= 32 {
            #[verifier::truncate]
            ((digits - 32) as u32)
        } else {
            0
        };
        let zero_digits = decimal_digits_for_zoom_exponent(exponent);
        DeepComplex {
            re: DeepReal { decimal: decimal_of_parts(0, 0, zero_digits), decimal_digits: zero_digits },
            im: DeepReal { decimal: decimal_of_parts(0, 0, zero_digits), decimal_digits: zero_digits },
        }
    }
}

impl DeepState {
    /// Whether all three values are the same at the same precisions.
    pub fn equals(&self, other: &Self) -> (same: bool)
        ensures
            same == (self@ == other@),
    {
        self.z.equals(&other.z) && self.z_prev.equals(&other.z_prev) && self.c.equals(&other.c)
    }
}

impl DeepState {
    /// The starting state for a pixel at `world` (see [`spec_deep_initial`]);
    /// it always succeeds.
    pub fn initial(family: FractalFamily, world: &DeepComplex, dynamical: bool, parameter: &DeepComplex) -> (state: Result<Self, String>)
        ensures
            state matches Ok(s) && s@ == spec_deep_initial(family, world@, dynamical, parameter@),
    {
        let zero = DeepComplex::zero_like(world);
        if dynamical {
            let z_prev = if family == FractalFamily::Manowar { world.duplicate() } else { zero };
            return Ok(DeepState { z: world.duplicate(), z_prev, c: parameter.duplicate() });
        }
        let c = world.duplicate();
        let (z, z_prev) = match family {
            FractalFamily::Lambda => (world.real_like(5, -1), zero),
            FractalFamily::Manowar => (c.duplicate(), c.duplicate()),
            FractalFamily::Nova => (world.real_like(1, 0), zero),
            FractalFamily::BarnsleyOne | FractalFamily::BarnsleyTwo => (c.duplicate(), zero),
            _ => (zero.duplicate(), zero),
        };
        Ok(DeepState { z, z_prev, c })
    }
}

/// A location in the plane at the precision of a zoom depth: its centre and
/// its half-height.
#[derive(Clone, Debug)]
pub struct DeepLocation {
    pub centre: DeepComplex,
    pub half_height: DeepReal,
}

/// Why the decimals of a deep location at `zoom_exponent` are refused, if
/// they are: the half-height must parse and, rounded to the depth's
/// precision, be positive; then both parts of the centre must parse.
pub open spec fn deep_location_error(
    centre_re: Seq<char>,
    centre_im: Seq<char>,
    half_height: Seq<char>,
    zoom_exponent: u32,
) -> Option<Seq<char>> {
    let digits = spec_decimal_digits(zoom_exponent);
    match deep_parsed(half_height, digits) {
        Err(message) => Some(message),
        Ok(height) => if !decimal_in_range(height.0) {
            Some(out_of_range_message())
        } else if decimal_is_zero(height.0) || decimal_is_negative(height.0) {
            Some("deep half-height must be positive"@)
        } else {
            match deep_parsed_complex(centre_re, centre_im, digits) {
                Err(message) => Some(message),
                Ok(_) => None,
            }
        },
    }
}

impl DeepLocation {
    /// Parses a location's decimals at the precision of `zoom_exponent`: the
    /// half-height first, which must be positive, then the centre.
    pub fn parse(centre_re: &str, centre_im: &str, half_height: &str, zoom_exponent: u32) -> (parsed: Result<
        Self,
        String,
    >)
        requires
            carried_zoom_exponent(zoom_exponent),
        ensures
            parsed is Ok <==> deep_location_error(centre_re@, centre_im@, half_height@, zoom_exponent) is None,
            parsed matches Err(message) ==> deep_location_error(centre_re@, centre_im@, half_height@, zoom_exponent)
                == Some(message@),
            parsed matches Ok(location) ==> {
                let digits = spec_decimal_digits(zoom_exponent);
                &&& deep_parsed(half_height@, digits) == Ok::<DecimalView, Seq<char>>(location.half_height@)
                &&& deep_parsed_complex(centre_re@, centre_im@, digits) == Ok::<ComplexView, Seq<char>>(location.centre@)
            },
    {
        let half_height = match DeepReal::parse(half_height, zoom_exponent) {
            Ok(value) => value,
            Err(message) => return Err(message),
        };
        if !half_height.in_range() {
            return Err("deep decimal is out of range".to_owned());
        }
        if half_height.is_zero() || half_height.is_negative() {
            return Err("deep half-height must be positive".to_owned());
        }
        match DeepComplex::parse(centre_re, centre_im, zoom_exponent) {
            Ok(centre) => Ok(DeepLocation { centre, half_height }),
            Err(message) => Err(message),
        }
    }
}

/// The families whose deep step is decided in decimal arithmetic alone:
/// all but the Mandelbox, whose folds compare a real projection of the
/// orbit with real radii.
pub open spec fn spec_steps_in_decimal(family: FractalFamily) -> bool {
    family != FractalFamily::Mandelbox
}

/// Whether the family's deep step is decided in decimal arithmetic alone.
pub fn steps_in_decimal(family: FractalFamily) -> (decimal: bool)
    ensures
        decimal == spec_steps_in_decimal(family),
{
    !matches!(family, FractalFamily::Mandelbox)
}

/// A real family setting as the decimal `significand × 10^exponent` that
/// arbitrary-precision steps read it as: the setting written in scientific
/// notation with seventeen digits after the point.
#[derive(Clone, Copy, Debug, PartialEq, Eq, Structural)]
pub struct DecimalSetting {
    pub significand: i64,
    pub exponent: isize,
}

/// A setting whose decimal exponent a constant can be built with.
pub open spec fn setting_in_range(setting: DecimalSetting) -> bool {
    -decimal_limit() <= setting.exponent <= decimal_limit()
}

/// The family settings an arbitrary-precision step reads: the Multibrot and
/// Nova degree `p`, and for Nova the real number `1 / p` and the relaxation,
/// each in its decimal form.
#[derive(Clone, Copy, Debug)]
pub struct DeepParameters {
    pub degree: u32,
    pub inverse_degree: DecimalSetting,
    pub nova_relaxation: DecimalSetting,
}

/// One relaxed Newton step `z − relaxation · (z − z^(1 − p)) · (1 / p)` for
/// `zᵖ − 1`, with the degree's reciprocal and the relaxation read at the
/// precision of `z`.
pub open spec fn newton_step(z: ComplexView, degree: u32, inverse_degree: DecimalSetting, relaxation: DecimalSetting) -> Option<
    ComplexView,
> {
    let one = complex_constant(z, 1, 0);
    let inverse_factor = deep_constant(inverse_degree.significand, inverse_degree.exponent, z.0.1);
    let relaxation_factor = deep_constant(relaxation.significand, relaxation.exponent, z.0.1);
    then_complex(
        then_complex(
            then_complex(
                then_complex(complex_pow(z, (degree - 1) as nat), |power: ComplexView| complex_div(one, power)),
                |inverse: ComplexView| complex_sub(z, inverse),
            ),
            |difference: ComplexView| complex_scale_real(difference, inverse_factor),
        ),
        |step: ComplexView| then_complex(complex_scale_real(step, relaxation_factor), |relaxed: ComplexView| complex_sub(z, relaxed)),
    )
}

/// The next value of `z` for the families whose step has the shape
/// `(re² − im² or its modulus, ±2·(re·im with moduli) ) + c`.
pub open spec fn abs_variant_step(family: FractalFamily, z: ComplexView, c: ComplexView) -> Option<ComplexView> {
    let x = z.0;
    let y = z.1;
    match (deep_mul(x, x), deep_mul(y, y)) {
        (Some(p), Some(q)) => match (deep_sub(p, q), deep_mul(x, y)) {
            (Some(real_square), Some(xy)) => {
                let re = match family {
                    FractalFamily::Celtic | FractalFamily::PerpendicularCeltic | FractalFamily::Buffalo
                    | FractalFamily::PerpendicularBuffalo => then_real(deep_abs(real_square), |a: DecimalView| deep_add(a, c.0)),
                    _ => deep_add(real_square, c.0),
                };
                let doubled = match family {
                    FractalFamily::Tricorn => deep_mul_i32(xy, -2i32),
                    FractalFamily::PerpendicularMandelbrot | FractalFamily::PerpendicularCeltic => then_real(
                        then_real(deep_abs(x), |a: DecimalView| deep_mul(a, y)),
                        |m: DecimalView| deep_mul_i32(m, -2i32),
                    ),
                    FractalFamily::BurningShip | FractalFamily::Buffalo => then_real(deep_abs(xy), |a: DecimalView| deep_mul_i32(a, 2i32)),
                    FractalFamily::PerpendicularBurningShip | FractalFamily::PerpendicularBuffalo => then_real(
                        then_real(deep_abs(y), |a: DecimalView| deep_mul(x, a)),
                        |m: DecimalView| deep_mul_i32(m, -2i32),
                    ),
                    _ => deep_mul_i32(xy, 2i32),
                };
                join(re, then_real(doubled, |d: DecimalView| deep_add(d, c.1)))
            },
            _ => None,
        },
        _ => None,
    }
}

/// Whether the family's step is one of the absolute-value variants of the
/// quadratic map.
pub open spec fn is_abs_variant(family: FractalFamily) -> bool {
    ||| family == FractalFamily::Tricorn
    ||| family == FractalFamily::PerpendicularMandelbrot
    ||| family == FractalFamily::BurningShip
    ||| family == FractalFamily::PerpendicularBurningShip
    ||| family == FractalFamily::Celtic
    ||| family == FractalFamily::PerpendicularCeltic
    ||| family == FractalFamily::Buffalo
    ||| family == FractalFamily::PerpendicularBuffalo
}

/// The Magnet II quotient before squaring.
pub open spec fn magnet_two_ratio(z: ComplexView, c: ComplexView) -> Option<ComplexView> {
    let one = complex_constant(z, 1, 0);
    let two = complex_constant(z, 2, 0);
    match (complex_sub(c, one), complex_sub(c, two)) {
        (Some(c1), Some(c2)) => match (complex_mul(c1, c2), complex_square(z)) {
            (Some(c12), Some(z2)) => {
                let numerator = then_complex(
                    then_complex(
                        complex_mul(z2, z),
                        |z3: ComplexView| then_complex(
                            then_complex(complex_mul(c1, z), |m: ComplexView| complex_scale_i32(m, 3)),
                            |t: ComplexView| complex_add(z3, t),
                        ),
                    ),
                    |s: ComplexView| complex_add(s, c12),
                );
                let denominator = then_complex(
                    then_complex(
                        then_complex(
                            complex_scale_i32(z2, 3),
                            |a: ComplexView| then_complex(
                                then_complex(complex_mul(c2, z), |m: ComplexView| complex_scale_i32(m, 3)),
                                |t: ComplexView| complex_add(a, t),
                            ),
                        ),
                        |s: ComplexView| complex_add(s, c12),
                    ),
                    |s: ComplexView| complex_add(s, one),
                );
                match (numerator, denominator) {
                    (Some(n), Some(d)) => complex_div(n, d),
                    _ => None,
                }
            },
            _ => None,
        },
        _ => None,
    }
}

/// `1 / 3` as the real number the cubic Newton step reads:
/// 0.333333333333333315.
pub open spec fn newton_inverse_degree() -> DecimalSetting {
    DecimalSetting { significand: 333_333_333_333_333_315i64, exponent: -18isize }
}

/// A state whose `z` is `next`, the rest kept.
pub open spec fn with_z(next: Option<ComplexView>, z_prev: ComplexView, c: ComplexView) -> Option<StateView> {
    match next {
        Some(z) => Some((z, z_prev, c)),
        None => None,
    }
}

/// The view of an optional state.
pub open spec fn state_view(value: Option<DeepState>) -> Option<StateView> {
    match value {
        Some(v) => Some(v@),
        None => None,
    }
}

/// One arbitrary-precision step of `family`'s map, every operation rounded
/// to the precision of its left operand; `None` when a value on the way
/// leaves the range `dashu_float` can carry.
pub open spec fn spec_deep_step(family: FractalFamily, parameters: DeepParameters, state: StateView) -> Option<StateView> {
    let (z, z_prev, c) = state;
    let one = complex_constant(z, 1, 0);
    let two = complex_constant(z, 2, 0);
    if family == FractalFamily::Quadratic {
        with_z(complex_square_add(z, c), z_prev, c)
    } else if family == FractalFamily::Multibrot {
        with_z(then_complex(complex_pow(z, parameters.degree as nat), |p: ComplexView| complex_add(p, c)), z_prev, c)
    } else if is_abs_variant(family) {
        with_z(abs_variant_step(family, z, c), z_prev, c)
    } else if family == FractalFamily::Lambda {
        with_z(
            then_complex(then_complex(complex_sub(one, z), |d: ComplexView| complex_mul(z, d)), |m: ComplexView| complex_mul(c, m)),
            z_prev,
            c,
        )
    } else if family == FractalFamily::Phoenix {
        match complex_square(z) {
            Some(square) => match join(
                then_real(deep_add(square.0, c.0), |s: DecimalView| then_real(deep_mul(c.1, z_prev.0), |m: DecimalView| deep_add(s, m))),
                then_real(deep_mul(c.1, z_prev.1), |m: DecimalView| deep_add(square.1, m)),
            ) {
                Some(next) => Some((next, z, c)),
                None => None,
            },
            None => None,
        }
    } else if family == FractalFamily::Manowar {
        match then_complex(then_complex(complex_square(z), |s: ComplexView| complex_add(s, z_prev)), |s: ComplexView| complex_add(s, c)) {
            Some(next) => Some((next, z, c)),
            None => None,
        }
    } else if family == FractalFamily::Spider {
        match complex_square_add(z, c) {
            Some(next) => match then_complex(complex_scale_real(c, deep_constant(5, -1isize, z.0.1)), |h: ComplexView| complex_add(h, next)) {
                Some(next_c) => Some((next, z_prev, next_c)),
                None => None,
            },
            None => None,
        }
    } else if family == FractalFamily::MagnetOne {
        let numerator = then_complex(then_complex(complex_square(z), |s: ComplexView| complex_add(s, c)), |s: ComplexView| complex_sub(s, one));
        let denominator = then_complex(then_complex(complex_scale_i32(z, 2), |s: ComplexView| complex_add(s, c)), |s: ComplexView| complex_sub(s, two));
        match (numerator, denominator) {
            (Some(n), Some(d)) => with_z(then_complex(complex_div(n, d), |q: ComplexView| complex_square(q)), z_prev, c),
            _ => None,
        }
    } else if family == FractalFamily::MagnetTwo {
        with_z(then_complex(magnet_two_ratio(z, c), |q: ComplexView| complex_square(q)), z_prev, c)
    } else if family == FractalFamily::BarnsleyOne || family == FractalFamily::BarnsleyTwo {
        let test = if family == FractalFamily::BarnsleyOne {
            Some(z.0)
        } else {
            then_real(deep_mul(z.0, c.1), |a: DecimalView| then_real(deep_mul(c.0, z.1), |b: DecimalView| deep_add(a, b)))
        };
        match test {
            Some(t) => if !decimal_in_range(t.0) {
                None
            } else {
                let shifted = if decimal_is_negative(t.0) { complex_add(z, one) } else { complex_sub(z, one) };
                with_z(then_complex(shifted, |s: ComplexView| complex_mul(s, c)), z_prev, c)
            },
            None => None,
        }
    } else if family == FractalFamily::NewtonCubic {
        with_z(newton_step(z, 3, newton_inverse_degree(), DecimalSetting { significand: 1i64, exponent: 0isize }), z_prev, c)
    } else if family == FractalFamily::Nova {
        with_z(
            then_complex(
                newton_step(z, parameters.degree, parameters.inverse_degree, parameters.nova_relaxation),
                |shifted: ComplexView| complex_add(shifted, c),
            ),
            z_prev,
            c,
        )
    } else {
        Some((z, z_prev, c))
    }
}

fn abs_variant(family: FractalFamily, z: &DeepComplex, c: &DeepComplex) -> (next: Option<DeepComplex>)
    ensures
        complex_view(next) == abs_variant_step(family, z@, c@),
{
    let x = &z.re;
    let y = &z.im;
    let p = x.mul(x)?;
    let q = y.mul(y)?;
    let real_square = p.sub(&q)?;
    let xy = x.mul(y)?;
    let re = match family {
        FractalFamily::Celtic | FractalFamily::PerpendicularCeltic | FractalFamily::Buffalo
        | FractalFamily::PerpendicularBuffalo => real_square.abs()?.add(&c.re)?,
        _ => real_square.add(&c.re)?,
    };
    let doubled = match family {
        FractalFamily::Tricorn => xy.mul_i32(-2)?,
        FractalFamily::PerpendicularMandelbrot | FractalFamily::PerpendicularCeltic => x.abs()?.mul(y)?.mul_i32(-2)?,
        FractalFamily::BurningShip | FractalFamily::Buffalo => xy.abs()?.mul_i32(2)?,
        FractalFamily::PerpendicularBurningShip | FractalFamily::PerpendicularBuffalo => x.mul(&y.abs()?)?.mul_i32(-2)?,
        _ => xy.mul_i32(2)?,
    };
    let im = doubled.add(&c.im)?;
    Some(DeepComplex { re, im })
}

/// The relaxed Newton step of [`newton_step`].
fn relaxed_newton(z: &DeepComplex, degree: u32, inverse_degree: DecimalSetting, relaxation: DecimalSetting) -> (next: Option<
    DeepComplex,
>)
    requires
        degree >= 1,
        setting_in_range(inverse_degree),
        setting_in_range(relaxation),
    ensures
        complex_view(next) == newton_step(z@, degree, inverse_degree, relaxation),
{
    let one = z.real_like(1, 0);
    let power = z.pow(degree - 1)?;
    let inverse = one.div(&power)?;
    let difference = z.sub(&inverse)?;
    let step = difference.scale_real(&z.re.constant_like(inverse_degree.significand, inverse_degree.exponent))?;
    let relaxed = step.scale_real(&z.re.constant_like(relaxation.significand, relaxation.exponent))?;
    z.sub(&relaxed)
}

/// One arbitrary-precision step of `family`'s map, for every family whose
/// step is decided in decimal arithmetic. Families without a perturbation
/// path leave the state unchanged. `None` when a value on the way leaves
/// the range `dashu_float` can carry (where its exponents would overflow).
pub fn deep_step(family: FractalFamily, parameters: &DeepParameters, state: &DeepState) -> (next: Option<DeepState>)
    requires
        spec_steps_in_decimal(family),
        family == FractalFamily::Nova ==> parameters.degree >= 1,
        family == FractalFamily::Nova ==> setting_in_range(parameters.inverse_degree),
        family == FractalFamily::Nova ==> setting_in_range(parameters.nova_relaxation),
    ensures
        state_view(next) == spec_deep_step(family, *parameters, state@),
{
    let degree = parameters.degree;
    let z = &state.z;
    let z_prev = &state.z_prev;
    let c = &state.c;
    let one = z.real_like(1, 0);
    let two = z.real_like(2, 0);
    match family {
        FractalFamily::Quadratic => Some(DeepState { z: z.square_add(c)?, z_prev: z_prev.duplicate(), c: c.duplicate() }),
        FractalFamily::Multibrot => Some(DeepState { z: z.pow(degree)?.add(c)?, z_prev: z_prev.duplicate(), c: c.duplicate() }),
        FractalFamily::Tricorn | FractalFamily::PerpendicularMandelbrot | FractalFamily::BurningShip
        | FractalFamily::PerpendicularBurningShip | FractalFamily::Celtic | FractalFamily::PerpendicularCeltic
        | FractalFamily::Buffalo | FractalFamily::PerpendicularBuffalo => Some(DeepState {
            z: abs_variant(family, z, c)?,
            z_prev: z_prev.duplicate(),
            c: c.duplicate(),
        }),
        FractalFamily::Lambda => Some(DeepState { z: c.mul(&z.mul(&one.sub(z)?)?)?, z_prev: z_prev.duplicate(), c: c.duplicate() }),
        FractalFamily::Phoenix => {
            let square = z.square()?;
            let re = square.re.add(&c.re)?.add(&c.im.mul(&z_prev.re)?)?;
            let im = square.im.add(&c.im.mul(&z_prev.im)?)?;
            Some(DeepState { z: DeepComplex { re, im }, z_prev: z.duplicate(), c: c.duplicate() })
        },
        FractalFamily::Manowar => Some(DeepState { z: z.square()?.add(z_prev)?.add(c)?, z_prev: z.duplicate(), c: c.duplicate() }),
        FractalFamily::Spider => {
            let next = z.square_add(c)?;
            let half = z.re.constant_like(5, -1);
            let next_c = c.scale_real(&half)?.add(&next)?;
            Some(DeepState { z: next, z_prev: z_prev.duplicate(), c: next_c })
        },
        FractalFamily::MagnetOne => {
            let numerator = z.square()?.add(c)?.sub(&one)?;
            let denominator = z.scale_i32(2)?.add(c)?.sub(&two)?;
            Some(DeepState { z: numerator.div(&denominator)?.square()?, z_prev: z_prev.duplicate(), c: c.duplicate() })
        },
        FractalFamily::MagnetTwo => {
            let c1 = c.sub(&one)?;
            let c2 = c.sub(&two)?;
            let c12 = c1.mul(&c2)?;
            let z2 = z.square()?;
            let z3 = z2.mul(z)?;
            let numerator = z3.add(&c1.mul(z)?.scale_i32(3)?)?.add(&c12)?;
            let denominator = z2.scale_i32(3)?.add(&c2.mul(z)?.scale_i32(3)?)?.add(&c12)?.add(&one)?;
            Some(DeepState { z: numerator.div(&denominator)?.square()?, z_prev: z_prev.duplicate(), c: c.duplicate() })
        },
        FractalFamily::BarnsleyOne | FractalFamily::BarnsleyTwo => {
            let test = if matches!(family, FractalFamily::BarnsleyOne) {
                z.re.duplicate()
            } else {
                z.re.mul(&c.im)?.add(&c.re.mul(&z.im)?)?
            };
            if !test.in_range() {
                return None;
            }
            let shifted = if test.is_negative() { z.add(&one)? } else { z.sub(&one)? };
            Some(DeepState { z: shifted.mul(c)?, z_prev: z_prev.duplicate(), c: c.duplicate() })
        },
        FractalFamily::NewtonCubic => {
            let inverse_degree = DecimalSetting { significand: 333_333_333_333_333_315, exponent: -18 };
            let relaxation = DecimalSetting { significand: 1, exponent: 0 };
            Some(DeepState { z: relaxed_newton(z, 3, inverse_degree, relaxation)?, z_prev: z_prev.duplicate(), c: c.duplicate() })
        },
        FractalFamily::Nova => {
            let shifted = relaxed_newton(z, degree, parameters.inverse_degree, parameters.nova_relaxation)?;
            Some(DeepState { z: shifted.add(c)?, z_prev: z_prev.duplicate(), c: c.duplicate() })
        },
        _ => Some(DeepState { z: z.duplicate(), z_prev: z_prev.duplicate(), c: c.duplicate() }),
    }
}

/// Which way the Mandelbox box fold takes one coordinate, decided on the
/// coordinate's real projection: above 1 it is reflected about 1, below −1
/// about −1, and in between it is kept.
#[derive(Clone, Copy, Debug, PartialEq, Eq, Structural)]
pub enum BoxFold {
    Above,
    Below,
    Within,
}

/// Which part of the Mandelbox ball fold applies, decided on the real
/// projection of the folded radius² against the squared minimum and fixed
/// radii: inside the minimum radius, between the two radii, or beyond the
/// fixed radius.
#[derive(Clone, Copy, Debug, PartialEq, Eq, Structural)]
pub enum BallFold {
    Inner,
    Shell,
    Outer,
}

/// The real Mandelbox settings an arbitrary-precision step reads, each in
/// its decimal form: `fixed² / min²`, `fixed²` and the scale.
#[derive(Clone, Copy, Debug)]
pub struct MandelboxSettings {
    pub inner_factor: DecimalSetting,
    pub fixed_squared: DecimalSetting,
    pub scale: DecimalSetting,
}

/// All three settings can be built as constants.
pub open spec fn mandelbox_settings_in_range(settings: MandelboxSettings) -> bool {
    &&& setting_in_range(settings.inner_factor)
    &&& setting_in_range(settings.fixed_squared)
    &&& setting_in_range(settings.scale)
}

/// One coordinate after the box fold: `2 − v`, `−2 − v` or `v`, the
/// constants at the coordinate's precision.
pub open spec fn spec_box_fold(value: DecimalView, fold: BoxFold) -> Option<DecimalView> {
    match fold {
        BoxFold::Above => deep_sub(deep_constant(2i64, 0isize, value.1), value),
        BoxFold::Below => deep_sub(deep_constant(-2i64, 0isize, value.1), value),
        BoxFold::Within => Some(value),
    }
}

/// `z` after the box fold, and the folded radius² `re² + im²`.
pub open spec fn spec_mandelbox_fold(z: ComplexView, re_fold: BoxFold, im_fold: BoxFold) -> Option<(ComplexView, DecimalView)> {
    match (spec_box_fold(z.0, re_fold), spec_box_fold(z.1, im_fold)) {
        (Some(re), Some(im)) => match (deep_mul(re, re), deep_mul(im, im)) {
            (Some(p), Some(q)) => match deep_add(p, q) {
                Some(radius_squared) => Some(((re, im), radius_squared)),
                None => None,
            },
            _ => None,
        },
        _ => None,
    }
}

/// The view of an optional fold.
pub open spec fn fold_view(value: Option<(DeepComplex, DeepReal)>) -> Option<(ComplexView, DecimalView)> {
    match value {
        Some((folded, radius_squared)) => Some((folded@, radius_squared@)),
        None => None,
    }
}

/// The rest of a Mandelbox step from the folded value: the ball fold scales
/// it by `fixed² / min²` inside, by `fixed² / radius²` in the shell (a zero
/// radius² there cannot be divided by, and gives `None`) and keeps it
/// outside; then `z' = scale · ball + c`. The constants are read at the
/// precision of the real part of `z`.
pub open spec fn spec_mandelbox_ball(
    state: StateView,
    folded: ComplexView,
    radius_squared: DecimalView,
    ball: BallFold,
    settings: MandelboxSettings,
) -> Option<StateView> {
    let (z, z_prev, c) = state;
    let digits = z.0.1;
    let balled = match ball {
        BallFold::Inner => complex_scale_real(
            folded,
            deep_constant(settings.inner_factor.significand, settings.inner_factor.exponent, digits),
        ),
        BallFold::Shell => if !decimal_in_range(radius_squared.0) || decimal_is_zero(radius_squared.0) {
            None
        } else {
            match deep_div(deep_constant(settings.fixed_squared.significand, settings.fixed_squared.exponent, digits), radius_squared) {
                Some(factor) => complex_scale_real(folded, factor),
                None => None,
            }
        },
        BallFold::Outer => Some(folded),
    };
    with_z(
        then_complex(
            then_complex(
                balled,
                |b: ComplexView| complex_scale_real(b, deep_constant(settings.scale.significand, settings.scale.exponent, digits)),
            ),
            |s: ComplexView| complex_add(s, c),
        ),
        z_prev,
        c,
    )
}

fn box_fold(value: &DeepReal, fold: BoxFold) -> (folded: Option<DeepReal>)
    ensures
        real_view(folded) == spec_box_fold(value@, fold),
{
    match fold {
        BoxFold::Above => value.constant_like(2, 0).sub(value),
        BoxFold::Below => value.constant_like(-2, 0).sub(value),
        BoxFold::Within => Some(value.duplicate()),
    }
}

/// The box fold of a Mandelbox step, each coordinate folded as the caller
/// decided on its real projection, and the folded radius².
pub fn mandelbox_fold(z: &DeepComplex, re_fold: BoxFold, im_fold: BoxFold) -> (folded: Option<(DeepComplex, DeepReal)>)
    ensures
        fold_view(folded) == spec_mandelbox_fold(z@, re_fold, im_fold),
{
    let re = box_fold(&z.re, re_fold)?;
    let im = box_fold(&z.im, im_fold)?;
    let p = re.mul(&re)?;
    let q = im.mul(&im)?;
    let radius_squared = p.add(&q)?;
    Some((DeepComplex { re, im }, radius_squared))
}

/// The ball fold and the rest of a Mandelbox step (see
/// [`spec_mandelbox_ball`]), the part of the ball decided by the caller on
/// the real projection of `radius_squared`.
pub fn mandelbox_ball(
    state: &DeepState,
    folded: &DeepComplex,
    radius_squared: &DeepReal,
    ball: BallFold,
    settings: &MandelboxSettings,
) -> (next: Option<DeepState>)
    requires
        mandelbox_settings_in_range(*settings),
    ensures
        state_view(next) == spec_mandelbox_ball(state@, folded@, radius_squared@, ball, *settings),
{
    let x = &state.z.re;
    let balled = match ball {
        BallFold::Inner => folded.scale_real(&x.constant_like(settings.inner_factor.significand, settings.inner_factor.exponent))?,
        BallFold::Shell => {
            if !radius_squared.in_range() || radius_squared.is_zero() {
                return None;
            }
            let factor = x.constant_like(settings.fixed_squared.significand, settings.fixed_squared.exponent).div(
                radius_squared,
            )?;
            folded.scale_real(&factor)?
        },
        BallFold::Outer => folded.duplicate(),
    };
    let scaled = balled.scale_real(&x.constant_like(settings.scale.significand, settings.scale.exponent))?;
    Some(DeepState { z: scaled.add(&state.c)?, z_prev: state.z_prev.duplicate(), c: state.c.duplicate() })
}

/// The Mandelbox step moves only `z`: the previous `z` and `c` are kept,
/// however the folds were decided.
pub proof fn mandelbox_steps_move_only_z(
    state: StateView,
    folded: ComplexView,
    radius_squared: DecimalView,
    ball: BallFold,
    settings: MandelboxSettings,
)
    ensures
        spec_mandelbox_ball(state, folded, radius_squared, ball, settings) matches Some(next) ==> {
            &&& next.1 == state.1
            &&& next.2 == state.2
        },
{
}

/// Both parts of a complex view are carried at `digits` digits.
pub open spec fn at_precision(value: ComplexView, digits: nat) -> bool {
    value.0.1 == digits && value.1.1 == digits
}

/// Both parts of `a` carry the same precision.
pub open spec fn uniform(a: ComplexView) -> bool {
    a.0.1 == a.1.1
}

/// A complex result carried at the precision of the left operand.
pub open spec fn keeps_precision(result: Option<ComplexView>, a: ComplexView) -> bool {
    result matches Some(r) ==> at_precision(r, a.0.1)
}

broadcast proof fn lemma_add_keeps_precision(a: ComplexView, b: ComplexView)
    requires
        uniform(a),
    ensures
        keeps_precision(#[trigger] complex_add(a, b), a),
{
}

broadcast proof fn lemma_sub_keeps_precision(a: ComplexView, b: ComplexView)
    requires
        uniform(a),
    ensures
        keeps_precision(#[trigger] complex_sub(a, b), a),
{
}

broadcast proof fn lemma_mul_keeps_precision(a: ComplexView, b: ComplexView)
    requires
        uniform(a),
    ensures
        keeps_precision(#[trigger] complex_mul(a, b), a),
{
}

broadcast proof fn lemma_div_keeps_precision(a: ComplexView, b: ComplexView)
    requires
        uniform(a),
    ensures
        keeps_precision(#[trigger] complex_div(a, b), a),
{
}

broadcast proof fn lemma_scale_i32_keeps_precision(a: ComplexView, factor: i32)
    requires
        uniform(a),
    ensures
        keeps_precision(#[trigger] complex_scale_i32(a, factor), a),
{
}

broadcast proof fn lemma_scale_real_keeps_precision(a: ComplexView, factor: DecimalView)
    requires
        uniform(a),
    ensures
        keeps_precision(#[trigger] complex_scale_real(a, factor), a),
{
}

broadcast proof fn lemma_square_keeps_precision(a: ComplexView)
    requires
        uniform(a),
    ensures
        keeps_precision(#[trigger] complex_square(a), a),
{
}

broadcast proof fn lemma_square_add_keeps_precision(a: ComplexView, c: ComplexView)
    requires
        uniform(a),
    ensures
        keeps_precision(#[trigger] complex_square_add(a, c), a),
{
}

proof fn lemma_pow_keeps_precision(a: ComplexView, degree: nat)
    requires
        uniform(a),
    ensures
        keeps_precision(complex_pow(a, degree), a),
    decreases degree,
{
    broadcast use lemma_mul_keeps_precision;
    if degree > 1 {
        lemma_pow_keeps_precision(a, (degree - 1) as nat);
    }
}

proof fn lemma_newton_keeps_precision(z: ComplexView, degree: u32, inverse_degree: DecimalSetting, relaxation: DecimalSetting)
    requires
        uniform(z),
    ensures
        keeps_precision(newton_step(z, degree, inverse_degree, relaxation), z),
{
    broadcast use lemma_div_keeps_precision, lemma_sub_keeps_precision, lemma_scale_real_keeps_precision;
    lemma_pow_keeps_precision(z, (degree - 1) as nat);
}

proof fn lemma_magnet_keeps_precision(z: ComplexView, c: ComplexView)
    requires
        uniform(z),
        uniform(c),
        z.0.1 == c.0.1,
    ensures
        keeps_precision(magnet_two_ratio(z, c), z),
{
    broadcast use lemma_add_keeps_precision, lemma_sub_keeps_precision, lemma_mul_keeps_precision,
        lemma_div_keeps_precision, lemma_scale_i32_keeps_precision, lemma_square_keeps_precision;
}

#[verifier::rlimit(50)]
proof fn lemma_quadratic_like_steps_keep_precision(family: FractalFamily, parameters: DeepParameters, state: StateView, digits: nat)
    requires
        family == FractalFamily::Quadratic || family == FractalFamily::Multibrot || is_abs_variant(family) || family == FractalFamily::Lambda,
        at_precision(state.0, digits),
        at_precision(state.1, digits),
        at_precision(state.2, digits),
    ensures
        spec_deep_step(family, parameters, state) matches Some(next) ==> {
            &&& at_precision(next.0, digits)
            &&& at_precision(next.1, digits)
            &&& at_precision(next.2, digits)
        },
{
    broadcast use lemma_add_keeps_precision, lemma_sub_keeps_precision, lemma_mul_keeps_precision,
        lemma_div_keeps_precision, lemma_scale_i32_keeps_precision, lemma_scale_real_keeps_precision,
        lemma_square_keeps_precision, lemma_square_add_keeps_precision;
    let (z, z_prev, c) = state;
    lemma_pow_keeps_precision(z, parameters.degree as nat);
}

#[verifier::rlimit(50)]
proof fn lemma_memory_steps_keep_precision(family: FractalFamily, parameters: DeepParameters, state: StateView, digits: nat)
    requires
        family == FractalFamily::Phoenix || family == FractalFamily::Manowar || family == FractalFamily::Spider,
        at_precision(state.0, digits),
        at_precision(state.1, digits),
        at_precision(state.2, digits),
    ensures
        spec_deep_step(family, parameters, state) matches Some(next) ==> {
            &&& at_precision(next.0, digits)
            &&& at_precision(next.1, digits)
            &&& at_precision(next.2, digits)
        },
{
    broadcast use lemma_add_keeps_precision, lemma_sub_keeps_precision, lemma_mul_keeps_precision,
        lemma_div_keeps_precision, lemma_scale_i32_keeps_precision, lemma_scale_real_keeps_precision,
        lemma_square_keeps_precision, lemma_square_add_keeps_precision;
    let (z, z_prev, c) = state;
    
}

#[verifier::rlimit(50)]
proof fn lemma_magnet_steps_keep_precision(family: FractalFamily, parameters: DeepParameters, state: StateView, digits: nat)
    requires
        family == FractalFamily::MagnetOne || family == FractalFamily::MagnetTwo,
        at_precision(state.0, digits),
        at_precision(state.1, digits),
        at_precision(state.2, digits),
    ensures
        spec_deep_step(family, parameters, state) matches Some(next) ==> {
            &&& at_precision(next.0, digits)
            &&& at_precision(next.1, digits)
            &&& at_precision(next.2, digits)
        },
{
    broadcast use lemma_add_keeps_precision, lemma_sub_keeps_precision, lemma_mul_keeps_precision,
        lemma_div_keeps_precision, lemma_scale_i32_keeps_precision, lemma_scale_real_keeps_precision,
        lemma_square_keeps_precision, lemma_square_add_keeps_precision;
    let (z, z_prev, c) = state;
    lemma_magnet_keeps_precision(z, c);
}

#[verifier::rlimit(50)]
proof fn lemma_barnsley_steps_keep_precision(family: FractalFamily, parameters: DeepParameters, state: StateView, digits: nat)
    requires
        family == FractalFamily::BarnsleyOne || family == FractalFamily::BarnsleyTwo,
        at_precision(state.0, digits),
        at_precision(state.1, digits),
        at_precision(state.2, digits),
    ensures
        spec_deep_step(family, parameters, state) matches Some(next) ==> {
            &&& at_precision(next.0, digits)
            &&& at_precision(next.1, digits)
            &&& at_precision(next.2, digits)
        },
{
    broadcast use lemma_add_keeps_precision, lemma_sub_keeps_precision, lemma_mul_keeps_precision,
        lemma_div_keeps_precision, lemma_scale_i32_keeps_precision, lemma_scale_real_keeps_precision,
        lemma_square_keeps_precision, lemma_square_add_keeps_precision;
    let (z, z_prev, c) = state;
    
}

#[verifier::rlimit(50)]
proof fn lemma_newton_steps_keep_precision(family: FractalFamily, parameters: DeepParameters, state: StateView, digits: nat)
    requires
        family == FractalFamily::NewtonCubic || family == FractalFamily::Nova,
        at_precision(state.0, digits),
        at_precision(state.1, digits),
        at_precision(state.2, digits),
    ensures
        spec_deep_step(family, parameters, state) matches Some(next) ==> {
            &&& at_precision(next.0, digits)
            &&& at_precision(next.1, digits)
            &&& at_precision(next.2, digits)
        },
{
    broadcast use lemma_add_keeps_precision, lemma_sub_keeps_precision, lemma_mul_keeps_precision,
        lemma_div_keeps_precision, lemma_scale_i32_keeps_precision, lemma_scale_real_keeps_precision,
        lemma_square_keeps_precision, lemma_square_add_keeps_precision;
    let (z, z_prev, c) = state;
    lemma_newton_keeps_precision(z, parameters.degree, parameters.inverse_degree, parameters.nova_relaxation);
    lemma_newton_keeps_precision(z, 3, newton_inverse_degree(), DecimalSetting { significand: 1i64, exponent: 0isize });
}

/// Deep arithmetic never changes the working precision: a step from a
/// state carried at `digits` digits gives a state carried at `digits`
/// digits, so a reference orbit keeps the precision its zoom depth chose.
pub proof fn deep_steps_keep_the_working_precision(family: FractalFamily, parameters: DeepParameters, state: StateView, digits: nat)
    requires
        at_precision(state.0, digits),
        at_precision(state.1, digits),
        at_precision(state.2, digits),
    ensures
        spec_deep_step(family, parameters, state) matches Some(next) ==> {
            &&& at_precision(next.0, digits)
            &&& at_precision(next.1, digits)
            &&& at_precision(next.2, digits)
        },
{
    if family == FractalFamily::Quadratic || family == FractalFamily::Multibrot || is_abs_variant(family) || family == FractalFamily::Lambda {
        lemma_quadratic_like_steps_keep_precision(family, parameters, state, digits);
    } else if family == FractalFamily::Phoenix || family == FractalFamily::Manowar || family == FractalFamily::Spider {
        lemma_memory_steps_keep_precision(family, parameters, state, digits);
    } else if family == FractalFamily::MagnetOne || family == FractalFamily::MagnetTwo {
        lemma_magnet_steps_keep_precision(family, parameters, state, digits);
    } else if family == FractalFamily::BarnsleyOne || family == FractalFamily::BarnsleyTwo {
        lemma_barnsley_steps_keep_precision(family, parameters, state, digits);
    } else if family == FractalFamily::NewtonCubic || family == FractalFamily::Nova {
        lemma_newton_steps_keep_precision(family, parameters, state, digits);
    }
}

/// The Mandelbox step keeps the working precision too: from a state and a
/// folded value carried at `digits` digits it gives a state at `digits`.
pub proof fn mandelbox_steps_keep_the_working_precision(
    state: StateView,
    folded: ComplexView,
    radius_squared: DecimalView,
    ball: BallFold,
    settings: MandelboxSettings,
    digits: nat,
)
    requires
        at_precision(state.0, digits),
        at_precision(state.1, digits),
        at_precision(state.2, digits),
        at_precision(folded, digits),
    ensures
        spec_mandelbox_ball(state, folded, radius_squared, ball, settings) matches Some(next) ==> {
            &&& at_precision(next.0, digits)
            &&& at_precision(next.1, digits)
            &&& at_precision(next.2, digits)
        },
{
    broadcast use lemma_add_keeps_precision, lemma_scale_real_keeps_precision;
}

/// The value a catalogue start stands for in a deep orbit: the constants 0,
/// 1/2 and 1 at the precision of the pixel, the pixel, or the parameter.
/// Half of pi starts only `f32` families and has no deep value.
pub open spec fn deep_start_value(start: StartValue, world: ComplexView, parameter: ComplexView) -> Option<ComplexView> {
    match start {
        StartValue::Zero => Some(complex_zero_like(world)),
        StartValue::Half => Some(complex_constant(world, 5, -1isize)),
        StartValue::One => Some(complex_constant(world, 1, 0)),
        StartValue::Pixel => Some(world),
        StartValue::Parameter => Some(parameter),
        StartValue::HalfPi => None,
    }
}

/// A deep orbit starts where the family catalogue says the family's orbits
/// start: each of `z`, the previous `z` and `c` is the catalogue's start
/// value (on the parameter plane Lambda from 1/2, Nova from 1, Manowar and
/// the Barnsley maps from the pixel, the others from 0), for every family
/// with a deep path.
pub proof fn deep_orbits_start_where_the_catalogue_says(
    family: FractalFamily,
    world: ComplexView,
    dynamical: bool,
    parameter: ComplexView,
)
    requires
        !family.spec_f32_only(),
    ensures
        ({
            let start = family.spec_orbit_start(dynamical);
            let initial = spec_deep_initial(family, world, dynamical, parameter);
            &&& deep_start_value(start.z, world, parameter) == Some(initial.0)
            &&& deep_start_value(start.z_prev, world, parameter) == Some(initial.1)
            &&& deep_start_value(start.c, world, parameter) == Some(initial.2)
        }),
{
}

/// The next `z` of the maps written `z' = f(z, c)`, each step rounded: the
/// quadratic `z² + c`, Multibrot `zᵖ + c`, Lambda `c · (z · (1 − z))`,
/// Manowar `z² + z_prev + c`, Spider `z² + c` (with `c' = c/2 + z'`),
/// Magnet I `((z² + c − 1) / (2z + c − 2))²`, and Nova the relaxed Newton
/// step plus `c`. The constants are read at the precision of `z`.
pub proof fn deep_steps_follow_each_recurrence(family: FractalFamily, parameters: DeepParameters, state: StateView)
    ensures
        ({
            let (z, z_prev, c) = state;
            let one = complex_constant(z, 1, 0);
            let two = complex_constant(z, 2, 0);
            let next = spec_deep_step(family, parameters, state);
            &&& family == FractalFamily::Quadratic ==> next == with_z(complex_square_add(z, c), z_prev, c)
            &&& family == FractalFamily::Multibrot ==> next == with_z(
                match complex_pow(z, parameters.degree as nat) {
                    Some(power) => complex_add(power, c),
                    None => None,
                },
                z_prev,
                c,
            )
            &&& family == FractalFamily::Lambda ==> next == with_z(
                match complex_sub(one, z) {
                    Some(one_minus_z) => match complex_mul(z, one_minus_z) {
                        Some(product) => complex_mul(c, product),
                        None => None,
                    },
                    None => None,
                },
                z_prev,
                c,
            )
            &&& family == FractalFamily::Manowar ==> next == match complex_square(z) {
                Some(square) => match complex_add(square, z_prev) {
                    Some(sum) => match complex_add(sum, c) {
                        Some(z_next) => Some((z_next, z, c)),
                        None => None,
                    },
                    None => None,
                },
                None => None,
            }
            &&& family == FractalFamily::Spider ==> next == match complex_square_add(z, c) {
                Some(z_next) => match complex_scale_real(c, deep_constant(5, -1isize, z.0.1)) {
                    Some(half_c) => match complex_add(half_c, z_next) {
                        Some(c_next) => Some((z_next, z_prev, c_next)),
                        None => None,
                    },
                    None => None,
                },
                None => None,
            }
            &&& family == FractalFamily::MagnetOne ==> next == with_z(
                match (complex_square(z), complex_scale_i32(z, 2)) {
                    (Some(square), Some(double)) => match (complex_add(square, c), complex_add(double, c)) {
                        (Some(top), Some(bottom)) => match (complex_sub(top, one), complex_sub(bottom, two)) {
                            (Some(numerator), Some(denominator)) => match complex_div(numerator, denominator) {
                                Some(ratio) => complex_square(ratio),
                                None => None,
                            },
                            _ => None,
                        },
                        _ => None,
                    },
                    _ => None,
                },
                z_prev,
                c,
            )
            &&& family == FractalFamily::Nova ==> next == with_z(
                match newton_step(z, parameters.degree, parameters.inverse_degree, parameters.nova_relaxation) {
                    Some(shifted) => complex_add(shifted, c),
                    None => None,
                },
                z_prev,
                c,
            )
            &&& family == FractalFamily::NewtonCubic ==> next == with_z(
                newton_step(z, 3, newton_inverse_degree(), DecimalSetting { significand: 1i64, exponent: 0isize }),
                z_prev,
                c,
            )
        }),
{
}

/// The maps with a memory or a sign test, written out: Phoenix
/// `z' = (re(z²) + re c + im c · re z_prev, im(z²) + im c · im z_prev)` with
/// `z_prev' = z`, and the Barnsley maps `z' = (z ∓ 1) · c`, taking `z + 1`
/// when the test value is negative: `re z` for the first map and
/// `re z · im c + re c · im z` for the second.
pub proof fn deep_steps_follow_the_memory_and_switch_maps(family: FractalFamily, parameters: DeepParameters, state: StateView)
    ensures
        ({
            let (z, z_prev, c) = state;
            let one = complex_constant(z, 1, 0);
            let next = spec_deep_step(family, parameters, state);
            let shifted = |test: DecimalView| if decimal_is_negative(test.0) { complex_add(z, one) } else { complex_sub(z, one) };
            &&& family == FractalFamily::Phoenix ==> next == match complex_square(z) {
                Some(square) => match (deep_add(square.0, c.0), deep_mul(c.1, z_prev.0), deep_mul(c.1, z_prev.1)) {
                    (Some(a), Some(b), Some(d)) => match (deep_add(a, b), deep_add(square.1, d)) {
                        (Some(re), Some(im)) => Some(((re, im), z, c)),
                        _ => None,
                    },
                    _ => None,
                },
                None => None,
            }
            &&& family == FractalFamily::BarnsleyOne ==> next == if !decimal_in_range(z.0.0) {
                None
            } else {
                match shifted(z.0) {
                    Some(s) => with_z(complex_mul(s, c), z_prev, c),
                    None => None,
                }
            }
            &&& family == FractalFamily::BarnsleyTwo ==> next == match (deep_mul(z.0, c.1), deep_mul(c.0, z.1)) {
                (Some(a), Some(b)) => match deep_add(a, b) {
                    Some(test) => if !decimal_in_range(test.0) {
                        None
                    } else {
                        match shifted(test) {
                            Some(s) => with_z(complex_mul(s, c), z_prev, c),
                            None => None,
                        }
                    },
                    None => None,
                },
                _ => None,
            }
        }),
{
}

/// The absolute-value variants of the quadratic map, written out with
/// `x = re z`, `y = im z`: the real part is `x² − y² + re c` (its modulus for
/// Celtic, Buffalo and their perpendicular forms); the imaginary part is
/// `2xy` (Mandelbrot-like), `−2xy` (Tricorn), `2|xy|` (Burning Ship,
/// Buffalo), `−2|x|y` (perpendicular Mandelbrot and Celtic) or `−2x|y|`
/// (perpendicular Burning Ship and Buffalo), plus `im c`.
pub proof fn deep_steps_follow_the_absolute_value_maps(family: FractalFamily, z: ComplexView, c: ComplexView)
    requires
        is_abs_variant(family),
    ensures
        ({
            let (x, y) = z;
            let modulus_re = family == FractalFamily::Celtic || family == FractalFamily::PerpendicularCeltic
                || family == FractalFamily::Buffalo || family == FractalFamily::PerpendicularBuffalo;
            let re_part = |square: DecimalView| if modulus_re {
                match deep_abs(square) {
                    Some(a) => deep_add(a, c.0),
                    None => None,
                }
            } else {
                deep_add(square, c.0)
            };
            let im_twice = |xy: DecimalView| if family == FractalFamily::Tricorn {
                deep_mul_i32(xy, -2i32)
            } else if family == FractalFamily::BurningShip || family == FractalFamily::Buffalo {
                match deep_abs(xy) {
                    Some(a) => deep_mul_i32(a, 2i32),
                    None => None,
                }
            } else if family == FractalFamily::PerpendicularMandelbrot || family == FractalFamily::PerpendicularCeltic {
                match deep_abs(x) {
                    Some(a) => match deep_mul(a, y) {
                        Some(m) => deep_mul_i32(m, -2i32),
                        None => None,
                    },
                    None => None,
                }
            } else if family == FractalFamily::PerpendicularBurningShip || family == FractalFamily::PerpendicularBuffalo {
                match deep_abs(y) {
                    Some(a) => match deep_mul(x, a) {
                        Some(m) => deep_mul_i32(m, -2i32),
                        None => None,
                    },
                    None => None,
                }
            } else {
                deep_mul_i32(xy, 2i32)
            };
            abs_variant_step(family, z, c) == match (deep_mul(x, x), deep_mul(y, y)) {
                (Some(xx), Some(yy)) => match (deep_sub(xx, yy), deep_mul(x, y)) {
                    (Some(square), Some(xy)) => match (re_part(square), im_twice(xy)) {
                        (Some(re), Some(twice)) => match deep_add(twice, c.1) {
                            Some(im) => Some((re, im)),
                            None => None,
                        },
                        _ => None,
                    },
                    _ => None,
                },
                _ => None,
            }
        }),
{
}

/// Complex arithmetic follows the textbook formulas, each real operation
/// rounded: `(a + bi)(c + di) = (ac − bd) + (ad + bc)i`,
/// `(a + bi)² = (a² − b²) + 2abi`, and `z² + c` adds `c` to the square's
/// parts.
pub proof fn complex_arithmetic_follows_the_textbook_formulas(a: ComplexView, b: ComplexView)
    ensures
        complex_mul(a, b) == match (deep_mul(a.0, b.0), deep_mul(a.1, b.1), deep_mul(a.0, b.1), deep_mul(a.1, b.0)) {
            (Some(ac), Some(bd), Some(ad), Some(bc)) => match (deep_sub(ac, bd), deep_add(ad, bc)) {
                (Some(re), Some(im)) => Some((re, im)),
                _ => None,
            },
            _ => None,
        },
        complex_square(a) == match (deep_mul(a.0, a.0), deep_mul(a.1, a.1), deep_mul(a.0, a.1)) {
            (Some(aa), Some(bb), Some(ab)) => match (deep_sub(aa, bb), deep_mul_i32(ab, 2)) {
                (Some(re), Some(im)) => Some((re, im)),
                _ => None,
            },
            _ => None,
        },
        complex_square_add(a, b) == match (deep_mul(a.0, a.0), deep_mul(a.1, a.1), deep_mul(a.0, a.1)) {
            (Some(aa), Some(bb), Some(ab)) => match (deep_sub(aa, bb), deep_mul_i32(ab, 2)) {
                (Some(re_square), Some(im_square)) => match (deep_add(re_square, b.0), deep_add(im_square, b.1)) {
                    (Some(re), Some(im)) => Some((re, im)),
                    _ => None,
                },
                _ => None,
            },
            _ => None,
        },
        complex_add(a, b) == match (deep_add(a.0, b.0), deep_add(a.1, b.1)) {
            (Some(re), Some(im)) => Some((re, im)),
            _ => None,
        },
        complex_sub(a, b) == match (deep_sub(a.0, b.0), deep_sub(a.1, b.1)) {
            (Some(re), Some(im)) => Some((re, im)),
            _ => None,
        },
{
}

/// Complex division multiplies by the conjugate over `|b|²`:
/// `a / b = ((a.re b.re + a.im b.im) + (a.im b.re − a.re b.im)i) / (b.re² + b.im²)`,
/// and a zero `|b|²` is a pole far beyond every escape radius.
pub proof fn complex_division_uses_the_conjugate(a: ComplexView, b: ComplexView)
    ensures
        complex_div(a, b) == match (deep_mul(b.0, b.0), deep_mul(b.1, b.1)) {
            (Some(p), Some(q)) => match deep_add(p, q) {
                None => None,
                Some(norm) => if !decimal_in_range(norm.0) {
                    None
                } else if decimal_is_zero(norm.0) {
                    Some(complex_constant(a, 100_000_000_000_000_005, 283))
                } else {
                    match (deep_mul(a.0, b.0), deep_mul(a.1, b.1), deep_mul(a.1, b.0), deep_mul(a.0, b.1)) {
                        (Some(rr), Some(ii), Some(ir), Some(ri)) => match (deep_add(rr, ii), deep_sub(ir, ri)) {
                            (Some(re), Some(im)) => match (deep_div(re, norm), deep_div(im, norm)) {
                                (Some(x), Some(y)) => Some((x, y)),
                                _ => None,
                            },
                            _ => None,
                        },
                        _ => None,
                    }
                },
            },
            _ => None,
        },
{
}

/// Magnet II, written out: `z' = (N / D)²` with
/// `N = z³ + 3(c − 1)z + (c − 1)(c − 2)` and
/// `D = 3z² + 3(c − 2)z + (c − 1)(c − 2) + 1`.
pub proof fn magnet_two_steps_follow_their_rational_map(parameters: DeepParameters, state: StateView)
    ensures
        ({
            let (z, z_prev, c) = state;
            let one = complex_constant(z, 1, 0);
            let two = complex_constant(z, 2, 0);
            spec_deep_step(FractalFamily::MagnetTwo, parameters, state) == match (complex_sub(c, one), complex_sub(c, two), complex_square(z)) {
                (Some(c_less_one), Some(c_less_two), Some(z_squared)) => match (
                    complex_mul(c_less_one, c_less_two),
                    complex_mul(z_squared, z),
                    complex_mul(c_less_one, z),
                    complex_mul(c_less_two, z),
                    complex_scale_i32(z_squared, 3),
                ) {
                    (Some(constant_term), Some(z_cubed), Some(linear_n), Some(linear_d), Some(square_d)) => match (
                        complex_scale_i32(linear_n, 3),
                        complex_scale_i32(linear_d, 3),
                    ) {
                        (Some(three_linear_n), Some(three_linear_d)) => match (
                            complex_add(z_cubed, three_linear_n),
                            complex_add(square_d, three_linear_d),
                        ) {
                            (Some(n1), Some(d1)) => match (complex_add(n1, constant_term), complex_add(d1, constant_term)) {
                                (Some(numerator), Some(d2)) => match complex_add(d2, one) {
                                    Some(denominator) => match complex_div(numerator, denominator) {
                                        Some(ratio) => match complex_square(ratio) {
                                            Some(z_next) => Some((z_next, z_prev, c)),
                                            None => None,
                                        },
                                        None => None,
                                    },
                                    None => None,
                                },
                                _ => None,
                            },
                            _ => None,
                        },
                        _ => None,
                    },
                    _ => None,
                },
                _ => None,
            }
        }),
{
}

/// The relaxed Newton step for `zᵖ − 1`, written out:
/// `z' = z − relaxation · ((z − 1 / z^(p−1)) · (1/p))`.
pub proof fn newton_steps_follow_the_relaxed_newton_map(
    z: ComplexView,
    degree: u32,
    inverse_degree: DecimalSetting,
    relaxation: DecimalSetting,
)
    ensures
        newton_step(z, degree, inverse_degree, relaxation) == match complex_pow(z, (degree - 1) as nat) {
            Some(power) => match complex_div(complex_constant(z, 1, 0), power) {
                Some(reciprocal) => match complex_sub(z, reciprocal) {
                    Some(difference) => match complex_scale_real(
                        difference,
                        deep_constant(inverse_degree.significand, inverse_degree.exponent, z.0.1),
                    ) {
                        Some(step) => match complex_scale_real(
                            step,
                            deep_constant(relaxation.significand, relaxation.exponent, z.0.1),
                        ) {
                            Some(relaxed) => complex_sub(z, relaxed),
                            None => None,
                        },
                        None => None,
                    },
                    None => None,
                },
                None => None,
            },
            None => None,
        },
{
}

/// A step changes nothing but `z`, except that the Phoenix and Manowar
/// steps keep the old `z` as the previous one and the Spider step moves
/// `c`.
pub proof fn deep_steps_change_only_what_their_map_moves(family: FractalFamily, parameters: DeepParameters, state: StateView)
    ensures
        spec_deep_step(family, parameters, state) matches Some(next) ==> {
            &&& next.1 == (if family == FractalFamily::Phoenix || family == FractalFamily::Manowar { state.0 } else { state.1 })
            &&& family != FractalFamily::Spider ==> next.2 == state.2
        },
{
}

/// A deep orbit starts at the precision of the pixel's coordinates: the
/// initial state is carried at the digits of the pixel (and parameter) when
/// their precision is one a zoom depth gives.
pub proof fn deep_orbits_start_at_the_pixel_precision(
    family: FractalFamily,
    world: ComplexView,
    dynamical: bool,
    parameter: ComplexView,
    zoom_exponent: u32,
)
    requires
        zoom_exponent <= u32::MAX - GUARD_DECIMAL_DIGITS,
        at_precision(world, spec_decimal_digits(zoom_exponent)),
        at_precision(parameter, spec_decimal_digits(zoom_exponent)),
    ensures
        at_precision(spec_deep_initial(family, world, dynamical, parameter).0, spec_decimal_digits(zoom_exponent)),
        at_precision(spec_deep_initial(family, world, dynamical, parameter).1, spec_decimal_digits(zoom_exponent)),
        at_precision(spec_deep_initial(family, world, dynamical, parameter).2, spec_decimal_digits(zoom_exponent)),
{
    let digits = spec_decimal_digits(zoom_exponent);
    let exponent = zero_exponent(digits);
    assert(spec_decimal_digits(exponent) == digits);
}

} // verus!
