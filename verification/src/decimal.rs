//! Fixed-point decimal numbers as plain values.
//!
//! A [`Dec`] is a signed 96-bit mantissa together with a scale between
//! 0 and 28; it stands for `mantissa / 10^scale`. The arithmetic itself is
//! done by the `rust_decimal` crate: each operation here hands the two parts
//! to it and takes the two parts of the answer back.

use vstd::prelude::*;

verus! {

/// Largest magnitude of a mantissa: `2^96 - 1`.
pub const MAX_MANTISSA: i128 = 79_228_162_514_264_337_593_543_950_335;

/// Largest scale.
pub const MAX_SCALE: u32 = 28;

/// Largest number of fractional digits that a decimal is printed with on
/// request. `rust_decimal` builds the text of a decimal in 32 characters: up
/// to 29 digits before the point, the point, and these.
pub const MAX_FIXED_PLACES: usize = 2;

/// `10^n`.
pub open spec fn pow10(n: nat) -> int
    decreases n,
{
    if n == 0 {
        1
    } else {
        10 * pow10((n - 1) as nat)
    }
}

/// Powers of ten are positive.
pub proof fn lemma_pow10_positive(n: nat)
    ensures
        pow10(n) > 0,
    decreases n,
{
    if n > 0 {
        lemma_pow10_positive((n - 1) as nat);
    }
}

/// The whole number `n` as a decimal of scale 0.
pub open spec fn whole(n: int) -> Dec {
    Dec::spec_new(n, 0)
}

/// A decimal number `mantissa / 10^scale`.
///
/// Two values with different scales can stand for the same number (`1` and
/// `1.0`); the derived `==` tells them apart, the numeric order
/// ([`Dec::ge`] and its relatives) does not.
#[derive(Clone, Copy, Debug, PartialEq, Eq)]
pub struct Dec {
    pub(crate) mantissa: i128,
    pub(crate) scale: u32,
}

/// The mantissa and scale that `rust_decimal` gives to `a - b`, or `None`
/// where the difference cannot be represented.
pub uninterp spec fn decimal_difference(
    a_mantissa: int,
    a_scale: nat,
    b_mantissa: int,
    b_scale: nat,
) -> Option<(int, nat)>;

/// The mantissa and scale that `rust_decimal` gives to `a * b`, or `None`
/// where the product cannot be represented.
pub uninterp spec fn decimal_product(
    a_mantissa: int,
    a_scale: nat,
    b_mantissa: int,
    b_scale: nat,
) -> Option<(int, nat)>;

/// The mantissa and scale that `rust_decimal` gives to `a / b`, or `None`
/// where the divisor is zero or the quotient cannot be represented.
pub uninterp spec fn decimal_quotient(
    a_mantissa: int,
    a_scale: nat,
    b_mantissa: int,
    b_scale: nat,
) -> Option<(int, nat)>;

/// The text that `rust_decimal` prints for a decimal.
pub uninterp spec fn decimal_text(mantissa: int, scale: nat) -> Seq<char>;

/// A character that the text of a decimal is made of: a digit, the point,
/// or the minus sign.
pub open spec fn is_decimal_char(c: char) -> bool {
    ('0' <= c <= '9') || c == '.' || c == '-'
}

/// The text that `rust_decimal` prints for a decimal when asked for a fixed
/// number of fractional digits.
pub uninterp spec fn decimal_text_fixed(mantissa: int, scale: nat, places: nat) -> Seq<char>;

impl Dec {
    #[verifier::type_invariant]
    spec fn inv(self) -> bool {
        self.wf()
    }

    /// The mantissa, as a specification value.
    pub closed spec fn spec_mantissa(&self) -> i128 {
        self.mantissa
    }

    /// The scale, as a specification value.
    pub closed spec fn spec_scale(&self) -> u32 {
        self.scale
    }

    /// The decimal with the given parts.
    pub closed spec fn spec_new(mantissa: int, scale: nat) -> Dec {
        Dec { mantissa: mantissa as i128, scale: scale as u32 }
    }

    /// The mantissa is at most 96 bits wide and the scale at most 28. Every
    /// value that executable code holds is well formed.
    pub open spec fn wf(self) -> bool {
        &&& -MAX_MANTISSA <= self.mantissa() <= MAX_MANTISSA
        &&& self.scale() <= MAX_SCALE
    }

    /// Whether the given parts make a well-formed decimal.
    pub open spec fn representable(mantissa: int, scale: nat) -> bool {
        &&& -MAX_MANTISSA <= mantissa <= MAX_MANTISSA
        &&& scale <= MAX_SCALE
    }

    /// `self >= other` as numbers.
    pub open spec fn spec_ge(self, other: Dec) -> bool {
        self.mantissa() * pow10(other.scale() as nat) >= other.mantissa() * pow10(
            self.scale() as nat,
        )
    }

    /// `self < other` as numbers.
    pub open spec fn spec_lt(self, other: Dec) -> bool {
        !self.spec_ge(other)
    }

    /// `self <= other` as numbers.
    pub open spec fn spec_le(self, other: Dec) -> bool {
        other.spec_ge(self)
    }

    /// `self > other` as numbers.
    pub open spec fn spec_gt(self, other: Dec) -> bool {
        !other.spec_ge(self)
    }

    /// Both operands are non-zero, and their product needs no rounding: the
    /// mantissas multiply to at most 96 bits, the scales add up to at most 28.
    pub open spec fn exact_product(self, other: Dec) -> bool {
        &&& self.mantissa() != 0
        &&& other.mantissa() != 0
        &&& -MAX_MANTISSA <= self.mantissa() * other.mantissa() <= MAX_MANTISSA
        &&& self.scale() + other.scale() <= MAX_SCALE
    }

    /// What [`Dec::checked_sub`] returns.
    pub open spec fn spec_checked_sub(self, other: Dec) -> Option<Dec> {
        match decimal_difference(
            self.mantissa() as int,
            self.scale() as nat,
            other.mantissa() as int,
            other.scale() as nat,
        ) {
            Some((m, s)) => Some(Dec::spec_new(m, s)),
            None => None,
        }
    }

    /// What [`Dec::checked_mul`] returns.
    pub open spec fn spec_checked_mul(self, other: Dec) -> Option<Dec> {
        match decimal_product(
            self.mantissa() as int,
            self.scale() as nat,
            other.mantissa() as int,
            other.scale() as nat,
        ) {
            Some((m, s)) => Some(Dec::spec_new(m, s)),
            None => None,
        }
    }

    /// What [`Dec::checked_div`] returns.
    pub open spec fn spec_checked_div(self, other: Dec) -> Option<Dec> {
        match decimal_quotient(
            self.mantissa() as int,
            self.scale() as nat,
            other.mantissa() as int,
            other.scale() as nat,
        ) {
            Some((m, s)) => Some(Dec::spec_new(m, s)),
            None => None,
        }
    }

    /// The text of this decimal: digits, with a point before the last
    /// `scale` of them.
    pub open spec fn spec_text(self) -> Seq<char> {
        decimal_text(self.mantissa() as int, self.scale() as nat)
    }

    /// The text of this decimal with exactly `places` fractional digits.
    pub open spec fn spec_text_fixed(self, places: nat) -> Seq<char> {
        decimal_text_fixed(self.mantissa() as int, self.scale() as nat, places)
    }

    /// The parts of `spec_new` are the parts it was given, where they fit.
    pub proof fn lemma_spec_new_parts(mantissa: int, scale: nat)
        requires
            Dec::representable(mantissa, scale),
        ensures
            Dec::spec_new(mantissa, scale).mantissa() == mantissa,
            Dec::spec_new(mantissa, scale).scale() == scale,
            Dec::spec_new(mantissa, scale).wf(),
    {
    }

    /// A decimal is determined by its two parts.
    pub proof fn lemma_parts_determine(self, other: Dec)
        requires
            self.mantissa() == other.mantissa(),
            self.scale() == other.scale(),
        ensures
            self == other,
    {
    }

    /// The whole number `value`, with scale 0.
    pub fn from_i64(value: i64) -> (d: Dec)
        ensures
            d == Dec::spec_new(value as int, 0),
            d.mantissa() == value,
            d.scale() == 0,
    {
        Dec { mantissa: value as i128, scale: 0 }
    }

    /// The decimal `mantissa / 10^scale`.
    pub fn new(mantissa: i64, scale: u32) -> (d: Dec)
        requires
            scale <= MAX_SCALE,
        ensures
            d == Dec::spec_new(mantissa as int, scale as nat),
            d.mantissa() == mantissa,
            d.scale() == scale,
    {
        Dec { mantissa: mantissa as i128, scale }
    }

    /// The decimal with the given parts, or `None` where the mantissa needs
    /// more than 96 bits or the scale is above 28.
    pub fn try_new(mantissa: i128, scale: u32) -> (d: Option<Dec>)
        ensures
            d is Some <==> Dec::representable(mantissa as int, scale as nat),
            d matches Some(v) ==> v.mantissa() == mantissa && v.scale() == scale && v
                == Dec::spec_new(mantissa as int, scale as nat),
    {
        if scale <= MAX_SCALE && -MAX_MANTISSA <= mantissa && mantissa <= MAX_MANTISSA {
            Some(Dec { mantissa, scale })
        } else {
            None
        }
    }

    /// The mantissa.
    #[verifier::when_used_as_spec(spec_mantissa)]
    pub fn mantissa(&self) -> (m: i128)
        ensures
            m == self.mantissa(),
            -MAX_MANTISSA <= m <= MAX_MANTISSA,
    {
        proof {
            use_type_invariant(self);
        }
        self.mantissa
    }

    /// The scale.
    #[verifier::when_used_as_spec(spec_scale)]
    pub fn scale(&self) -> (s: u32)
        ensures
            s == self.scale(),
            s <= MAX_SCALE,
    {
        proof {
            use_type_invariant(self);
        }
        self.scale
    }

    /// `self >= other` as numbers.
    pub fn ge(&self, other: &Dec) -> (r: bool)
        ensures
            r == self.spec_ge(*other),
    {
        proof {
            use_type_invariant(self);
            use_type_invariant(other);
        }
        at_least(self, other)
    }

    /// `self < other` as numbers.
    pub fn lt(&self, other: &Dec) -> (r: bool)
        ensures
            r == self.spec_lt(*other),
    {
        !self.ge(other)
    }

    /// `self <= other` as numbers.
    pub fn le(&self, other: &Dec) -> (r: bool)
        ensures
            r == self.spec_le(*other),
    {
        other.ge(self)
    }

    /// `self > other` as numbers.
    pub fn gt(&self, other: &Dec) -> (r: bool)
        ensures
            r == self.spec_gt(*other),
    {
        !other.ge(self)
    }

    /// `self - other`, or `None` where it cannot be represented.
    pub fn checked_sub(&self, other: &Dec) -> (r: Option<Dec>)
        ensures
            r == self.spec_checked_sub(*other),
    {
        proof {
            use_type_invariant(self);
            use_type_invariant(other);
        }
        let r = difference(self, other);
        proof {
            if let Some(d) = r {
                use_type_invariant(&d);
                d.lemma_parts_determine(Dec::spec_new(d.mantissa() as int, d.scale() as nat));
            }
        }
        r
    }

    /// `self * other`, or `None` where it cannot be represented.
    pub fn checked_mul(&self, other: &Dec) -> (r: Option<Dec>)
        ensures
            r == self.spec_checked_mul(*other),
            (self.mantissa() == 0 || other.mantissa() == 0) ==> r == Some(Dec::spec_new(0, 0)),
            self.exact_product(*other) ==> r == Some(
                Dec::spec_new(
                    self.mantissa() * other.mantissa(),
                    (self.scale() + other.scale()) as nat,
                ),
            ),
    {
        proof {
            use_type_invariant(self);
            use_type_invariant(other);
        }
        let r = product(self, other);
        proof {
            if let Some(d) = r {
                use_type_invariant(&d);
                d.lemma_parts_determine(Dec::spec_new(d.mantissa() as int, d.scale() as nat));
            }
        }
        r
    }

    /// `self / other`, or `None` where `other` is zero or the quotient
    /// cannot be represented.
    pub fn checked_div(&self, other: &Dec) -> (r: Option<Dec>)
        ensures
            r == self.spec_checked_div(*other),
            other.mantissa() == 0 ==> r is None,
            (self.mantissa() == 0 && other.mantissa() != 0) ==> r == Some(Dec::spec_new(0, 0)),
    {
        proof {
            use_type_invariant(self);
            use_type_invariant(other);
        }
        let r = quotient(self, other);
        proof {
            if let Some(d) = r {
                use_type_invariant(&d);
                d.lemma_parts_determine(Dec::spec_new(d.mantissa() as int, d.scale() as nat));
            }
        }
        r
    }

    /// The decimal as text.
    pub fn to_text(&self) -> (s: String)
        ensures
            s@ == self.spec_text(),
            forall|i: int| 0 <= i < s@.len() ==> is_decimal_char(#[trigger] s@[i]),
    {
        proof {
            use_type_invariant(self);
        }
        text(self)
    }

    /// The decimal as text with exactly `places` fractional digits, of which
    /// there are at most two.
    pub fn to_text_fixed(&self, places: usize) -> (s: String)
        requires
            places <= MAX_FIXED_PLACES,
        ensures
            s@ == self.spec_text_fixed(places as nat),
    {
        proof {
            use_type_invariant(self);
        }
        text_fixed(self, places)
    }
}

/// Calls `>=` of `rust_decimal::Decimal`, which orders decimals by the
/// numbers they stand for, whatever their scales: the claim is that the
/// answer is the comparison of the two mantissas brought to a common scale.
#[verifier::external_body]
fn at_least(a: &Dec, b: &Dec) -> (r: bool)
    requires
        a.wf(),
        b.wf(),
    ensures
        r == a.spec_ge(*b),
{
    let x = rust_decimal::Decimal::from_i128_with_scale(a.mantissa, a.scale);
    let y = rust_decimal::Decimal::from_i128_with_scale(b.mantissa, b.scale);
    x >= y
}

/// Calls `rust_decimal::Decimal::checked_sub`. The claim is only that the
/// answer is a function of the two operands, named `decimal_difference`.
#[verifier::external_body]
fn difference(a: &Dec, b: &Dec) -> (r: Option<Dec>)
    requires
        a.wf(),
        b.wf(),
    ensures
        r matches Some(d) ==> decimal_difference(
            a.mantissa() as int,
            a.scale() as nat,
            b.mantissa() as int,
            b.scale() as nat,
        ) == Some((d.mantissa() as int, d.scale() as nat)),
        r is None ==> decimal_difference(
            a.mantissa() as int,
            a.scale() as nat,
            b.mantissa() as int,
            b.scale() as nat,
        ) is None,
{
    let x = rust_decimal::Decimal::from_i128_with_scale(a.mantissa, a.scale);
    let y = rust_decimal::Decimal::from_i128_with_scale(b.mantissa, b.scale);
    x.checked_sub(y).map(|d| Dec { mantissa: d.mantissa(), scale: d.scale() })
}

/// Calls `rust_decimal::Decimal::checked_mul`. The claim is that the answer
/// is a function of the two operands, named `decimal_product`; that a zero
/// operand gives the zero of scale 0; and that two non-zero operands whose
/// mantissas multiply to at most 96 bits and whose scales add up to at most
/// 28 give exactly that mantissa and that scale, with no rounding.
#[verifier::external_body]
fn product(a: &Dec, b: &Dec) -> (r: Option<Dec>)
    requires
        a.wf(),
        b.wf(),
    ensures
        r matches Some(d) ==> decimal_product(
            a.mantissa() as int,
            a.scale() as nat,
            b.mantissa() as int,
            b.scale() as nat,
        ) == Some((d.mantissa() as int, d.scale() as nat)),
        r is None ==> decimal_product(
            a.mantissa() as int,
            a.scale() as nat,
            b.mantissa() as int,
            b.scale() as nat,
        ) is None,
        (a.mantissa() == 0 || b.mantissa() == 0) ==> r == Some(Dec::spec_new(0, 0)),
        Dec::exact_product(*a, *b) ==> r == Some(
            Dec::spec_new(a.mantissa() * b.mantissa(), (a.scale() + b.scale()) as nat),
        ),
{
    let x = rust_decimal::Decimal::from_i128_with_scale(a.mantissa, a.scale);
    let y = rust_decimal::Decimal::from_i128_with_scale(b.mantissa, b.scale);
    x.checked_mul(y).map(|d| Dec { mantissa: d.mantissa(), scale: d.scale() })
}

/// Calls `rust_decimal::Decimal::checked_div`. The claim is that the answer
/// is a function of the two operands, named `decimal_quotient`; that a zero
/// divisor gives `None`; and that zero divided by anything else is the zero
/// of scale 0.
#[verifier::external_body]
fn quotient(a: &Dec, b: &Dec) -> (r: Option<Dec>)
    requires
        a.wf(),
        b.wf(),
    ensures
        r matches Some(d) ==> decimal_quotient(
            a.mantissa() as int,
            a.scale() as nat,
            b.mantissa() as int,
            b.scale() as nat,
        ) == Some((d.mantissa() as int, d.scale() as nat)),
        r is None ==> decimal_quotient(
            a.mantissa() as int,
            a.scale() as nat,
            b.mantissa() as int,
            b.scale() as nat,
        ) is None,
        b.mantissa() == 0 ==> r is None,
        (a.mantissa() == 0 && b.mantissa() != 0) ==> r == Some(Dec::spec_new(0, 0)),
{
    let x = rust_decimal::Decimal::from_i128_with_scale(a.mantissa, a.scale);
    let y = rust_decimal::Decimal::from_i128_with_scale(b.mantissa, b.scale);
    x.checked_div(y).map(|d| Dec { mantissa: d.mantissa(), scale: d.scale() })
}

/// Calls `to_string` of `rust_decimal::Decimal`. The claim is that the text
/// is a function of the decimal's two parts, named `decimal_text`, and that
/// it is made of digits, the point and the minus sign only.
#[verifier::external_body]
fn text(a: &Dec) -> (s: String)
    requires
        a.wf(),
    ensures
        s@ == decimal_text(a.mantissa() as int, a.scale() as nat),
        forall|i: int| 0 <= i < s@.len() ==> is_decimal_char(#[trigger] s@[i]),
{
    rust_decimal::Decimal::from_i128_with_scale(a.mantissa, a.scale).to_string()
}

/// Formats a `rust_decimal::Decimal` with a fixed number of fractional
/// digits, few enough for the text to fit the 32 characters that
/// `rust_decimal` builds it in. The claim is that the text is a function of
/// the decimal's two parts and of that number, named `decimal_text_fixed`.
#[verifier::external_body]
fn text_fixed(a: &Dec, places: usize) -> (s: String)
    requires
        a.wf(),
        places <= MAX_FIXED_PLACES,
    ensures
        s@ == decimal_text_fixed(a.mantissa() as int, a.scale() as nat, places as nat),
{
    format!("{:.*}", places, rust_decimal::Decimal::from_i128_with_scale(a.mantissa, a.scale))
}

} // verus!
