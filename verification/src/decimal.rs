//! Fixed-point decimal numbers.
//!
//! A [`Decimal`] is a signed mantissa of at most 96 bits together with a
//! scale between 0 and 28: the number `mantissa / 10^scale`. Rounding,
//! comparison, rendering and parsing are done by the `rust_decimal` crate;
//! this module states what each of those calls returns.

use vstd::pervasive::unreached;
use vstd::prelude::*;
use vstd::std_specs::cmp::PartialEqSpecImpl;
use vstd::std_specs::convert::FromSpecImpl;
use vstd::std_specs::ops::{AddSpecImpl, DivSpecImpl, MulSpecImpl, NegSpecImpl, SubSpecImpl};
use core::ops::{Add, Div, Mul, Neg, Sub};

verus! {

/// The largest scale of a decimal.
pub const MAX_SCALE: u32 = 28;

/// The largest mantissa of a decimal, `2^96 - 1`.
pub const MAX_MANTISSA: i128 = 79_228_162_514_264_337_593_543_950_335;

/// `10^n`.
pub open spec fn pow10(n: nat) -> int
    decreases n,
{
    if n == 0 {
        1
    } else {
        10 * pow10((n - 1) as nat)
    }
}

/// What a decimal is: the number `mantissa / 10^scale`.
pub struct DecimalView {
    pub mantissa: int,
    pub scale: nat,
}

impl DecimalView {
    /// Whether a decimal can hold this mantissa and scale.
    pub open spec fn representable(self) -> bool {
        -MAX_MANTISSA <= self.mantissa <= MAX_MANTISSA && self.scale <= MAX_SCALE
    }

    /// Whether the number is zero.
    pub open spec fn is_zero(self) -> bool {
        self.mantissa == 0
    }

    /// Whether the number is below zero.
    pub open spec fn is_negative(self) -> bool {
        self.mantissa < 0
    }

    /// The number without its sign, at the same scale.
    pub open spec fn magnitude(self) -> DecimalView {
        DecimalView {
            mantissa: if self.mantissa < 0 {
                -self.mantissa
            } else {
                self.mantissa
            },
            scale: self.scale,
        }
    }

    /// Whether two decimals are the same number, whatever their scales.
    pub open spec fn same_number(self, other: DecimalView) -> bool {
        self.mantissa * pow10(other.scale) == other.mantissa * pow10(self.scale)
    }

    /// The number rounded to `dp` fractional digits, a tie going to the even
    /// neighbour. A number that has no more than `dp` fractional digits is
    /// left as it is.
    pub open spec fn rounded(self, dp: nat) -> DecimalView {
        if self.scale <= dp {
            self
        } else {
            let unit = pow10((self.scale - dp) as nat);
            DecimalView {
                mantissa: if self.mantissa < 0 {
                    -round_half_even(-self.mantissa, unit)
                } else {
                    round_half_even(self.mantissa, unit)
                },
                scale: dp,
            }
        }
    }
}

/// `n / unit` rounded to the nearest integer, a tie going to the even one,
/// for `n >= 0` and `unit > 0`.
pub open spec fn round_half_even(n: int, unit: int) -> int {
    let quotient = n / unit;
    let rest = n % unit;
    if 2 * rest > unit || (2 * rest == unit && quotient % 2 == 1) {
        quotient + 1
    } else {
        quotient
    }
}

/// Rounding half to even gives a nearest integer: the result is at most
/// half a unit away from `n / unit`. Where it is exactly half a unit away,
/// it is even.
pub proof fn law_round_half_even_is_nearest(n: int, unit: int)
    requires
        n >= 0,
        unit > 0,
    ensures
        ({
            let rounded = round_half_even(n, unit);
            let distance = if rounded * unit >= n {
                rounded * unit - n
            } else {
                n - rounded * unit
            };
            &&& rounded >= 0
            &&& 2 * distance <= unit
            &&& 2 * distance == unit ==> rounded % 2 == 0
        }),
{
    let quotient = n / unit;
    let rest = n % unit;
    vstd::arithmetic::div_mod::lemma_fundamental_div_mod(n, unit);
    vstd::arithmetic::div_mod::lemma_mod_bound(n, unit);
    vstd::arithmetic::div_mod::lemma_div_pos_is_pos(n, unit);
    assert(n == unit * quotient + rest);
    assert(unit * quotient == quotient * unit) by (nonlinear_arith);
    assert((quotient + 1) * unit == quotient * unit + unit) by (nonlinear_arith);
}

/// Rounding to `dp` fractional digits keeps a decimal representable.
pub proof fn law_rounded_is_representable(value: DecimalView, dp: nat)
    requires
        value.representable(),
    ensures
        value.rounded(dp).representable(),
        value.rounded(dp).scale <= value.scale,
        value.mantissa >= 0 ==> value.rounded(dp).mantissa >= 0,
        value.mantissa <= 0 ==> value.rounded(dp).mantissa <= 0,
{
    if value.scale > dp {
        let unit = pow10((value.scale - dp) as nat);
        lemma_pow10_at_least((value.scale - dp) as nat);
        let n = if value.mantissa < 0 {
            -value.mantissa
        } else {
            value.mantissa
        };
        let quotient = n / unit;
        let rest = n % unit;
        vstd::arithmetic::div_mod::lemma_fundamental_div_mod(n, unit);
        vstd::arithmetic::div_mod::lemma_mod_bound(n, unit);
        vstd::arithmetic::div_mod::lemma_div_pos_is_pos(n, unit);
        assert(n == unit * quotient + rest);
        assert(unit * quotient >= 10 * quotient) by (nonlinear_arith)
            requires
                unit >= 10,
                quotient >= 0,
        ;
        assert(0 <= round_half_even(n, unit) <= n);
    }
}

/// A power of ten with a positive exponent is at least ten.
pub proof fn lemma_pow10_at_least(n: nat)
    ensures
        pow10(n) >= 1,
        n > 0 ==> pow10(n) >= 10,
    decreases n,
{
    if n > 0 {
        lemma_pow10_at_least((n - 1) as nat);
    }
}

/// The text of a decimal in plain notation. It stands for what
/// `rust_decimal` renders.
pub uninterp spec fn plain_notation(mantissa: int, scale: nat) -> Seq<char>;

/// The decimal that a text denotes, or `None` where the text is no decimal.
/// It stands for what `rust_decimal` parses.
pub uninterp spec fn parsed_notation(text: Seq<char>) -> Option<(int, nat)>;

/// The sum of two decimals as `rust_decimal` computes it, or `None` where
/// it has none.
pub uninterp spec fn sum_of(m1: int, s1: nat, m2: int, s2: nat) -> Option<(int, nat)>;

/// The difference of two decimals as `rust_decimal` computes it, or `None`
/// where it has none.
pub uninterp spec fn difference_of(m1: int, s1: nat, m2: int, s2: nat) -> Option<(int, nat)>;

/// The product of two decimals as `rust_decimal` computes it, or `None`
/// where it has none.
pub uninterp spec fn product_of(m1: int, s1: nat, m2: int, s2: nat) -> Option<(int, nat)>;

/// The quotient of two decimals as `rust_decimal` computes it, or `None`
/// where it has none.
pub uninterp spec fn quotient_of(m1: int, s1: nat, m2: int, s2: nat) -> Option<(int, nat)>;

/// Computes the sum of two decimals.
///
/// Trusted: `rust_decimal::Decimal::checked_add`; it returns `None` or a
/// decimal, which depends on the two operands alone and is representable.
#[verifier::external_body]
fn sum_parts(m1: i128, s1: u32, m2: i128, s2: u32) -> (r: Option<(i128, u32)>)
    requires
        (DecimalView { mantissa: m1 as int, scale: s1 as nat }).representable(),
        (DecimalView { mantissa: m2 as int, scale: s2 as nat }).representable(),
    ensures
        match r {
            Some(parts) => sum_of(m1 as int, s1 as nat, m2 as int, s2 as nat) == Some(
                (parts.0 as int, parts.1 as nat),
            ) && (DecimalView { mantissa: parts.0 as int, scale: parts.1 as nat }).representable(),
            None => sum_of(m1 as int, s1 as nat, m2 as int, s2 as nat) is None,
        },
{
    let a = rust_decimal::Decimal::from_i128_with_scale(m1, s1);
    let b = rust_decimal::Decimal::from_i128_with_scale(m2, s2);
    match a.checked_add(b) {
        Some(d) => Some((d.mantissa(), d.scale())),
        None => None,
    }
}

/// Computes the difference of two decimals.
///
/// Trusted: `rust_decimal::Decimal::checked_sub`; it returns `None` or a
/// decimal, which depends on the two operands alone and is representable.
#[verifier::external_body]
fn difference_parts(m1: i128, s1: u32, m2: i128, s2: u32) -> (r: Option<(i128, u32)>)
    requires
        (DecimalView { mantissa: m1 as int, scale: s1 as nat }).representable(),
        (DecimalView { mantissa: m2 as int, scale: s2 as nat }).representable(),
    ensures
        match r {
            Some(parts) => difference_of(m1 as int, s1 as nat, m2 as int, s2 as nat) == Some(
                (parts.0 as int, parts.1 as nat),
            ) && (DecimalView { mantissa: parts.0 as int, scale: parts.1 as nat }).representable(),
            None => difference_of(m1 as int, s1 as nat, m2 as int, s2 as nat) is None,
        },
{
    let a = rust_decimal::Decimal::from_i128_with_scale(m1, s1);
    let b = rust_decimal::Decimal::from_i128_with_scale(m2, s2);
    match a.checked_sub(b) {
        Some(d) => Some((d.mantissa(), d.scale())),
        None => None,
    }
}

/// Computes the product of two decimals.
///
/// Trusted: `rust_decimal::Decimal::checked_mul`; it returns `None` or a
/// decimal, which depends on the two operands alone and is representable.
#[verifier::external_body]
fn product_parts(m1: i128, s1: u32, m2: i128, s2: u32) -> (r: Option<(i128, u32)>)
    requires
        (DecimalView { mantissa: m1 as int, scale: s1 as nat }).representable(),
        (DecimalView { mantissa: m2 as int, scale: s2 as nat }).representable(),
    ensures
        match r {
            Some(parts) => product_of(m1 as int, s1 as nat, m2 as int, s2 as nat) == Some(
                (parts.0 as int, parts.1 as nat),
            ) && (DecimalView { mantissa: parts.0 as int, scale: parts.1 as nat }).representable(),
            None => product_of(m1 as int, s1 as nat, m2 as int, s2 as nat) is None,
        },
{
    let a = rust_decimal::Decimal::from_i128_with_scale(m1, s1);
    let b = rust_decimal::Decimal::from_i128_with_scale(m2, s2);
    match a.checked_mul(b) {
        Some(d) => Some((d.mantissa(), d.scale())),
        None => None,
    }
}

/// Computes the quotient of two decimals.
///
/// Trusted: `rust_decimal::Decimal::checked_div`; it returns `None` or a
/// decimal, which depends on the two operands alone and is representable.
#[verifier::external_body]
fn quotient_parts(m1: i128, s1: u32, m2: i128, s2: u32) -> (r: Option<(i128, u32)>)
    requires
        (DecimalView { mantissa: m1 as int, scale: s1 as nat }).representable(),
        (DecimalView { mantissa: m2 as int, scale: s2 as nat }).representable(),
    ensures
        match r {
            Some(parts) => quotient_of(m1 as int, s1 as nat, m2 as int, s2 as nat) == Some(
                (parts.0 as int, parts.1 as nat),
            ) && (DecimalView { mantissa: parts.0 as int, scale: parts.1 as nat }).representable(),
            None => quotient_of(m1 as int, s1 as nat, m2 as int, s2 as nat) is None,
        },
{
    let a = rust_decimal::Decimal::from_i128_with_scale(m1, s1);
    let b = rust_decimal::Decimal::from_i128_with_scale(m2, s2);
    match a.checked_div(b) {
        Some(d) => Some((d.mantissa(), d.scale())),
        None => None,
    }
}

/// Rounds `mantissa / 10^scale` to `dp` fractional digits.
///
/// Trusted: `rust_decimal::Decimal::round_dp`. It returns its argument where
/// the scale is at most `dp`; otherwise it divides the magnitude by
/// `10^(scale - dp)`, rounds half to even, keeps the sign and sets the scale
/// to `dp`.
#[verifier::external_body]
fn round_parts(mantissa: i128, scale: u32, dp: u32) -> (r: (i128, u32))
    requires
        (DecimalView { mantissa: mantissa as int, scale: scale as nat }).representable(),
    ensures
        (DecimalView { mantissa: r.0 as int, scale: r.1 as nat }) == (DecimalView {
            mantissa: mantissa as int,
            scale: scale as nat,
        }).rounded(dp as nat),
{
    let d = rust_decimal::Decimal::from_i128_with_scale(mantissa, scale).round_dp(dp);
    (d.mantissa(), d.scale())
}

/// Compares two decimals as numbers.
///
/// Trusted: `==` of `rust_decimal::Decimal`, which holds of two decimals
/// that denote the same number, whatever their scales.
#[verifier::external_body]
fn equal_parts(m1: i128, s1: u32, m2: i128, s2: u32) -> (r: bool)
    requires
        (DecimalView { mantissa: m1 as int, scale: s1 as nat }).representable(),
        (DecimalView { mantissa: m2 as int, scale: s2 as nat }).representable(),
    ensures
        r == (DecimalView { mantissa: m1 as int, scale: s1 as nat }).same_number(
            DecimalView { mantissa: m2 as int, scale: s2 as nat },
        ),
{
    rust_decimal::Decimal::from_i128_with_scale(m1, s1)
        == rust_decimal::Decimal::from_i128_with_scale(m2, s2)
}

/// Renders `mantissa / 10^scale` in plain notation.
///
/// Trusted: `to_string` of `rust_decimal::Decimal`; the text depends on the
/// mantissa and the scale alone. It has at most 31 characters (a sign, 29
/// digits and a point), which the buffer of `rust_decimal` holds.
#[verifier::external_body]
fn render_plain(mantissa: i128, scale: u32) -> (text: String)
    requires
        (DecimalView { mantissa: mantissa as int, scale: scale as nat }).representable(),
    ensures
        text@ == plain_notation(mantissa as int, scale as nat),
{
    rust_decimal::Decimal::from_i128_with_scale(mantissa, scale).to_string()
}

/// Parses a decimal.
///
/// Trusted: `from_str` of `rust_decimal::Decimal`; whether it succeeds, and
/// with which decimal, depends on the text alone, and what it returns is
/// representable.
#[verifier::external_body]
fn parse_parts(text: &str) -> (r: Option<(i128, u32)>)
    ensures
        match r {
            Some(parts) => parsed_notation(text@) == Some((parts.0 as int, parts.1 as nat))
                && (DecimalView {
                mantissa: parts.0 as int,
                scale: parts.1 as nat,
            }).representable(),
            None => parsed_notation(text@) is None,
        },
{
    match text.parse::<rust_decimal::Decimal>() {
        Ok(d) => Some((d.mantissa(), d.scale())),
        Err(_) => None,
    }
}

/// A fixed-point decimal number.
#[derive(Clone, Copy, Debug)]
pub struct Decimal {
    mantissa: i128,
    scale: u32,
}

impl View for Decimal {
    type V = DecimalView;

    closed spec fn view(&self) -> DecimalView {
        DecimalView { mantissa: self.mantissa as int, scale: self.scale as nat }
    }
}

impl Decimal {
    #[verifier::type_invariant]
    spec fn well_formed(self) -> bool {
        self@.representable()
    }

    /// The number zero, with scale 0.
    pub fn zero() -> (d: Decimal)
        ensures
            d == Decimal::whole(0),
            d@ == (DecimalView { mantissa: 0, scale: 0 }),
    {
        Decimal { mantissa: 0, scale: 0 }
    }

    /// The decimal `num / 10^scale`.
    pub fn new(num: i64, scale: u32) -> (d: Decimal)
        requires
            scale <= MAX_SCALE,
        ensures
            d@ == (DecimalView { mantissa: num as int, scale: scale as nat }),
    {
        Decimal { mantissa: num as i128, scale }
    }

    /// The decimal `num / 10^scale`, or `None` where the scale is above
    /// [`MAX_SCALE`].
    pub fn try_new(num: i64, scale: u32) -> (r: Option<Decimal>)
        ensures
            scale <= MAX_SCALE <==> r is Some,
            r matches Some(d) ==> d@ == (DecimalView {
                mantissa: num as int,
                scale: scale as nat,
            }),
    {
        if scale <= MAX_SCALE {
            Some(Decimal { mantissa: num as i128, scale })
        } else {
            None
        }
    }

    /// The decimal `num / 10^scale`, or `None` where the scale is above
    /// [`MAX_SCALE`] or the mantissa does not fit in 96 bits.
    pub fn try_from_i128_with_scale(num: i128, scale: u32) -> (r: Option<Decimal>)
        ensures
            (DecimalView { mantissa: num as int, scale: scale as nat }).representable()
                <==> r is Some,
            r matches Some(d) ==> d@ == (DecimalView {
                mantissa: num as int,
                scale: scale as nat,
            }),
    {
        if scale <= MAX_SCALE && -MAX_MANTISSA <= num && num <= MAX_MANTISSA {
            Some(Decimal { mantissa: num, scale })
        } else {
            None
        }
    }

    /// The mantissa.
    pub fn mantissa(&self) -> (m: i128)
        ensures
            m == self@.mantissa,
            -MAX_MANTISSA <= m <= MAX_MANTISSA,
    {
        proof {
            use_type_invariant(self);
        }
        self.mantissa
    }

    /// The scale: the number of fractional digits.
    pub fn scale(&self) -> (s: u32)
        ensures
            s == self@.scale,
            s <= MAX_SCALE,
    {
        proof {
            use_type_invariant(self);
        }
        self.scale
    }

    /// Whether the number is zero.
    pub fn is_zero(&self) -> (r: bool)
        ensures
            r == self@.is_zero(),
    {
        self.mantissa == 0
    }

    /// Whether the number is below zero.
    pub fn is_sign_negative(&self) -> (r: bool)
        ensures
            r == self@.is_negative(),
    {
        self.mantissa < 0
    }

    /// The number without its sign.
    pub fn abs(&self) -> (d: Decimal)
        ensures
            d@ == self@.magnitude(),
    {
        proof {
            use_type_invariant(self);
        }
        if self.mantissa < 0 {
            Decimal { mantissa: -self.mantissa, scale: self.scale }
        } else {
            Decimal { mantissa: self.mantissa, scale: self.scale }
        }
    }

    /// The number rounded to `dp` fractional digits, half to even.
    pub fn round_dp(&self, dp: u32) -> (d: Decimal)
        ensures
            d@ == self@.rounded(dp as nat),
    {
        proof {
            use_type_invariant(self);
            law_rounded_is_representable(self@, dp as nat);
        }
        let (mantissa, scale) = round_parts(self.mantissa, self.scale, dp);
        Decimal { mantissa, scale }
    }

    /// The text of the number in plain notation.
    pub fn to_string(&self) -> (text: String)
        ensures
            text@ == plain_notation(self@.mantissa, self@.scale),
    {
        proof {
            use_type_invariant(self);
        }
        render_plain(self.mantissa, self.scale)
    }

    /// The sum of two decimals, or `None` where `rust_decimal` has none.
    pub fn checked_add(self, other: Decimal) -> (r: Option<Decimal>)
        ensures
            match r {
                Some(d) => sum_of(self@.mantissa, self@.scale, other@.mantissa, other@.scale)
                    == Some((d@.mantissa, d@.scale)) && d == Decimal::sum(self, other),
                None => sum_of(self@.mantissa, self@.scale, other@.mantissa, other@.scale)
                     is None,
            },
    {
        proof {
            use_type_invariant(self);
            use_type_invariant(other);
        }
        match sum_parts(self.mantissa, self.scale, other.mantissa, other.scale) {
            Some((mantissa, scale)) => Some(Decimal { mantissa, scale }),
            None => None,
        }
    }

    /// The sum of two decimals that have one.
    pub closed spec fn sum(self, other: Decimal) -> Decimal {
        let parts = sum_of(self@.mantissa, self@.scale, other@.mantissa, other@.scale)->0;
        Decimal { mantissa: parts.0 as i128, scale: parts.1 as u32 }
    }

    /// The difference of two decimals, or `None` where `rust_decimal` has none.
    pub fn checked_sub(self, other: Decimal) -> (r: Option<Decimal>)
        ensures
            match r {
                Some(d) => difference_of(self@.mantissa, self@.scale, other@.mantissa, other@.scale)
                    == Some((d@.mantissa, d@.scale)) && d == Decimal::difference(self, other),
                None => difference_of(self@.mantissa, self@.scale, other@.mantissa, other@.scale)
                     is None,
            },
    {
        proof {
            use_type_invariant(self);
            use_type_invariant(other);
        }
        match difference_parts(self.mantissa, self.scale, other.mantissa, other.scale) {
            Some((mantissa, scale)) => Some(Decimal { mantissa, scale }),
            None => None,
        }
    }

    /// The difference of two decimals that have one.
    pub closed spec fn difference(self, other: Decimal) -> Decimal {
        let parts = difference_of(self@.mantissa, self@.scale, other@.mantissa, other@.scale)->0;
        Decimal { mantissa: parts.0 as i128, scale: parts.1 as u32 }
    }

    /// The product of two decimals, or `None` where `rust_decimal` has none.
    pub fn checked_mul(self, other: Decimal) -> (r: Option<Decimal>)
        ensures
            match r {
                Some(d) => product_of(self@.mantissa, self@.scale, other@.mantissa, other@.scale)
                    == Some((d@.mantissa, d@.scale)) && d == Decimal::product(self, other),
                None => product_of(self@.mantissa, self@.scale, other@.mantissa, other@.scale)
                     is None,
            },
    {
        proof {
            use_type_invariant(self);
            use_type_invariant(other);
        }
        match product_parts(self.mantissa, self.scale, other.mantissa, other.scale) {
            Some((mantissa, scale)) => Some(Decimal { mantissa, scale }),
            None => None,
        }
    }

    /// The product of two decimals that have one.
    pub closed spec fn product(self, other: Decimal) -> Decimal {
        let parts = product_of(self@.mantissa, self@.scale, other@.mantissa, other@.scale)->0;
        Decimal { mantissa: parts.0 as i128, scale: parts.1 as u32 }
    }

    /// The quotient of two decimals, or `None` where `rust_decimal` has none.
    pub fn checked_div(self, other: Decimal) -> (r: Option<Decimal>)
        ensures
            match r {
                Some(d) => quotient_of(self@.mantissa, self@.scale, other@.mantissa, other@.scale)
                    == Some((d@.mantissa, d@.scale)) && d == Decimal::quotient(self, other),
                None => quotient_of(self@.mantissa, self@.scale, other@.mantissa, other@.scale)
                     is None,
            },
    {
        proof {
            use_type_invariant(self);
            use_type_invariant(other);
        }
        match quotient_parts(self.mantissa, self.scale, other.mantissa, other.scale) {
            Some((mantissa, scale)) => Some(Decimal { mantissa, scale }),
            None => None,
        }
    }

    /// The quotient of two decimals that have one.
    pub closed spec fn quotient(self, other: Decimal) -> Decimal {
        let parts = quotient_of(self@.mantissa, self@.scale, other@.mantissa, other@.scale)->0;
        Decimal { mantissa: parts.0 as i128, scale: parts.1 as u32 }
    }

    /// The decimal that `text` denotes, or `None` where it denotes none.
    pub fn parse(text: &str) -> (r: Option<Decimal>)
        ensures
            r is Some <==> parsed_notation(text@) is Some,
            r matches Some(d) ==> parsed_notation(text@) == Some((d@.mantissa, d@.scale)),
    {
        match parse_parts(text) {
            Some((mantissa, scale)) => Some(Decimal { mantissa, scale }),
            None => None,
        }
    }
}

/// The sum of two decimals that have one; [`Decimal::checked_add`] tells
/// whether they have.
impl Add for Decimal {
    type Output = Decimal;

    fn add(self, other: Decimal) -> (sum: Decimal)
        ensures
            sum_of(self@.mantissa, self@.scale, other@.mantissa, other@.scale) == Some(
                (sum@.mantissa, sum@.scale),
            ),
    {
        match self.checked_add(other) {
            Some(sum) => sum,
            None => unreached(),
        }
    }
}

impl AddSpecImpl for Decimal {
    open spec fn obeys_add_spec() -> bool {
        true
    }

    open spec fn add_req(self, other: Decimal) -> bool {
        sum_of(self@.mantissa, self@.scale, other@.mantissa, other@.scale) is Some
    }

    open spec fn add_spec(self, other: Decimal) -> Decimal {
        Decimal::sum(self, other)
    }
}

/// The difference of two decimals that have one; [`Decimal::checked_sub`] tells
/// whether they have.
impl Sub for Decimal {
    type Output = Decimal;

    fn sub(self, other: Decimal) -> (difference: Decimal)
        ensures
            difference_of(self@.mantissa, self@.scale, other@.mantissa, other@.scale) == Some(
                (difference@.mantissa, difference@.scale),
            ),
    {
        match self.checked_sub(other) {
            Some(difference) => difference,
            None => unreached(),
        }
    }
}

impl SubSpecImpl for Decimal {
    open spec fn obeys_sub_spec() -> bool {
        true
    }

    open spec fn sub_req(self, other: Decimal) -> bool {
        difference_of(self@.mantissa, self@.scale, other@.mantissa, other@.scale) is Some
    }

    open spec fn sub_spec(self, other: Decimal) -> Decimal {
        Decimal::difference(self, other)
    }
}

/// The product of two decimals that have one; [`Decimal::checked_mul`] tells
/// whether they have.
impl Mul for Decimal {
    type Output = Decimal;

    fn mul(self, other: Decimal) -> (product: Decimal)
        ensures
            product_of(self@.mantissa, self@.scale, other@.mantissa, other@.scale) == Some(
                (product@.mantissa, product@.scale),
            ),
    {
        match self.checked_mul(other) {
            Some(product) => product,
            None => unreached(),
        }
    }
}

impl MulSpecImpl for Decimal {
    open spec fn obeys_mul_spec() -> bool {
        true
    }

    open spec fn mul_req(self, other: Decimal) -> bool {
        product_of(self@.mantissa, self@.scale, other@.mantissa, other@.scale) is Some
    }

    open spec fn mul_spec(self, other: Decimal) -> Decimal {
        Decimal::product(self, other)
    }
}

/// The quotient of two decimals that have one; [`Decimal::checked_div`] tells
/// whether they have.
impl Div for Decimal {
    type Output = Decimal;

    fn div(self, other: Decimal) -> (quotient: Decimal)
        ensures
            quotient_of(self@.mantissa, self@.scale, other@.mantissa, other@.scale) == Some(
                (quotient@.mantissa, quotient@.scale),
            ),
    {
        match self.checked_div(other) {
            Some(quotient) => quotient,
            None => unreached(),
        }
    }
}

impl DivSpecImpl for Decimal {
    open spec fn obeys_div_spec() -> bool {
        true
    }

    open spec fn div_req(self, other: Decimal) -> bool {
        quotient_of(self@.mantissa, self@.scale, other@.mantissa, other@.scale) is Some
    }

    open spec fn div_spec(self, other: Decimal) -> Decimal {
        Decimal::quotient(self, other)
    }
}

impl Neg for Decimal {
    type Output = Decimal;

    fn neg(self) -> (negated: Decimal)
        ensures
            negated@ == (DecimalView { mantissa: -self@.mantissa, scale: self@.scale }),
    {
        proof {
            use_type_invariant(self);
        }
        Decimal { mantissa: -self.mantissa, scale: self.scale }
    }
}

impl NegSpecImpl for Decimal {
    open spec fn obeys_neg_spec() -> bool {
        true
    }

    open spec fn neg_req(self) -> bool {
        true
    }

    open spec fn neg_spec(self) -> Decimal {
        Decimal::negated(self)
    }
}

impl PartialEq for Decimal {
    fn eq(&self, other: &Decimal) -> (r: bool)
        ensures
            r == self@.same_number(other@),
    {
        proof {
            use_type_invariant(self);
            use_type_invariant(other);
        }
        equal_parts(self.mantissa, self.scale, other.mantissa, other.scale)
    }
}

impl PartialEqSpecImpl for Decimal {
    open spec fn obeys_eq_spec() -> bool {
        true
    }

    open spec fn eq_spec(&self, other: &Decimal) -> bool {
        self@.same_number(other@)
    }
}

impl From<i32> for Decimal {
    fn from(num: i32) -> (d: Decimal)
        ensures
            d@ == (DecimalView { mantissa: num as int, scale: 0 }),
    {
        Decimal { mantissa: num as i128, scale: 0 }
    }
}

impl FromSpecImpl<i32> for Decimal {
    open spec fn obeys_from_spec() -> bool {
        true
    }

    open spec fn from_spec(num: i32) -> Decimal {
        Decimal::whole(num as int)
    }
}

impl From<i64> for Decimal {
    fn from(num: i64) -> (d: Decimal)
        ensures
            d@ == (DecimalView { mantissa: num as int, scale: 0 }),
    {
        Decimal { mantissa: num as i128, scale: 0 }
    }
}

impl FromSpecImpl<i64> for Decimal {
    open spec fn obeys_from_spec() -> bool {
        true
    }

    open spec fn from_spec(num: i64) -> Decimal {
        Decimal::whole(num as int)
    }
}

impl Decimal {
    /// The decimal with the opposite sign.
    pub closed spec fn negated(self) -> Decimal {
        Decimal { mantissa: (-self.mantissa) as i128, scale: self.scale }
    }

    /// `negated` changes the sign of the mantissa and keeps the scale.
    pub broadcast proof fn lemma_negated(self)
        requires
            self@.representable(),
        ensures
            #[trigger] self.negated()@ == (DecimalView {
                mantissa: -self@.mantissa,
                scale: self@.scale,
            }),
    {
    }

    /// The decimal of an integer that fits in 64 bits, with scale 0.
    pub closed spec fn whole(num: int) -> Decimal {
        Decimal { mantissa: num as i128, scale: 0 }
    }

    /// `whole(num)` is the number `num` with scale 0.
    pub broadcast proof fn lemma_whole(num: int)
        requires
            i64::MIN <= num <= i64::MAX,
        ensures
            #[trigger] Decimal::whole(num)@ == (DecimalView { mantissa: num, scale: 0 }),
    {
    }
}

} // verus!
