//! Currency formats and the values tagged with them.

use vstd::prelude::*;
use vstd::std_specs::cmp::PartialEqSpecImpl;
use vstd::std_specs::convert::IntoSpec;
use vstd::std_specs::ops::{
    AddSpec, AddSpecImpl, DivSpec, DivSpecImpl, MulSpec, MulSpecImpl, SubSpec, SubSpecImpl,
};
use core::ops::{Add, Div, Mul, Sub};
use vstd::string::StringExecFns;
use crate::decimal::{
    difference_of, plain_notation, product_of, quotient_of, sum_of, Decimal, DecimalView,
};
use crate::text::{chars_of, push_char};

verus! {

/// The part of `text` before its first `.`: all of it where it has none.
pub open spec fn until_dot(text: Seq<char>) -> Seq<char>
    decreases text.len(),
{
    if text.len() == 0 || text[0] == '.' {
        Seq::empty()
    } else {
        seq![text[0]] + until_dot(text.skip(1))
    }
}

/// The integer digits of a rendered number: what stands before the `.`.
pub open spec fn whole_part(text: Seq<char>) -> Seq<char> {
    until_dot(text)
}

/// The fractional digits of a rendered number: what stands behind the first
/// `.`, up to a second one. Empty where the text has no `.`.
pub open spec fn fraction_part(text: Seq<char>) -> Seq<char> {
    let whole = until_dot(text);
    if whole.len() < text.len() {
        until_dot(text.skip(whole.len() as int + 1))
    } else {
        Seq::empty()
    }
}

/// `digits` with `separator` between its groups of three, the groups
/// counted from the right.
pub open spec fn grouped(digits: Seq<char>, separator: Seq<char>) -> Seq<char>
    decreases digits.len(),
{
    if digits.len() <= 3 {
        digits
    } else {
        grouped(digits.take(digits.len() - 3), separator) + separator + digits.skip(
            digits.len() - 3,
        )
    }
}

/// The number of separators in the grouping of `count` digits: one for
/// every three digits that have a digit before them.
pub open spec fn separators(count: nat) -> nat {
    if count == 0 {
        0
    } else {
        ((count - 1) / 3) as nat
    }
}

/// Grouping adds one separator for every three digits that have a digit
/// before them, and nothing else.
pub proof fn law_grouped_length(digits: Seq<char>, separator: Seq<char>)
    ensures
        grouped(digits, separator).len() == digits.len() + separators(digits.len())
            * separator.len(),
    decreases digits.len(),
{
    let n = digits.len();
    if n > 3 {
        let head = digits.take(n - 3);
        law_grouped_length(head, separator);
        assert(separators(n) == separators(head.len()) + 1);
        assert((separators(head.len()) + 1) * separator.len() == separators(head.len())
            * separator.len() + separator.len()) by (nonlinear_arith);
    }
}

/// With an empty separator, grouping changes nothing.
pub proof fn law_grouped_without_separator(digits: Seq<char>)
    ensures
        grouped(digits, Seq::empty()) == digits,
    decreases digits.len(),
{
    let n = digits.len();
    if n > 3 {
        law_grouped_without_separator(digits.take(n - 3));
        assert(digits.take(n - 3) + Seq::<char>::empty() + digits.skip(n - 3) =~= digits);
    }
}

/// `count` zeros.
pub open spec fn zeros(count: nat) -> Seq<char> {
    Seq::new(count, |i: int| '0')
}

/// Fractional digits filled up with zeros to `width` digits; more digits
/// than that are left as they are.
pub open spec fn padded(fraction: Seq<char>, width: nat) -> Seq<char> {
    if fraction.len() >= width {
        fraction
    } else {
        fraction + zeros((width - fraction.len()) as nat)
    }
}

/// A rendered number with its integer digits grouped, its `.` replaced by
/// the decimal separator, and its fractional digits filled up with zeros
/// to `width` digits.
pub open spec fn punctuated(
    text: Seq<char>,
    thousand_separator: Seq<char>,
    decimal_separator: Seq<char>,
    width: nat,
) -> Seq<char> {
    grouped(whole_part(text), thousand_separator) + decimal_separator + padded(
        fraction_part(text),
        width,
    )
}

/// The first `k` digits of `digits` as a scan from the left writes them,
/// with `separator` before every digit whose distance from the end is a
/// multiple of three.
spec fn scanned(digits: Seq<char>, separator: Seq<char>, k: nat) -> Seq<char>
    decreases k,
{
    if k == 0 {
        Seq::empty()
    } else {
        let i = (k - 1) as int;
        let gap = if i > 0 && (digits.len() - i) % 3 == 0 {
            separator
        } else {
            Seq::empty()
        };
        scanned(digits, separator, (k - 1) as nat) + gap + seq![digits[i]]
    }
}

/// Dropping the last three digits does not change what the scan writes
/// for the digits before them.
proof fn lemma_scanned_prefix(digits: Seq<char>, separator: Seq<char>, k: nat)
    requires
        digits.len() > 3,
        k <= digits.len() - 3,
    ensures
        scanned(digits, separator, k) == scanned(
            digits.take(digits.len() - 3),
            separator,
            k,
        ),
    decreases k,
{
    if k > 0 {
        lemma_scanned_prefix(digits, separator, (k - 1) as nat);
    }
}

/// The scan from the left writes the grouped digits.
proof fn lemma_scanned_is_grouped(digits: Seq<char>, separator: Seq<char>)
    ensures
        scanned(digits, separator, digits.len()) == grouped(digits, separator),
    decreases digits.len(),
{
    let n = digits.len() as int;
    let none = Seq::<char>::empty();
    if n <= 3 {
        assert(scanned(digits, separator, 0) =~= digits.take(0));
        if n >= 1 {
            assert(scanned(digits, separator, 1) == scanned(digits, separator, 0) + none
                + seq![digits[0]]);
            assert(scanned(digits, separator, 1) =~= digits.take(1));
        }
        if n >= 2 {
            assert(scanned(digits, separator, 2) == scanned(digits, separator, 1) + none
                + seq![digits[1]]);
            assert(scanned(digits, separator, 2) =~= digits.take(2));
        }
        if n >= 3 {
            assert(scanned(digits, separator, 3) == scanned(digits, separator, 2) + none
                + seq![digits[2]]);
            assert(scanned(digits, separator, 3) =~= digits.take(3));
        }
        assert(digits.take(n) =~= digits);
    } else {
        let head = digits.take(n - 3);
        lemma_scanned_is_grouped(head, separator);
        lemma_scanned_prefix(digits, separator, (n - 3) as nat);
        let a = scanned(digits, separator, (n - 3) as nat);
        let b = scanned(digits, separator, (n - 2) as nat);
        let c = scanned(digits, separator, (n - 1) as nat);
        let d = scanned(digits, separator, n as nat);
        assert(a == grouped(head, separator));
        assert(b == a + separator + seq![digits[n - 3]]);
        assert(c == b + none + seq![digits[n - 2]]);
        assert(d == c + none + seq![digits[n - 1]]);
        assert(d =~= a + separator + digits.skip(n - 3));
    }
}

/// Where the first `.` of a text stands, `until_dot` is what precedes it.
proof fn lemma_until_dot(text: Seq<char>, i: int)
    requires
        0 <= i <= text.len(),
        forall|j: int| 0 <= j < i ==> text[j] != '.',
        i == text.len() || text[i] == '.',
    ensures
        until_dot(text) == text.take(i),
    decreases i,
{
    if i == 0 {
        assert(until_dot(text) =~= text.take(0));
    } else {
        lemma_until_dot(text.skip(1), i - 1);
        assert(text.take(i) =~= seq![text[0]] + text.skip(1).take(i - 1));
    }
}

/// How the values of a currency are written.
#[derive(Debug, Hash)]
pub struct CurrencyFormat {
    pub symbol: String,
    pub name: String,
    pub precision: u8,
    pub thousand_separator: String,
    pub decimal_separator: String,
}

impl CurrencyFormat {
    /// Whether two formats agree in all five fields.
    pub open spec fn same(&self, other: &CurrencyFormat) -> bool {
        &&& self.symbol@ == other.symbol@
        &&& self.name@ == other.name@
        &&& self.precision == other.precision
        &&& self.thousand_separator@ == other.thousand_separator@
        &&& self.decimal_separator@ == other.decimal_separator@
    }

    /// The text of `value` in this format, without sign or symbol: the
    /// magnitude rounded half to even to `precision` fractional digits, its
    /// integer digits grouped by the thousand separator, then the decimal
    /// separator and the fractional digits, filled up with zeros to
    /// `precision` digits.
    pub open spec fn formatted(&self, value: DecimalView) -> Seq<char> {
        let rounded = value.magnitude().rounded(self.precision as nat);
        punctuated(
            plain_notation(rounded.mantissa, rounded.scale),
            self.thousand_separator@,
            self.decimal_separator@,
            self.precision as nat,
        )
    }

    /// The text of `value` with the currency's symbol: the symbol, a space,
    /// and the formatted magnitude, in parentheses where the value is below
    /// zero.
    pub open spec fn displayed(&self, value: DecimalView) -> Seq<char> {
        if value.is_negative() {
            self.symbol@ + seq![' ', '('] + self.formatted(value) + seq![')']
        } else {
            self.symbol@ + seq![' '] + self.formatted(value)
        }
    }

    /// The sign of a value does not change its formatted text.
    pub proof fn law_format_ignores_sign(&self, value: DecimalView)
        ensures
            self.formatted(value) == self.formatted(
                DecimalView { mantissa: -value.mantissa, scale: value.scale },
            ),
    {
    }

    /// Groups the integer digits of a rendered number, replaces its `.` by
    /// the decimal separator, and fills its fractional digits up with zeros
    /// to `precision` digits.
    pub fn punctuate(&self, text: &str) -> (result: String)
        ensures
            result@ == punctuated(
                text@,
                self.thousand_separator@,
                self.decimal_separator@,
                self.precision as nat,
            ),
    {
        let chars = chars_of(text);
        let len = chars.len();
        let mut dot: usize = 0;
        while dot < len && chars[dot] != '.'
            invariant
                dot <= len,
                len == chars.len(),
                forall|j: int| 0 <= j < dot ==> chars@[j] != '.',
            decreases len - dot,
        {
            dot += 1;
        }
        let ghost whole = chars@.take(dot as int);
        proof {
            lemma_until_dot(chars@, dot as int);
            lemma_scanned_is_grouped(whole, self.thousand_separator@);
        }
        let mut result = String::new();
        let mut i: usize = 0;
        while i < dot
            invariant
                i <= dot <= len,
                len == chars.len(),
                whole == chars@.take(dot as int),
                result@ == scanned(whole, self.thousand_separator@, i as nat),
            decreases dot - i,
        {
            if i > 0 && (dot - i) % 3 == 0 {
                result.append(self.thousand_separator.as_str());
            }
            push_char(&mut result, chars[i]);
            i += 1;
        }
        result.append(self.decimal_separator.as_str());
        let ghost head = result@;
        let ghost rest = chars@.skip(dot + 1);
        let mut j: usize = if dot < len {
            dot + 1
        } else {
            len
        };
        let start = j;
        while j < len && chars[j] != '.'
            invariant
                start <= j <= len,
                len == chars.len(),
                result@ == head + chars@.subrange(start as int, j as int),
                forall|k: int| start <= k < j ==> chars@[k] != '.',
            decreases len - j,
        {
            push_char(&mut result, chars[j]);
            assert(chars@.subrange(start as int, j as int).push(chars@[j as int])
                =~= chars@.subrange(start as int, j + 1));
            j += 1;
        }
        proof {
            if dot < len {
                lemma_until_dot(rest, j - start);
                assert(rest.take(j - start) =~= chars@.subrange(start as int, j as int));
            } else {
                assert(chars@.subrange(start as int, j as int) =~= Seq::<char>::empty());
            }
        }
        let ghost fraction = chars@.subrange(start as int, j as int);
        assert(fraction == fraction_part(chars@));
        let digits = j - start;
        let mut filled: usize = digits;
        assert(zeros(0) =~= Seq::<char>::empty());
        while filled < self.precision as usize
            invariant
                digits <= filled,
                digits == fraction.len(),
                filled == digits || filled <= self.precision,
                result@ == head + fraction + zeros((filled - digits) as nat),
            decreases self.precision - filled,
        {
            push_char(&mut result, '0');
            assert(zeros((filled - digits) as nat).push('0') =~= zeros(
                (filled + 1 - digits) as nat,
            ));
            filled += 1;
        }
        assert(result@ =~= head + padded(fraction, self.precision as nat));
        result
    }

    /// Renders the magnitude of `value` in this format.
    pub fn format_value(&self, value: Decimal) -> (result: String)
        ensures
            result@ == self.formatted(value@),
    {
        let rounded = value.abs().round_dp(self.precision as u32);
        let text = rounded.to_string();
        self.punctuate(text.as_str())
    }

    /// Renders `value` with the currency's symbol, a negative value in
    /// parentheses.
    pub fn display_value(&self, value: Decimal) -> (result: String)
        ensures
            result@ == self.displayed(value@),
    {
        let text = self.format_value(value);
        let mut result = self.symbol.clone();
        push_char(&mut result, ' ');
        if !value.is_zero() && value.is_sign_negative() {
            push_char(&mut result, '(');
            result.append(text.as_str());
            push_char(&mut result, ')');
            assert(result@ =~= self.displayed(value@));
        } else {
            result.append(text.as_str());
            assert(result@ =~= self.displayed(value@));
        }
        result
    }

    /// Tags a value with this format.
    pub fn from<T>(&self, val: T) -> (currency: Currency<T>)
        ensures
            currency.value == val,
            currency.format == *self,
    {
        Currency::new(val, self.clone())
    }

    /// The format with strings of its own.
    pub fn into_owned(self) -> (owned: CurrencyFormat)
        ensures
            owned == self,
    {
        self
    }
}

impl Clone for CurrencyFormat {
    fn clone(&self) -> (copy: CurrencyFormat)
        ensures
            copy == *self,
    {
        CurrencyFormat {
            symbol: self.symbol.clone(),
            name: self.name.clone(),
            precision: self.precision,
            thousand_separator: self.thousand_separator.clone(),
            decimal_separator: self.decimal_separator.clone(),
        }
    }
}

impl PartialEq for CurrencyFormat {
    fn eq(&self, other: &CurrencyFormat) -> (r: bool)
        ensures
            r == self.same(other),
    {
        self.symbol == other.symbol && self.name == other.name && self.precision
            == other.precision && self.thousand_separator == other.thousand_separator
            && self.decimal_separator == other.decimal_separator
    }
}

impl PartialEqSpecImpl for CurrencyFormat {
    open spec fn obeys_eq_spec() -> bool {
        true
    }

    open spec fn eq_spec(&self, other: &CurrencyFormat) -> bool {
        self.same(other)
    }
}

impl Eq for CurrencyFormat {

}

/// The format of the U.S. dollar: `$`, two fractional digits, `,` between
/// thousands and `.` before the fraction.
pub fn usd() -> (format: CurrencyFormat)
    ensures
        format.symbol@ == seq!['$'],
        format.name@ == "U.S. Dollar"@,
        format.precision == 2,
        format.thousand_separator@ == seq![','],
        format.decimal_separator@ == seq!['.'],
{
    proof {
        reveal_strlit("$");
        reveal_strlit(",");
        reveal_strlit(".");
    }
    let format = CurrencyFormat {
        symbol: String::from_str("$"),
        name: String::from_str("U.S. Dollar"),
        precision: 2,
        thousand_separator: String::from_str(","),
        decimal_separator: String::from_str("."),
    };
    assert(format.symbol@ =~= seq!['$']);
    assert(format.thousand_separator@ =~= seq![',']);
    assert(format.decimal_separator@ =~= seq!['.']);
    format
}

/// A value tagged with the format of its currency.
#[derive(Debug, PartialEq, Eq, Hash)]
pub struct Currency<T> {
    pub value: T,
    pub format: CurrencyFormat,
}

impl<T> Currency<T> {
    /// Tags `value` with `format`.
    pub fn new(value: T, format: CurrencyFormat) -> (currency: Currency<T>)
        ensures
            currency.value == value,
            currency.format == format,
    {
        Currency { value, format }
    }
}

impl<T: Clone> Clone for Currency<T> {
    fn clone(&self) -> (copy: Currency<T>)
        ensures
            cloned::<T>(self.value, copy.value),
            copy.format == self.format,
    {
        Currency { value: self.value.clone(), format: self.format.clone() }
    }
}

impl<T: Into<Decimal> + Copy> Currency<T> {
    /// Renders the value with the currency's symbol, a negative value in
    /// parentheses.
    pub fn to_string(&self) -> (text: String)
        ensures
            <T as IntoSpec<Decimal>>::obeys_into_spec() ==> text@ == self.format.displayed(
                self.value.into_spec()@,
            ),
    {
        let value: Decimal = self.value.into();
        self.format.display_value(value)
    }
}

impl Currency<Decimal> {
    /// Renders a decimal value with the currency's symbol, a negative value
    /// in parentheses.
    pub fn display(&self) -> (text: String)
        ensures
            text@ == self.format.displayed(self.value@),
    {
        self.format.display_value(self.value)
    }

    /// The sum of two decimal values, in the format of the left operand, or
    /// `None` where `rust_decimal` has none.
    pub fn checked_add(self, rhs: Currency<Decimal>) -> (r: Option<Currency<Decimal>>)
        ensures
            match r {
                Some(sum) => sum.format == self.format && sum_of(
                    self.value@.mantissa,
                    self.value@.scale,
                    rhs.value@.mantissa,
                    rhs.value@.scale,
                ) == Some((sum.value@.mantissa, sum.value@.scale)),
                None => sum_of(
                    self.value@.mantissa,
                    self.value@.scale,
                    rhs.value@.mantissa,
                    rhs.value@.scale,
                ) is None,
            },
    {
        match self.value.checked_add(rhs.value) {
            Some(_) => Some(self + rhs),
            None => None,
        }
    }

    /// The difference of two decimal values, in the format of the left operand, or
    /// `None` where `rust_decimal` has none.
    pub fn checked_sub(self, rhs: Currency<Decimal>) -> (r: Option<Currency<Decimal>>)
        ensures
            match r {
                Some(difference) => difference.format == self.format && difference_of(
                    self.value@.mantissa,
                    self.value@.scale,
                    rhs.value@.mantissa,
                    rhs.value@.scale,
                ) == Some((difference.value@.mantissa, difference.value@.scale)),
                None => difference_of(
                    self.value@.mantissa,
                    self.value@.scale,
                    rhs.value@.mantissa,
                    rhs.value@.scale,
                ) is None,
            },
    {
        match self.value.checked_sub(rhs.value) {
            Some(_) => Some(self - rhs),
            None => None,
        }
    }

    /// The product of a decimal value and a number, in the format of the left operand, or
    /// `None` where `rust_decimal` has none.
    pub fn checked_mul(self, rhs: Decimal) -> (r: Option<Currency<Decimal>>)
        ensures
            match r {
                Some(product) => product.format == self.format && product_of(
                    self.value@.mantissa,
                    self.value@.scale,
                    rhs@.mantissa,
                    rhs@.scale,
                ) == Some((product.value@.mantissa, product.value@.scale)),
                None => product_of(
                    self.value@.mantissa,
                    self.value@.scale,
                    rhs@.mantissa,
                    rhs@.scale,
                ) is None,
            },
    {
        match self.value.checked_mul(rhs) {
            Some(_) => Some(self * rhs),
            None => None,
        }
    }

    /// The quotient of a decimal value and a number, in the format of the left operand, or
    /// `None` where `rust_decimal` has none.
    pub fn checked_div(self, rhs: Decimal) -> (r: Option<Currency<Decimal>>)
        ensures
            match r {
                Some(quotient) => quotient.format == self.format && quotient_of(
                    self.value@.mantissa,
                    self.value@.scale,
                    rhs@.mantissa,
                    rhs@.scale,
                ) == Some((quotient.value@.mantissa, quotient.value@.scale)),
                None => quotient_of(
                    self.value@.mantissa,
                    self.value@.scale,
                    rhs@.mantissa,
                    rhs@.scale,
                ) is None,
            },
    {
        match self.value.checked_div(rhs) {
            Some(_) => Some(self / rhs),
            None => None,
        }
    }
}

impl<T: Add<Output = T>> Add for Currency<T> {
    type Output = Currency<T>;

    fn add(self, rhs: Currency<T>) -> (sum: Currency<T>)
        ensures
            sum.format == self.format,
            T::obeys_add_spec() ==> sum.value == self.value.add_spec(rhs.value),
    {
        Currency { value: self.value + rhs.value, format: self.format }
    }
}

impl<T: Add<Output = T>> AddSpecImpl for Currency<T> {
    open spec fn obeys_add_spec() -> bool {
        <T as AddSpec>::obeys_add_spec()
    }

    open spec fn add_req(self, rhs: Currency<T>) -> bool {
        self.value.add_req(rhs.value)
    }

    open spec fn add_spec(self, rhs: Currency<T>) -> Currency<T> {
        Currency { value: self.value.add_spec(rhs.value), format: self.format }
    }
}

impl<T: Sub<Output = T>> Sub for Currency<T> {
    type Output = Currency<T>;

    fn sub(self, rhs: Currency<T>) -> (difference: Currency<T>)
        ensures
            difference.format == self.format,
            T::obeys_sub_spec() ==> difference.value == self.value.sub_spec(rhs.value),
    {
        Currency { value: self.value - rhs.value, format: self.format }
    }
}

impl<T: Sub<Output = T>> SubSpecImpl for Currency<T> {
    open spec fn obeys_sub_spec() -> bool {
        <T as SubSpec>::obeys_sub_spec()
    }

    open spec fn sub_req(self, rhs: Currency<T>) -> bool {
        self.value.sub_req(rhs.value)
    }

    open spec fn sub_spec(self, rhs: Currency<T>) -> Currency<T> {
        Currency { value: self.value.sub_spec(rhs.value), format: self.format }
    }
}

impl<T: Mul<V, Output = T>, V> Mul<V> for Currency<T> {
    type Output = Currency<T>;

    fn mul(self, rhs: V) -> (product: Currency<T>)
        ensures
            product.format == self.format,
            T::obeys_mul_spec() ==> product.value == self.value.mul_spec(rhs),
    {
        Currency { value: self.value * rhs, format: self.format }
    }
}

impl<T: Mul<V, Output = T>, V> MulSpecImpl<V> for Currency<T> {
    open spec fn obeys_mul_spec() -> bool {
        <T as MulSpec<V>>::obeys_mul_spec()
    }

    open spec fn mul_req(self, rhs: V) -> bool {
        self.value.mul_req(rhs)
    }

    open spec fn mul_spec(self, rhs: V) -> Currency<T> {
        Currency { value: self.value.mul_spec(rhs), format: self.format }
    }
}

impl<T: Div<V, Output = T>, V> Div<V> for Currency<T> {
    type Output = Currency<T>;

    fn div(self, rhs: V) -> (quotient: Currency<T>)
        ensures
            quotient.format == self.format,
            T::obeys_div_spec() ==> quotient.value == self.value.div_spec(rhs),
    {
        Currency { value: self.value / rhs, format: self.format }
    }
}

impl<T: Div<V, Output = T>, V> DivSpecImpl<V> for Currency<T> {
    open spec fn obeys_div_spec() -> bool {
        <T as DivSpec<V>>::obeys_div_spec()
    }

    open spec fn div_req(self, rhs: V) -> bool {
        self.value.div_req(rhs)
    }

    open spec fn div_spec(self, rhs: V) -> Currency<T> {
        Currency { value: self.value.div_spec(rhs), format: self.format }
    }
}

} // verus!
