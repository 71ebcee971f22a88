//! Exact decimal amounts, and the decimal arithmetic they are handed to.

use rust_decimal::Decimal;
use vstd::prelude::*;

verus! {

/// The largest number of fractional digits an amount can carry.
pub const MAX_SCALE: u32 = 28;

/// The largest magnitude of an unscaled value: 96 bits, all set.
pub const MAX_UNSCALED: i128 = 0xFFFF_FFFF_FFFF_FFFF_FFFF_FFFF;

/// Ten to the power `n`.
pub open spec fn pow10(n: nat) -> int
    decreases n,
{
    if n == 0 {
        1
    } else {
        10 * pow10((n - 1) as nat)
    }
}

/// Every power of ten is positive.
pub proof fn lemma_pow10_positive(n: nat)
    ensures
        pow10(n) > 0,
    decreases n,
{
    if n > 0 {
        lemma_pow10_positive((n - 1) as nat);
    }
}

/// Whether `parts`, an unscaled value and a scale, lie within what an amount
/// can hold.
pub open spec fn in_range(parts: (int, nat)) -> bool {
    &&& parts.1 <= MAX_SCALE
    &&& -MAX_UNSCALED <= parts.0 <= MAX_UNSCALED
}

/// The number `parts.0 / 10^parts.1` in units of `10^-28`, the finest step
/// an amount can have.
pub open spec fn units_of(parts: (int, nat)) -> int {
    parts.0 * pow10((MAX_SCALE - parts.1) as nat)
}

/// A number is zero exactly when its unscaled value is.
pub proof fn lemma_zero_units(parts: (int, nat))
    requires
        parts.1 <= MAX_SCALE,
    ensures
        units_of(parts) == 0 <==> parts.0 == 0,
{
    let step = pow10((MAX_SCALE - parts.1) as nat);
    lemma_pow10_positive((MAX_SCALE - parts.1) as nat);
    assert((parts.0 * step == 0) == (parts.0 == 0)) by (nonlinear_arith)
        requires
            step > 0,
    ;
}

/// An exact decimal number, `unscaled / 10^scale`, with at most 28
/// fractional digits and an unscaled value of at most 96 bits.
///
/// Its view is the pair of unscaled value and scale. Two amounts may denote
/// the same number and still differ, as `1.0` and `1.00` do;
/// [`Amount::units`] is the number itself.
#[derive(Clone, Copy, Debug, PartialEq, Eq, Structural)]
pub struct Amount {
    unscaled: i128,
    scale: u32,
}

impl View for Amount {
    type V = (int, nat);

    closed spec fn view(&self) -> (int, nat) {
        (self.unscaled as int, self.scale as nat)
    }
}

impl Amount {
    #[verifier::type_invariant]
    spec fn well_formed(self) -> bool {
        in_range(self@)
    }

    /// The number in units of `10^-28`. Amounts denote the same number
    /// exactly when their units agree.
    pub open spec fn units(self) -> int {
        units_of(self@)
    }

    /// Amounts with the same parts are the same amount.
    pub proof fn lemma_view_injective(a: Amount, b: Amount)
        requires
            a@ == b@,
        ensures
            a == b,
    {
    }

    /// Builds the amount `unscaled / 10^scale`, or nothing where the parts
    /// are out of range.
    pub fn new(unscaled: i128, scale: u32) -> (r: Option<Amount>)
        ensures
            r is Some <==> in_range((unscaled as int, scale as nat)),
            r matches Some(a) ==> a@ == (unscaled as int, scale as nat),
    {
        if scale <= MAX_SCALE && -MAX_UNSCALED <= unscaled && unscaled <= MAX_UNSCALED {
            Some(Amount { unscaled, scale })
        } else {
            None
        }
    }

    /// The whole number one hundred.
    pub fn hundred() -> (r: Amount)
        ensures
            r@ == (100int, 0nat),
    {
        Amount { unscaled: 100, scale: 0 }
    }

    /// The integer that, divided by `10^scale`, gives the number.
    pub fn unscaled(&self) -> (r: i128)
        ensures
            r == self@.0,
            -MAX_UNSCALED <= r <= MAX_UNSCALED,
    {
        proof {
            use_type_invariant(self);
        }
        self.unscaled
    }

    /// The number of fractional digits.
    pub fn scale(&self) -> (r: u32)
        ensures
            r == self@.1,
            r <= MAX_SCALE,
    {
        proof {
            use_type_invariant(self);
        }
        self.scale
    }

    /// Whether the number is zero.
    pub fn is_zero(&self) -> (r: bool)
        ensures
            r == (self.units() == 0),
            r == (self@.0 == 0),
    {
        proof {
            use_type_invariant(self);
            lemma_zero_units(self@);
        }
        self.unscaled == 0
    }

    /// Whether this number is strictly below `other`.
    pub fn less_than(&self, other: &Amount) -> (r: bool)
        ensures
            r == (self.units() < other.units()),
    {
        decimal_less(*self, *other)
    }

    /// The number as text with two fractional digits, as the decimal
    /// arithmetic writes it.
    pub fn to_fixed2(&self) -> (r: String)
        ensures
            r@ == fixed2_text(self@),
    {
        decimal_fixed2(*self)
    }
}

/// What `rust_decimal` gives for `a - b`: the parts of the difference, or
/// nothing where it reports an overflow.
pub uninterp spec fn decimal_difference(a: (int, nat), b: (int, nat)) -> Option<(int, nat)>;

/// What `rust_decimal` gives for `a * b`: the parts of the product, or
/// nothing where it reports an overflow.
pub uninterp spec fn decimal_product(a: (int, nat), b: (int, nat)) -> Option<(int, nat)>;

/// What `rust_decimal` gives for `a / b`: the parts of the quotient, or
/// nothing where the divisor is zero or it reports an overflow.
pub uninterp spec fn decimal_quotient(a: (int, nat), b: (int, nat)) -> Option<(int, nat)>;

/// The text `rust_decimal` writes for an amount when asked for two
/// fractional digits.
pub uninterp spec fn fixed2_text(a: (int, nat)) -> Seq<char>;

/// Trusted: the `<` of `rust_decimal::Decimal`, between the decimals that
/// `Decimal::from_i128_with_scale` makes of the two amounts. It orders
/// decimals by the numbers they denote, whatever their scales; the contract
/// states that order over [`Amount::units`].
#[verifier::external_body]
fn decimal_less(a: Amount, b: Amount) -> (r: bool)
    ensures
        r == (a.units() < b.units()),
{
    Decimal::from_i128_with_scale(a.unscaled, a.scale)
        < Decimal::from_i128_with_scale(b.unscaled, b.scale)
}

/// Trusted: `rust_decimal::Decimal::checked_sub`, on the decimals that
/// `Decimal::from_i128_with_scale` makes of the two amounts; what comes back
/// is read off with `mantissa` and `scale`. The contract only names the
/// result; it claims nothing about which number comes out.
#[verifier::external_body]
pub(crate) fn decimal_sub(a: Amount, b: Amount) -> (r: Option<Amount>)
    ensures
        r matches Some(d) ==> decimal_difference(a@, b@) == Some(d@),
        r is None ==> decimal_difference(a@, b@) is None,
{
    let x = Decimal::from_i128_with_scale(a.unscaled, a.scale);
    let y = Decimal::from_i128_with_scale(b.unscaled, b.scale);
    match x.checked_sub(y) {
        Some(d) => Some(Amount { unscaled: d.mantissa(), scale: d.scale() }),
        None => None,
    }
}

/// Trusted: `rust_decimal::Decimal::checked_mul`, on the decimals that
/// `Decimal::from_i128_with_scale` makes of the two amounts; what comes back
/// is read off with `mantissa` and `scale`. The contract only names the
/// result; it claims nothing about which number comes out.
#[verifier::external_body]
pub(crate) fn decimal_mul(a: Amount, b: Amount) -> (r: Option<Amount>)
    ensures
        r matches Some(d) ==> decimal_product(a@, b@) == Some(d@),
        r is None ==> decimal_product(a@, b@) is None,
{
    let x = Decimal::from_i128_with_scale(a.unscaled, a.scale);
    let y = Decimal::from_i128_with_scale(b.unscaled, b.scale);
    match x.checked_mul(y) {
        Some(d) => Some(Amount { unscaled: d.mantissa(), scale: d.scale() }),
        None => None,
    }
}

/// Trusted: `rust_decimal::Decimal::checked_div`, on the decimals that
/// `Decimal::from_i128_with_scale` makes of the two amounts; what comes back
/// is read off with `mantissa` and `scale`. The contract only names the
/// result; it claims nothing about which number comes out.
#[verifier::external_body]
pub(crate) fn decimal_div(a: Amount, b: Amount) -> (r: Option<Amount>)
    ensures
        r matches Some(d) ==> decimal_quotient(a@, b@) == Some(d@),
        r is None ==> decimal_quotient(a@, b@) is None,
{
    let x = Decimal::from_i128_with_scale(a.unscaled, a.scale);
    let y = Decimal::from_i128_with_scale(b.unscaled, b.scale);
    match x.checked_div(y) {
        Some(d) => Some(Amount { unscaled: d.mantissa(), scale: d.scale() }),
        None => None,
    }
}

/// Trusted: the `Display` of `rust_decimal::Decimal` with a precision of
/// two, on the decimal that `Decimal::from_i128_with_scale` makes of the
/// amount. The contract only names the text.
#[verifier::external_body]
fn decimal_fixed2(a: Amount) -> (r: String)
    ensures
        r@ == fixed2_text(a@),
{
    format!("{:.2}", Decimal::from_i128_with_scale(a.unscaled, a.scale))
}

} // verus!
