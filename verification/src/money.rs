//! Exact decimal money.
//!
//! A [`Money`] holds a decimal number as a signed mantissa and a scale: the
//! number `mantissa / 10^scale`. The arithmetic itself is done by
//! `rust_decimal`; the items that call it are marked as such.

use vstd::arithmetic::power::pow;
use vstd::prelude::*;

verus! {

/// The largest mantissa (in absolute value) a [`Money`] can hold: `2^96 - 1`.
pub const MAX_MANTISSA: i128 = 79_228_162_514_264_337_593_543_950_335;

/// The largest scale a [`Money`] can hold.
pub const MAX_SCALE: u32 = 28;

/// The mathematical content of a [`Money`]: the number `mantissa / 10^scale`.
pub struct Amount {
    pub mantissa: int,
    pub scale: nat,
}

impl Amount {
    /// Zero, written without decimal places.
    pub open spec fn zero() -> Amount {
        Amount { mantissa: 0, scale: 0 }
    }

    /// Whether a [`Money`] can hold this mantissa and scale.
    pub open spec fn representable(self) -> bool {
        -MAX_MANTISSA <= self.mantissa <= MAX_MANTISSA && self.scale <= MAX_SCALE
    }

    /// `self < other` as numbers: both sides are brought to a common
    /// denominator, which is positive, and the numerators are compared.
    pub open spec fn less_than(self, other: Amount) -> bool {
        self.mantissa * pow(10, other.scale) < other.mantissa * pow(10, self.scale)
    }

    /// `self == other` as numbers, whatever the two scales are.
    pub open spec fn same_value(self, other: Amount) -> bool {
        self.mantissa * pow(10, other.scale) == other.mantissa * pow(10, self.scale)
    }

    /// The sum `rust_decimal` gives for the two amounts, `None` where it
    /// reports an overflow.
    pub open spec fn plus(self, other: Amount) -> Option<Amount> {
        match decimal_checked_add(self.mantissa, self.scale, other.mantissa, other.scale) {
            Some((mantissa, scale)) => Some(Amount { mantissa, scale }),
            None => None,
        }
    }

    /// The difference `rust_decimal` gives for the two amounts, `None` where
    /// it reports an overflow.
    pub open spec fn minus(self, other: Amount) -> Option<Amount> {
        match decimal_checked_sub(self.mantissa, self.scale, other.mantissa, other.scale) {
            Some((mantissa, scale)) => Some(Amount { mantissa, scale }),
            None => None,
        }
    }
}

/// What `rust_decimal::Decimal::checked_add` returns for the decimals
/// `a_mantissa / 10^a_scale` and `b_mantissa / 10^b_scale`, as mantissa and
/// scale. Where the exact sum does not fit the 96 bits of a mantissa,
/// `rust_decimal` gives up decimal places and rounds, or reports an overflow
/// (`None`). That rule takes pages, so the result has a name here and no
/// definition.
pub uninterp spec fn decimal_checked_add(
    a_mantissa: int,
    a_scale: nat,
    b_mantissa: int,
    b_scale: nat,
) -> Option<(int, nat)>;

/// What `rust_decimal::Decimal::checked_sub` returns for the decimals
/// `a_mantissa / 10^a_scale` and `b_mantissa / 10^b_scale`, as mantissa and
/// scale: the difference, found by the rule of [`decimal_checked_add`].
pub uninterp spec fn decimal_checked_sub(
    a_mantissa: int,
    a_scale: nat,
    b_mantissa: int,
    b_scale: nat,
) -> Option<(int, nat)>;

/// An exact decimal value: `mantissa / 10^scale`, with a mantissa of at most
/// 96 bits and a scale of at most 28.
#[derive(Clone, Copy, Debug, Eq)]
pub struct Money {
    mantissa: i128,
    scale: u32,
}

impl View for Money {
    type V = Amount;

    closed spec fn view(&self) -> Amount {
        Amount { mantissa: self.mantissa as int, scale: self.scale as nat }
    }
}

impl Money {
    #[verifier::type_invariant]
    spec fn in_bounds(self) -> bool {
        -MAX_MANTISSA <= self.mantissa <= MAX_MANTISSA && self.scale <= MAX_SCALE
    }

    /// The value `num / 10^scale`.
    pub fn new(num: i64, scale: u32) -> (r: Money)
        requires
            scale <= MAX_SCALE,
        ensures
            r@ == (Amount { mantissa: num as int, scale: scale as nat }),
    {
        Money { mantissa: num as i128, scale }
    }

    /// Zero, written without decimal places.
    pub fn zero() -> (r: Money)
        ensures
            r@ == Amount::zero(),
    {
        Money { mantissa: 0, scale: 0 }
    }

    /// The value `mantissa / 10^scale`, if a `Money` can hold it: `None`
    /// where the mantissa needs more than 96 bits or the scale is above 28.
    pub fn try_new(mantissa: i128, scale: u32) -> (r: Option<Money>)
        ensures
            r is Some <==> (Amount { mantissa: mantissa as int, scale: scale as nat }).representable(),
            r matches Some(m) ==> m@ == (Amount { mantissa: mantissa as int, scale: scale as nat }),
    {
        if -MAX_MANTISSA <= mantissa && mantissa <= MAX_MANTISSA && scale <= MAX_SCALE {
            Some(Money { mantissa, scale })
        } else {
            None
        }
    }

    /// The numerator of the value.
    pub fn mantissa(&self) -> (r: i128)
        ensures
            r == self@.mantissa,
            self@.representable(),
    {
        proof {
            use_type_invariant(self);
        }
        self.mantissa
    }

    /// The number of decimal places of the value.
    pub fn scale(&self) -> (r: u32)
        ensures
            r == self@.scale,
            self@.representable(),
    {
        proof {
            use_type_invariant(self);
        }
        self.scale
    }

    /// `self + other`, computed by `rust_decimal::Decimal::checked_add`;
    /// `None` where that reports an overflow.
    ///
    /// Both values go in as decimals with the same mantissa and scale
    /// (`Decimal::from_i128_with_scale`, which takes every mantissa and
    /// scale that a `Money` can hold), and the sum comes back by its
    /// `mantissa()` and `scale()`. The contract claims that the outcome is
    /// [`decimal_checked_add`] of the four numbers, that is, that it depends
    /// on nothing else; it claims nothing of which number the sum is.
    #[verifier::external_body]
    pub(crate) fn checked_add(self, other: Money) -> (r: Option<Money>)
        ensures
            match r {
                Some(sum) => decimal_checked_add(
                    self@.mantissa,
                    self@.scale,
                    other@.mantissa,
                    other@.scale,
                ) == Some((sum@.mantissa, sum@.scale)),
                None => decimal_checked_add(
                    self@.mantissa,
                    self@.scale,
                    other@.mantissa,
                    other@.scale,
                ) is None,
            },
    {
        let a = rust_decimal::Decimal::from_i128_with_scale(self.mantissa, self.scale);
        let b = rust_decimal::Decimal::from_i128_with_scale(other.mantissa, other.scale);
        match a.checked_add(b) {
            Some(d) => Some(Money { mantissa: d.mantissa(), scale: d.scale() }),
            None => None,
        }
    }

    /// `self - other`, computed by `rust_decimal::Decimal::checked_sub`;
    /// `None` where that reports an overflow.
    ///
    /// The values are handed over and taken back as in
    /// [`Money::checked_add`]. The contract claims that the outcome is
    /// [`decimal_checked_sub`] of the four numbers, that is, that it depends
    /// on nothing else; it claims nothing of which number the difference is.
    #[verifier::external_body]
    pub(crate) fn checked_sub(self, other: Money) -> (r: Option<Money>)
        ensures
            match r {
                Some(difference) => decimal_checked_sub(
                    self@.mantissa,
                    self@.scale,
                    other@.mantissa,
                    other@.scale,
                ) == Some((difference@.mantissa, difference@.scale)),
                None => decimal_checked_sub(
                    self@.mantissa,
                    self@.scale,
                    other@.mantissa,
                    other@.scale,
                ) is None,
            },
    {
        let a = rust_decimal::Decimal::from_i128_with_scale(self.mantissa, self.scale);
        let b = rust_decimal::Decimal::from_i128_with_scale(other.mantissa, other.scale);
        match a.checked_sub(b) {
            Some(d) => Some(Money { mantissa: d.mantissa(), scale: d.scale() }),
            None => None,
        }
    }

    /// `self < other`, decided by `<` of `rust_decimal::Decimal` on the two
    /// values as decimals. The contract claims that this is the order of the
    /// numbers: zero equals zero at every scale, a negative is below a
    /// positive, and two of one sign are compared at a common scale.
    #[verifier::external_body]
    pub(crate) fn is_less_than(&self, other: &Money) -> (r: bool)
        ensures
            r == self@.less_than(other@),
    {
        let a = rust_decimal::Decimal::from_i128_with_scale(self.mantissa, self.scale);
        let b = rust_decimal::Decimal::from_i128_with_scale(other.mantissa, other.scale);
        a < b
    }

    /// `self == other`, decided by `==` of `rust_decimal::Decimal` on the
    /// two values as decimals. The contract claims that this is equality of
    /// the numbers, whatever the two scales are: `1.0` equals `1.00`.
    #[verifier::external_body]
    pub(crate) fn is_same_value(&self, other: &Money) -> (r: bool)
        ensures
            r == self@.same_value(other@),
    {
        let a = rust_decimal::Decimal::from_i128_with_scale(self.mantissa, self.scale);
        let b = rust_decimal::Decimal::from_i128_with_scale(other.mantissa, other.scale);
        a == b
    }
}

impl PartialEq for Money {
    /// Two values are equal when they are the same number: `1.0 == 1.00`.
    fn eq(&self, other: &Money) -> (r: bool) {
        self.is_same_value(other)
    }
}

impl vstd::std_specs::cmp::PartialEqSpecImpl for Money {
    open spec fn obeys_eq_spec() -> bool {
        true
    }

    open spec fn eq_spec(&self, other: &Money) -> bool {
        self@.same_value(other@)
    }
}

} // verus!
