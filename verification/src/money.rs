//! Exact decimal amounts of money.

use rust_decimal::Decimal;
use vstd::arithmetic::div_mod::{lemma_fundamental_div_mod, lemma_mod_pos_bound};
use vstd::prelude::*;

verus! {

/// Largest number of decimal places that an amount can carry.
pub const MAX_SCALE: u32 = 28;

/// The number of units of 10^-28 in one: 10^28.
pub const UNITS_PER_ONE: i128 = 10_000_000_000_000_000_000_000_000_000;

/// Largest magnitude of an amount's mantissa: 2^96 - 1.
pub const MAX_MANTISSA: i128 = 0xFFFF_FFFF_FFFF_FFFF_FFFF_FFFF;

/// A signed decimal number `mantissa / 10^scale`, with a mantissa of at most
/// 96 bits and at most 28 decimal places.
#[derive(Clone, Copy, Debug, PartialEq, Eq, Structural)]
pub struct Amount {
    mantissa: i128,
    scale: u32,
}

/// What adding the decimal `a_mantissa / 10^a_scale` and the decimal
/// `b_mantissa / 10^b_scale` gives, as mantissa and scale, or `None` where
/// the sum leaves the range of the number type.
pub uninterp spec fn decimal_sum(a_mantissa: i128, a_scale: u32, b_mantissa: i128, b_scale: u32)
    -> Option<(i128, u32)>;

/// What subtracting the decimal `b_mantissa / 10^b_scale` from the decimal
/// `a_mantissa / 10^a_scale` gives, as mantissa and scale, or `None` where
/// the difference leaves the range of the number type.
pub uninterp spec fn decimal_difference(
    a_mantissa: i128,
    a_scale: u32,
    b_mantissa: i128,
    b_scale: u32,
) -> Option<(i128, u32)>;

/// Ten to the power `exponent`.
pub open spec fn pow10(exponent: nat) -> int
    decreases exponent,
{
    if exponent == 0 {
        1
    } else {
        10 * pow10((exponent - 1) as nat)
    }
}

/// Powers of ten multiply by adding their exponents.
pub proof fn lemma_pow10_adds(a: nat, b: nat)
    ensures
        pow10(a) * pow10(b) == pow10(a + b),
    decreases a,
{
    if a > 0 {
        lemma_pow10_adds((a - 1) as nat, b);
        assert(pow10(a) * pow10(b) == 10 * (pow10((a - 1) as nat) * pow10(b))) by (nonlinear_arith)
            requires
                pow10(a) == 10 * pow10((a - 1) as nat),
        ;
    }
}

/// Powers of ten are at least one and grow with their exponent.
pub proof fn lemma_pow10_grows(a: nat, b: nat)
    requires
        a <= b,
    ensures
        1 <= pow10(a) <= pow10(b),
    decreases b,
{
    if b > 0 {
        if a == b {
            lemma_pow10_grows((a - 1) as nat, (b - 1) as nat);
        } else {
            lemma_pow10_grows(a, (b - 1) as nat);
        }
    }
}

/// 10^28 is the number of smallest units in one.
pub proof fn lemma_units_per_one()
    ensures
        pow10(MAX_SCALE as nat) == UNITS_PER_ONE,
{
    reveal_with_fuel(pow10, 30);
}

/// Ten to the power `exponent`, for the exponents that a scale can take.
fn ten_to(exponent: u32) -> (r: i128)
    requires
        exponent <= MAX_SCALE,
    ensures
        r == pow10(exponent as nat),
        1 <= r <= UNITS_PER_ONE,
{
    let mut power: i128 = 1;
    let mut i: u32 = 0;
    proof {
        lemma_units_per_one();
    }
    while i < exponent
        invariant
            i <= exponent <= MAX_SCALE,
            power == pow10(i as nat),
            1 <= power <= UNITS_PER_ONE,
            pow10(MAX_SCALE as nat) == UNITS_PER_ONE,
        decreases exponent - i,
    {
        proof {
            lemma_pow10_grows((i + 1) as nat, MAX_SCALE as nat);
        }
        power = power * 10;
        i += 1;
    }
    power
}

/// Whether a mantissa and a scale lie in the range of an amount.
pub open spec fn parts_in_range(mantissa: i128, scale: u32) -> bool {
    -MAX_MANTISSA <= mantissa <= MAX_MANTISSA && scale <= MAX_SCALE
}

/// Calls `rust_decimal::Decimal::checked_add` on the two amounts, each turned
/// into a `Decimal` with `from_i128_with_scale` and the sum turned back with
/// `mantissa` and `scale`. Trusted: the result is the one that `decimal_sum`
/// names, and its parts lie in the range of an amount.
#[verifier::external_body]
fn decimal_checked_add(a: &Amount, b: &Amount) -> (r: Option<Amount>)
    requires
        parts_in_range(a.mantissa(), a.scale()),
        parts_in_range(b.mantissa(), b.scale()),
    ensures
        r matches Some(s) ==> decimal_sum(a.mantissa(), a.scale(), b.mantissa(), b.scale())
            == Some((s.mantissa(), s.scale())),
        r is None ==> decimal_sum(a.mantissa(), a.scale(), b.mantissa(), b.scale()) is None,
        r matches Some(s) ==> parts_in_range(s.mantissa(), s.scale()),
{
    let x = Decimal::from_i128_with_scale(a.mantissa, a.scale);
    let y = Decimal::from_i128_with_scale(b.mantissa, b.scale);
    match x.checked_add(y) {
        Some(z) => Some(Amount { mantissa: z.mantissa(), scale: z.scale() }),
        None => None,
    }
}

/// Calls `rust_decimal::Decimal::checked_sub` on the two amounts, each turned
/// into a `Decimal` with `from_i128_with_scale` and the difference turned back
/// with `mantissa` and `scale`. Trusted: the result is the one that
/// `decimal_difference` names, and its parts lie in the range of an amount.
#[verifier::external_body]
fn decimal_checked_sub(a: &Amount, b: &Amount) -> (r: Option<Amount>)
    requires
        parts_in_range(a.mantissa(), a.scale()),
        parts_in_range(b.mantissa(), b.scale()),
    ensures
        r matches Some(s) ==> decimal_difference(
            a.mantissa(),
            a.scale(),
            b.mantissa(),
            b.scale(),
        ) == Some((s.mantissa(), s.scale())),
        r is None ==> decimal_difference(a.mantissa(), a.scale(), b.mantissa(), b.scale()) is None,
        r matches Some(s) ==> parts_in_range(s.mantissa(), s.scale()),
{
    let x = Decimal::from_i128_with_scale(a.mantissa, a.scale);
    let y = Decimal::from_i128_with_scale(b.mantissa, b.scale);
    match x.checked_sub(y) {
        Some(z) => Some(Amount { mantissa: z.mantissa(), scale: z.scale() }),
        None => None,
    }
}

impl Amount {
    /// The signed integer that holds the amount's digits.
    pub closed spec fn spec_mantissa(&self) -> i128 {
        self.mantissa
    }

    /// The number of the amount's digits that stand after the decimal point.
    pub closed spec fn spec_scale(&self) -> u32 {
        self.scale
    }

    /// The amount with the given parts.
    pub closed spec fn of_parts(mantissa: i128, scale: u32) -> Amount {
        Amount { mantissa, scale }
    }

    /// The amount as a whole number of units of 10^-28, the smallest step
    /// that any amount can resolve.
    pub open spec fn value(self) -> int {
        if self.scale() <= MAX_SCALE {
            self.mantissa() * pow10((MAX_SCALE - self.scale()) as nat)
        } else {
            0
        }
    }

    /// The sum of two amounts as the number type computes it.
    pub open spec fn sum_with(self, other: Amount) -> Option<Amount> {
        match decimal_sum(self.mantissa(), self.scale(), other.mantissa(), other.scale()) {
            Some((mantissa, scale)) => Some(Amount::of_parts(mantissa, scale)),
            None => None,
        }
    }

    /// The difference of two amounts as the number type computes it.
    pub open spec fn difference_with(self, other: Amount) -> Option<Amount> {
        match decimal_difference(self.mantissa(), self.scale(), other.mantissa(), other.scale()) {
            Some((mantissa, scale)) => Some(Amount::of_parts(mantissa, scale)),
            None => None,
        }
    }

    /// Whether the number type adds the two amounts without rounding: the
    /// sum stays in range and its value is the sum of the two values.
    pub open spec fn adds_exactly(self, other: Amount) -> bool {
        self.sum_with(other) matches Some(total) && total.value() == self.value() + other.value()
    }

    /// The magnitude of an amount: the same digits without the sign.
    pub open spec fn magnitude(self) -> Amount {
        if self.mantissa() < 0 {
            Amount::of_parts((-self.mantissa()) as i128, self.scale())
        } else {
            self
        }
    }

    /// Whether the parts of the amount lie in range. Every amount that a
    /// program holds does; one that only a specification speaks of may not.
    #[verifier::type_invariant]
    pub open spec fn is_valid(self) -> bool {
        parts_in_range(self.mantissa(), self.scale())
    }

    /// The parts of `of_parts(mantissa, scale)` are `mantissa` and `scale`.
    pub proof fn lemma_of_parts(mantissa: i128, scale: u32)
        ensures
            Amount::of_parts(mantissa, scale).mantissa() == mantissa,
            Amount::of_parts(mantissa, scale).scale() == scale,
    {
    }

    /// An amount is the amount of its parts.
    pub proof fn lemma_parts_of(self)
        ensures
            self == Amount::of_parts(self.mantissa(), self.scale()),
    {
    }

    /// The magnitude of a valid amount keeps its scale, and its value is the
    /// absolute value of the amount's.
    pub proof fn lemma_magnitude(self)
        requires
            self.is_valid(),
        ensures
            self.magnitude().is_valid(),
            self.magnitude().scale() == self.scale(),
            self.magnitude().mantissa() >= 0,
            self.mantissa() < 0 ==> self.magnitude().mantissa() == -self.mantissa()
                && self.magnitude().value() == -self.value(),
            self.mantissa() >= 0 ==> self.magnitude() == self,
    {
        if self.mantissa < 0 {
            let scale_up = pow10((MAX_SCALE - self.scale) as nat);
            assert((-self.mantissa) * scale_up == -(self.mantissa * scale_up)) by (nonlinear_arith);
        }
    }

    /// An amount from its parts, where they lie in range.
    pub fn new(mantissa: i128, scale: u32) -> (r: Option<Amount>)
        ensures
            parts_in_range(mantissa, scale) ==> r == Some(Amount::of_parts(mantissa, scale)),
            !parts_in_range(mantissa, scale) ==> r is None,
    {
        if -MAX_MANTISSA <= mantissa && mantissa <= MAX_MANTISSA && scale <= MAX_SCALE {
            Some(Amount { mantissa, scale })
        } else {
            None
        }
    }

    /// The amount zero, without decimal places.
    pub fn zero() -> (r: Amount)
        ensures
            r == Amount::of_parts(0, 0),
    {
        Amount { mantissa: 0, scale: 0 }
    }

    /// A whole number as an amount.
    pub fn from_i64(units: i64) -> (r: Amount)
        ensures
            r == Amount::of_parts(units as i128, 0),
    {
        Amount { mantissa: units as i128, scale: 0 }
    }

    #[verifier::when_used_as_spec(spec_mantissa)]
    pub fn mantissa(&self) -> (r: i128)
        ensures
            r == self.spec_mantissa(),
            -MAX_MANTISSA <= r <= MAX_MANTISSA,
    {
        proof {
            use_type_invariant(self);
        }
        self.mantissa
    }

    #[verifier::when_used_as_spec(spec_scale)]
    pub fn scale(&self) -> (r: u32)
        ensures
            r == self.spec_scale(),
            r <= MAX_SCALE,
    {
        proof {
            use_type_invariant(self);
        }
        self.scale
    }

    /// Splits the amount into its whole part and its fraction, the fraction
    /// in units of 10^-28. Both carry the sign of the amount.
    fn split(&self) -> (r: (i128, i128))
        ensures
            self.value() == r.0 * UNITS_PER_ONE + r.1,
            -MAX_MANTISSA <= r.0 <= MAX_MANTISSA,
            -UNITS_PER_ONE < r.1 < UNITS_PER_ONE,
    {
        proof {
            use_type_invariant(self);
        }
        let divisor = ten_to(self.scale);
        let factor = ten_to(MAX_SCALE - self.scale);
        let size: i128 = if self.mantissa < 0 {
            -self.mantissa
        } else {
            self.mantissa
        };
        let whole = size / divisor;
        let rest = size % divisor;
        proof {
            lemma_pow10_adds(self.scale as nat, (MAX_SCALE - self.scale) as nat);
            lemma_units_per_one();
            lemma_fundamental_div_mod(size as int, divisor as int);
            lemma_mod_pos_bound(size as int, divisor as int);
            assert(divisor * factor == UNITS_PER_ONE);
            assert(0 <= whole <= size) by (nonlinear_arith)
                requires
                    size == divisor * whole + rest,
                    0 <= rest < divisor,
                    1 <= divisor,
                    0 <= size,
            ;
            assert(0 <= rest * factor < UNITS_PER_ONE) by (nonlinear_arith)
                requires
                    0 <= rest < divisor,
                    1 <= factor,
                    divisor * factor == UNITS_PER_ONE,
            ;
            assert(size * factor == whole * UNITS_PER_ONE + rest * factor) by (nonlinear_arith)
                requires
                    size == divisor * whole + rest,
                    divisor * factor == UNITS_PER_ONE,
            ;
            assert((-size) * factor == -(size * factor)) by (nonlinear_arith);
        }
        let fraction = rest * factor;
        if self.mantissa < 0 {
            (-whole, -fraction)
        } else {
            (whole, fraction)
        }
    }

    /// Whether `total` is the exact sum of `self` and `other`.
    pub fn adds_exactly_to(&self, other: &Amount, total: &Amount) -> (r: bool)
        ensures
            r == (total.value() == self.value() + other.value()),
    {
        let (whole_a, fraction_a) = self.split();
        let (whole_b, fraction_b) = other.split();
        let (whole_t, fraction_t) = total.split();
        let wholes = whole_a + whole_b - whole_t;
        let fractions = fraction_t - fraction_a - fraction_b;
        if wholes < -2 || wholes > 2 {
            false
        } else {
            wholes * UNITS_PER_ONE == fractions
        }
    }

    /// Whether the amount is below zero.
    pub fn is_negative(&self) -> (r: bool)
        ensures
            r == (self.mantissa() < 0),
    {
        self.mantissa < 0
    }

    /// Whether the amount is zero.
    pub fn is_zero(&self) -> (r: bool)
        ensures
            r == (self.mantissa() == 0),
    {
        self.mantissa == 0
    }

    /// The magnitude of the amount.
    pub fn abs(&self) -> (r: Amount)
        ensures
            r == self.magnitude(),
    {
        proof {
            use_type_invariant(self);
        }
        if self.mantissa < 0 {
            Amount { mantissa: -self.mantissa, scale: self.scale }
        } else {
            *self
        }
    }

    /// The sum of two amounts, or `None` where it leaves the range.
    pub fn checked_add(&self, other: &Amount) -> (r: Option<Amount>)
        ensures
            r == self.sum_with(*other),
    {
        proof {
            use_type_invariant(self);
            use_type_invariant(other);
        }
        decimal_checked_add(self, other)
    }

    /// The difference of two amounts, or `None` where it leaves the range.
    pub fn checked_sub(&self, other: &Amount) -> (r: Option<Amount>)
        ensures
            r == self.difference_with(*other),
    {
        proof {
            use_type_invariant(self);
            use_type_invariant(other);
        }
        decimal_checked_sub(self, other)
    }
}

} // verus!
