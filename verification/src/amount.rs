//! Exact decimal amounts.
//!
//! An [`Amount`] is an integer mantissa together with a scale, standing for
//! `mantissa / 10^scale`. It holds exactly what a `rust_decimal::Decimal`
//! holds, so that a value can be handed to that crate and taken back without
//! loss, while contracts speak of the two integers.

use vstd::prelude::*;

verus! {

/// The largest scale an [`Amount`] can have.
pub const MAX_SCALE: u32 = 28;

/// The largest mantissa an [`Amount`] can have, `2^96 - 1`.
pub const MAX_MANTISSA: i128 = 79_228_162_514_264_337_593_543_950_335;

/// The number of digits that the whole part of a moderate amount can have.
/// Twice a moderate amount is still less than the largest decimal.
pub const MODERATE_DIGITS: u32 = 28;

/// Ten raised to the power `n`.
pub open spec fn pow10(n: nat) -> int
    decreases n,
{
    if n == 0 {
        1
    } else {
        10 * pow10((n - 1) as nat)
    }
}

/// Powers of ten are positive.
pub proof fn lemma_pow10_positive(n: nat)
    ensures
        pow10(n) > 0,
    decreases n,
{
    if n > 0 {
        lemma_pow10_positive((n - 1) as nat);
    }
}

/// The number `mantissa / 10^scale`, as contracts see it.
pub struct Dec {
    pub mantissa: int,
    pub scale: nat,
}

impl Dec {
    /// Zero, written without decimal places.
    pub open spec fn zero() -> Dec {
        Dec { mantissa: 0, scale: 0 }
    }

    /// Whether the two integers fit a 96-bit mantissa and a scale of at most 28.
    pub open spec fn representable(self) -> bool {
        &&& self.scale <= MAX_SCALE
        &&& -MAX_MANTISSA <= self.mantissa <= MAX_MANTISSA
    }

    /// The mantissa without its sign.
    pub open spec fn magnitude(self) -> int {
        if self.mantissa < 0 {
            -self.mantissa
        } else {
            self.mantissa
        }
    }

    /// Whether the number is less than `10^28` in magnitude, so that twice
    /// the number is still less than the largest decimal.
    pub open spec fn is_moderate(self) -> bool {
        self.whole_digits_at_most(MODERATE_DIGITS as nat)
    }

    /// Whether the number is at most `10^28` times `step`, for a `step`
    /// greater than zero: `|self| / step <= 10^28`, written without the
    /// division.
    pub open spec fn steps_at_most_moderate(self, step: Dec) -> bool {
        self.magnitude() * pow10(step.scale) <= step.mantissa * pow10(
            self.scale + MODERATE_DIGITS as nat,
        )
    }

    /// Whether the number can be counted in steps of `step` and brought
    /// back to a multiple of it inside what a decimal can hold: the number is
    /// moderate and holds at most `10^28` steps. Any number can be, for a
    /// step that is not positive, for then nothing is computed.
    pub open spec fn countable_in(self, step: Dec) -> bool {
        step.mantissa <= 0 || (self.is_moderate() && self.steps_at_most_moderate(step))
    }

    /// Whether the whole part of the number has at most `digits` digits.
    pub open spec fn whole_digits_at_most(self, digits: nat) -> bool {
        -pow10(digits + self.scale) < self.mantissa < pow10(digits + self.scale)
    }

    /// `self <= other` as numbers.
    pub open spec fn le(self, other: Dec) -> bool {
        self.mantissa * pow10(other.scale) <= other.mantissa * pow10(self.scale)
    }

    /// `self < other` as numbers.
    pub open spec fn lt(self, other: Dec) -> bool {
        self.mantissa * pow10(other.scale) < other.mantissa * pow10(self.scale)
    }

    /// `self > 0`.
    pub open spec fn is_positive(self) -> bool {
        self.mantissa > 0
    }
}

/// What contracts see of an amount that may be absent.
pub open spec fn option_view(amount: Option<Amount>) -> Option<Dec> {
    match amount {
        Some(a) => Some(a@),
        None => None,
    }
}

/// Shorthand for the number `mantissa / 10^scale`.
pub open spec fn dec(mantissa: int, scale: nat) -> Dec {
    Dec { mantissa, scale }
}

/// An exact decimal number, `mantissa / 10^scale`.
///
/// Every `Amount` fits a `rust_decimal::Decimal`: its scale is at most 28 and
/// its mantissa at most `2^96 - 1` in magnitude.
///
/// `==` holds of two amounts that are written alike, so `1.0 != 1.00`. To
/// compare them as numbers, use [`Amount::le`] and [`Amount::lt`].
#[derive(Clone, Copy, Debug, PartialEq, Eq)]
pub struct Amount {
    mantissa: i128,
    scale: u32,
}

impl View for Amount {
    type V = Dec;

    closed spec fn view(&self) -> Dec {
        Dec { mantissa: self.mantissa as int, scale: self.scale as nat }
    }
}

impl Amount {
    #[verifier::type_invariant]
    spec fn fits(self) -> bool {
        self@.representable()
    }

    /// The amount `mantissa / 10^scale`, or `None` where the two do not fit.
    pub fn new(mantissa: i128, scale: u32) -> (r: Option<Amount>)
        ensures
            r is Some <==> dec(mantissa as int, scale as nat).representable(),
            r is Some ==> r->0@ == dec(mantissa as int, scale as nat),
    {
        if scale <= MAX_SCALE && -MAX_MANTISSA <= mantissa && mantissa <= MAX_MANTISSA {
            Some(Amount { mantissa, scale })
        } else {
            None
        }
    }

    /// Zero.
    pub fn zero() -> (r: Amount)
        ensures
            r@ == Dec::zero(),
    {
        Amount { mantissa: 0, scale: 0 }
    }

    /// The integer that the decimal point is placed in.
    pub fn mantissa(&self) -> (m: i128)
        ensures
            m == self@.mantissa,
    {
        self.mantissa
    }

    /// The number of decimal places.
    pub fn scale(&self) -> (s: u32)
        ensures
            s == self@.scale,
    {
        self.scale
    }

    /// Whether `self <= other` as numbers.
    pub fn le(&self, other: &Amount) -> (r: bool)
        ensures
            r == self@.le(other@),
    {
        decimal_le(self, other)
    }

    /// Whether `self < other` as numbers.
    pub fn lt(&self, other: &Amount) -> (r: bool)
        ensures
            r == self@.lt(other@),
    {
        proof {
            lemma_lt_is_not_ge(self@, other@);
        }
        !decimal_le(other, self)
    }

    /// Whether the amount is greater than zero.
    pub fn is_positive(&self) -> (r: bool)
        ensures
            r == self@.is_positive(),
    {
        let zero = Amount::zero();
        proof {
            lemma_le_zero(self@);
        }
        !decimal_le(self, &zero)
    }

    /// Whether the amount is less than `10^28` in magnitude.
    pub fn is_moderate(&self) -> (r: bool)
        ensures
            r == self@.is_moderate(),
    {
        self.whole_digits_at_most(MODERATE_DIGITS as u64)
    }

    /// Whether the amount can be counted in steps of `step` inside what a
    /// decimal can hold.
    pub fn countable_in(&self, step: &Amount) -> (r: bool)
        ensures
            r == self@.countable_in(step@),
    {
        proof {
            use_type_invariant(self);
            use_type_invariant(step);
        }
        if step.mantissa <= 0 {
            return true;
        }
        if !self.is_moderate() {
            return false;
        }
        let magnitude = if self.mantissa < 0 {
            -self.mantissa
        } else {
            self.mantissa
        };
        // |self| * 10^step.scale <= step * 10^(self.scale + 28) is
        // |self| <= step * 10^shift, both sides divided by 10^step.scale.
        let shift = self.scale + MODERATE_DIGITS - step.scale;
        proof {
            lemma_pow10_add(shift as nat, step.scale as nat);
            lemma_pow10_positive(step.scale as nat);
            lemma_pow10_positive(shift as nat);
            lemma_cancel_factor(
                magnitude as int,
                step.mantissa as int * pow10(shift as nat),
                pow10(step.scale as nat),
            );
            assert(step.mantissa as int * pow10(shift as nat) * pow10(step.scale as nat)
                == step.mantissa as int * (pow10(shift as nat) * pow10(step.scale as nat)))
                by (nonlinear_arith);
        }
        if shift > MAX_SCALE {
            proof {
                lemma_pow10_monotone(29, shift as nat);
                lemma_pow10_29();
                lemma_at_least_factor(step.mantissa as int, pow10(shift as nat));
            }
            true
        } else {
            let unit = pow10_exec(shift);
            let whole = magnitude / unit;
            let rest = magnitude % unit;
            proof {
                lemma_at_most_product(magnitude as int, step.mantissa as int, unit as int);
            }
            whole < step.mantissa || (whole == step.mantissa && rest == 0)
        }
    }

    /// Whether the whole part of the amount has at most `digits` digits.
    pub fn whole_digits_at_most(&self, digits: u64) -> (r: bool)
        ensures
            r == self@.whole_digits_at_most(digits as nat),
    {
        proof {
            use_type_invariant(self);
        }
        if digits > MAX_SCALE as u64 || self.scale as u64 > MAX_SCALE as u64 - digits {
            proof {
                lemma_pow10_monotone(29, (digits + self.scale) as nat);
                lemma_pow10_29();
            }
            true
        } else {
            let bound = pow10_exec(digits as u32 + self.scale);
            -bound < self.mantissa && self.mantissa < bound
        }
    }

    /// The amount in decimal notation, with as many decimal places as its scale.
    pub fn text(&self) -> (s: String)
        ensures
            s@ == decimal_text(self@),
    {
        decimal_to_string(self)
    }
}

/// `a < b` is the negation of `b <= a`.
pub proof fn lemma_lt_is_not_ge(a: Dec, b: Dec)
    ensures
        a.lt(b) <==> !b.le(a),
{
}

/// An amount is at most zero exactly if its mantissa is.
pub proof fn lemma_le_zero(a: Dec)
    ensures
        a.le(Dec::zero()) <==> a.mantissa <= 0,
{
    assert(pow10(0) == 1);
    assert(a.mantissa * pow10(0) == a.mantissa);
    assert(0 * pow10(a.scale) == 0);
}

/// A larger exponent gives a larger power of ten.
pub proof fn lemma_pow10_monotone(a: nat, b: nat)
    requires
        a <= b,
    ensures
        pow10(a) <= pow10(b),
    decreases b,
{
    if a < b {
        lemma_pow10_monotone(a, (b - 1) as nat);
        lemma_pow10_positive((b - 1) as nat);
    }
}

/// Exponents add where powers of ten are multiplied.
pub proof fn lemma_pow10_add(a: nat, b: nat)
    ensures
        pow10(a + b) == pow10(a) * pow10(b),
    decreases b,
{
    if b == 0 {
        assert(pow10(a) * 1 == pow10(a));
    } else {
        lemma_pow10_add(a, (b - 1) as nat);
        assert(pow10(a + b) == 10 * pow10((a + b - 1) as nat));
        assert(10 * (pow10(a) * pow10((b - 1) as nat)) == pow10(a) * (10 * pow10((b - 1) as nat)))
            by (nonlinear_arith);
    }
}

/// A positive factor on both sides of `<=` can be dropped.
pub proof fn lemma_cancel_factor(a: int, b: int, factor: int)
    requires
        factor > 0,
    ensures
        a <= b <==> a * factor <= b * factor,
{
    assert(a <= b <==> a * factor <= b * factor) by (nonlinear_arith)
        requires
            factor > 0,
    ;
}

/// A positive whole number times a factor is at least the factor.
pub proof fn lemma_at_least_factor(n: int, factor: int)
    requires
        n >= 1,
        factor >= 0,
    ensures
        n * factor >= factor,
{
    assert(n * factor >= factor) by (nonlinear_arith)
        requires
            n >= 1,
            factor >= 0,
    ;
}

/// `a <= b * unit` read off the quotient and the remainder of `a` by `unit`.
pub proof fn lemma_at_most_product(a: int, b: int, unit: int)
    requires
        a >= 0,
        unit > 0,
    ensures
        a <= b * unit <==> a / unit < b || (a / unit == b && a % unit == 0),
{
    let q = a / unit;
    let r = a % unit;
    assert(a == q * unit + r && 0 <= r < unit) by (nonlinear_arith)
        requires
            q == a / unit,
            r == a % unit,
            unit > 0,
    ;
    assert(q < b ==> q * unit + r <= b * unit) by (nonlinear_arith)
        requires
            0 <= r < unit,
    ;
    assert(q > b ==> q * unit + r > b * unit) by (nonlinear_arith)
        requires
            0 <= r < unit,
    ;
    assert(q == b ==> q * unit == b * unit);
}

/// The value of `10^28`.
pub proof fn lemma_pow10_28()
    ensures
        pow10(28) == 10_000_000_000_000_000_000_000_000_000,
{
    reveal_with_fuel(pow10, 29);
}

/// The value of `10^29`, which no mantissa reaches.
pub proof fn lemma_pow10_29()
    ensures
        pow10(29) == 100_000_000_000_000_000_000_000_000_000,
        pow10(29) > MAX_MANTISSA,
{
    lemma_pow10_28();
    assert(pow10(29) == 10 * pow10(28));
}

/// Ten to the power `n`, for an `n` that a scale can reach.
fn pow10_exec(n: u32) -> (p: i128)
    requires
        n <= MAX_SCALE,
    ensures
        p == pow10(n as nat),
{
    let mut p: i128 = 1;
    let mut i: u32 = 0;
    while i < n
        invariant
            i <= n <= MAX_SCALE,
            p == pow10(i as nat),
        decreases n - i,
    {
        proof {
            lemma_pow10_positive(i as nat);
            lemma_pow10_monotone((i + 1) as nat, 28);
            lemma_pow10_28();
            assert(pow10((i + 1) as nat) == 10 * pow10(i as nat));
        }
        p = p * 10;
        i = i + 1;
    }
    p
}

/// What `rust_decimal` prints for the number `value`.
pub uninterp spec fn decimal_text(value: Dec) -> Seq<char>;

/// Calls `<=` of `rust_decimal::Decimal` on the two amounts.
///
/// That comparison orders decimals as numbers, whatever their scales, which
/// is what the contract says over mantissas brought to a common scale. Every
/// amount fits a decimal, so the conversions cannot fail.
#[verifier::external_body]
fn decimal_le(a: &Amount, b: &Amount) -> (r: bool)
    ensures
        r == a@.le(b@),
{
    let x = rust_decimal::Decimal::from_i128_with_scale(a.mantissa, a.scale);
    let y = rust_decimal::Decimal::from_i128_with_scale(b.mantissa, b.scale);
    x <= y
}

/// Calls `to_string` of `rust_decimal::Decimal`, which prints the number in
/// decimal notation. The contract only names the text. Every amount fits a
/// decimal, so the conversion cannot fail.
#[verifier::external_body]
fn decimal_to_string(a: &Amount) -> (s: String)
    ensures
        s@ == decimal_text(a@),
{
    rust_decimal::Decimal::from_i128_with_scale(a.mantissa, a.scale).to_string()
}

} // verus!
