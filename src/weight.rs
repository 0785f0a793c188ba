use vstd::prelude::*;
use vstd::arithmetic::div_mod::{lemma_div_is_ordered_by_denominator, lemma_div_pos_is_pos, lemma_fundamental_div_mod};
use core::cmp::Ordering;

verus! {

/// A unit of mass, each with a fixed gram-equivalent.
#[derive(Debug, Clone, Copy, PartialEq, Eq, Structural)]
pub enum WeightUnit {
    Grams,
    Kilograms,
    Ounces,
    Pounds,
}

/// Gram-equivalent of a unit, in hundred-thousandths of a gram
/// (an ounce is 28.34952 g, a pound 453.5924 g).
pub open spec fn grams_of(unit: WeightUnit) -> int {
    match unit {
        WeightUnit::Grams => 100_000,
        WeightUnit::Kilograms => 100_000_000,
        WeightUnit::Ounces => 2_834_952,
        WeightUnit::Pounds => 45_359_240,
    }
}

/// Short textual abbreviation of a unit.
pub open spec fn abbreviation_of(unit: WeightUnit) -> Seq<char> {
    match unit {
        WeightUnit::Grams => "gs"@,
        WeightUnit::Kilograms => "kgs"@,
        WeightUnit::Ounces => "ozs"@,
        WeightUnit::Pounds => "lbs"@,
    }
}

impl WeightUnit {
    /// The gram-equivalent of this unit, in hundred-thousandths of a gram.
    pub fn in_grams(&self) -> (r: u64)
        ensures
            r as int == grams_of(*self),
            r > 0,
    {
        match self {
            WeightUnit::Grams => 100_000,
            WeightUnit::Kilograms => 100_000_000,
            WeightUnit::Ounces => 2_834_952,
            WeightUnit::Pounds => 45_359_240,
        }
    }

    /// The short textual abbreviation of this unit ("gs", "kgs", "ozs", "lbs").
    pub fn abbreviation(&self) -> (r: String)
        ensures
            r@ == abbreviation_of(*self),
    {
        let s: &str = match self {
            WeightUnit::Grams => "gs",
            WeightUnit::Kilograms => "kgs",
            WeightUnit::Ounces => "ozs",
            WeightUnit::Pounds => "lbs",
        };
        s.to_string()
    }
}


/// Fixed-point steps in one unit: a weight's value carries eight decimal places.
pub const UNIT_STEPS: i64 = 100_000_000;

/// Two weights are equal when, in a common unit, they differ by less than
/// one hundredth of that unit (in fixed-point steps).
pub const EQUALITY_TOLERANCE: i128 = 1_000_000;

/// `n / d` rounded to the nearest integer, halves away from zero.
pub open spec fn round_div(n: int, d: int) -> int {
    if n >= 0 {
        (2 * n + d) / (2 * d)
    } else {
        -((-2 * n + d) / (2 * d))
    }
}

/// A value in `from` (fixed-point steps) expressed in `to`: unchanged when the
/// units agree, otherwise scaled by the ratio of gram-equivalents and rounded
/// to eight decimal places.
pub open spec fn converted(value: int, from: WeightUnit, to: WeightUnit) -> int {
    if from == to {
        value
    } else {
        round_div(value * grams_of(from), grams_of(to))
    }
}

/// Approximate equality of two fixed-point values: they differ by less than
/// a hundredth of a unit.
pub open spec fn approx_eq(a: int, b: int) -> bool {
    -EQUALITY_TOLERANCE < a - b < EQUALITY_TOLERANCE
}

/// Whether `x` is representable as an `i64`.
pub open spec fn fits_i64(x: int) -> bool {
    i64::MIN <= x <= i64::MAX
}

/// A measured quantity tagged with its unit. `value` counts hundred-millionths
/// of `unit` (so 0.35 lbs is `Weight { unit: Pounds, value: 35_000_000 }`).
#[derive(Debug, Clone, Copy)]
pub struct Weight {
    pub unit: WeightUnit,
    pub value: i64,
}

/// Rounds `n / d` to the nearest integer, halves away from zero.
fn round_div_exec(n: i128, d: i128) -> (r: i128)
    requires
        0 < d <= 1_000_000_000,
        -0x1_0000_0000_0000_0000_0000_0000 <= n <= 0x1_0000_0000_0000_0000_0000_0000,
    ensures
        r == round_div(n as int, d as int),
        -2 * (n as int) - d <= r <= 2 * (n as int) + d || 2 * (n as int) - d <= r <= -2 * (n as int) + d,
{
    if n >= 0 {
        proof {
            lemma_div_is_ordered_by_denominator(2 * n + d, 1, 2 * d);
            lemma_div_pos_is_pos(2 * n + d, 2 * d);
        }
        (2 * n + d) / (2 * d)
    } else {
        proof {
            lemma_div_is_ordered_by_denominator(-2 * n + d, 1, 2 * d);
            lemma_div_pos_is_pos(-2 * n + d, 2 * d);
        }
        -((-2 * n + d) / (2 * d))
    }
}

impl Weight {
    /// The weight in `unit`, as an exact mathematical value.
    pub open spec fn in_unit_spec(self, unit: WeightUnit) -> int {
        converted(self.value as int, self.unit, unit)
    }

    /// Equality of weights: in `self`'s unit the two differ by less than 0.01.
    pub open spec fn equals(self, other: Weight) -> bool {
        approx_eq(self.in_unit_spec(self.unit), other.in_unit_spec(self.unit))
    }

    /// This weight expressed in `unit`, as `convert_to` returns it.
    pub open spec fn convert_spec(self, unit: WeightUnit) -> Weight {
        Weight { unit, value: self.in_unit_spec(unit) as i64 }
    }

    /// A weight of `value` steps of `unit`.
    pub fn from(value: i64, unit: WeightUnit) -> (r: Weight)
        ensures
            r == (Weight { unit, value }),
    {
        Weight { unit, value }
    }

    /// A weight of `value` steps of a pound.
    pub fn from_pounds(value: i64) -> (r: Weight)
        ensures
            r == (Weight { unit: WeightUnit::Pounds, value }),
    {
        Weight { unit: WeightUnit::Pounds, value }
    }

    /// A weight of `value` steps of a kilogram.
    pub fn from_kilograms(value: i64) -> (r: Weight)
        ensures
            r == (Weight { unit: WeightUnit::Kilograms, value }),
    {
        Weight { unit: WeightUnit::Kilograms, value }
    }

    /// A weight of `value` steps of an ounce.
    pub fn from_ounces(value: i64) -> (r: Weight)
        ensures
            r == (Weight { unit: WeightUnit::Ounces, value }),
    {
        Weight { unit: WeightUnit::Ounces, value }
    }

    /// A weight of `value` steps of a gram.
    pub fn from_grams(value: i64) -> (r: Weight)
        ensures
            r == (Weight { unit: WeightUnit::Grams, value }),
    {
        Weight { unit: WeightUnit::Grams, value }
    }

    /// The value of this weight expressed in `unit`, in fixed-point steps.
    pub fn in_unit(&self, unit: WeightUnit) -> (r: i128)
        ensures
            r == self.in_unit_spec(unit),
            -0x1_0000_0000_0000_0000_0000_0000 <= r <= 0x1_0000_0000_0000_0000_0000_0000,
    {
        if self.unit == unit {
            self.value as i128
        } else {
            let g_from = self.unit.in_grams() as i128;
            let g_to = unit.in_grams() as i128;
            let v = self.value as i128;
            assert(-0x8000_0000_0000_0000 * 100_000_000 <= v * g_from <= 0x8000_0000_0000_0000 * 100_000_000) by (nonlinear_arith)
                requires
                    -0x8000_0000_0000_0000 <= v <= 0x8000_0000_0000_0000,
                    0 < g_from <= 100_000_000,
            ;
            round_div_exec(v * g_from, g_to)
        }
    }

    /// This weight expressed in `unit`.
    pub fn convert_to(&self, unit: WeightUnit) -> (r: Weight)
        requires
            fits_i64(self.in_unit_spec(unit)),
        ensures
            r == self.convert_spec(unit),
            r.unit == unit,
            r.value == self.in_unit_spec(unit),
    {
        if self.unit == unit {
            *self
        } else {
            let v = self.in_unit(unit);
            Weight { unit, value: v as i64 }
        }
    }
}


/// Whether `a` and `b` differ by less than a hundredth of a unit.
fn approx_equal(a: i128, b: i128) -> (r: bool)
    requires
        -0x1_0000_0000_0000_0000_0000_0000 <= a <= 0x1_0000_0000_0000_0000_0000_0000,
        -0x1_0000_0000_0000_0000_0000_0000 <= b <= 0x1_0000_0000_0000_0000_0000_0000,
    ensures
        r == approx_eq(a as int, b as int),
{
    let d = a - b;
    -EQUALITY_TOLERANCE < d && d < EQUALITY_TOLERANCE
}

/// The ordering of two integers.
pub open spec fn compare(a: int, b: int) -> Ordering {
    if a < b {
        Ordering::Less
    } else if a == b {
        Ordering::Equal
    } else {
        Ordering::Greater
    }
}

/// The amount, in `w`'s unit, of `w` plus `o`.
pub open spec fn sum_value(w: Weight, o: Weight) -> int {
    w.value + o.in_unit_spec(w.unit)
}

/// The amount, in `w`'s unit, of `w` minus `o`.
pub open spec fn difference_value(w: Weight, o: Weight) -> int {
    w.value - o.in_unit_spec(w.unit)
}

/// The amount of `w` scaled by `m`, a fixed-point factor with eight decimal places.
pub open spec fn product_value(w: Weight, m: i64) -> int {
    round_div(w.value * m, UNIT_STEPS as int)
}

impl PartialEq for Weight {
    /// Equal when, both taken into `self`'s unit, the values differ by less than 0.01.
    fn eq(&self, other: &Weight) -> (r: bool) {
        approx_equal(self.in_unit(self.unit), other.in_unit(self.unit))
    }
}

impl vstd::std_specs::cmp::PartialEqSpecImpl for Weight {
    open spec fn obeys_eq_spec() -> bool {
        true
    }

    open spec fn eq_spec(&self, other: &Weight) -> bool {
        self.equals(*other)
    }
}

impl PartialOrd for Weight {
    /// Compares the two values, both taken into `self`'s unit.
    fn partial_cmp(&self, other: &Weight) -> (r: Option<Ordering>) {
        let a = self.in_unit(self.unit);
        let b = other.in_unit(self.unit);
        if a < b {
            Some(Ordering::Less)
        } else if a == b {
            Some(Ordering::Equal)
        } else {
            Some(Ordering::Greater)
        }
    }
}

impl vstd::std_specs::cmp::PartialOrdSpecImpl for Weight {
    open spec fn obeys_partial_cmp_spec() -> bool {
        true
    }

    open spec fn partial_cmp_spec(&self, other: &Weight) -> Option<Ordering> {
        Some(compare(self.in_unit_spec(self.unit), other.in_unit_spec(self.unit)))
    }
}

impl core::ops::Add for Weight {
    type Output = Weight;

    /// The sum, expressed in `self`'s unit.
    fn add(self, other: Weight) -> (r: Weight) {
        let v = self.value as i128 + other.in_unit(self.unit);
        Weight { unit: self.unit, value: v as i64 }
    }
}

impl vstd::std_specs::ops::AddSpecImpl for Weight {
    open spec fn obeys_add_spec() -> bool {
        true
    }

    open spec fn add_req(self, other: Weight) -> bool {
        fits_i64(sum_value(self, other))
    }

    open spec fn add_spec(self, other: Weight) -> Weight {
        Weight { unit: self.unit, value: sum_value(self, other) as i64 }
    }
}

impl core::ops::Sub for Weight {
    type Output = Weight;

    /// The difference, expressed in `self`'s unit.
    fn sub(self, other: Weight) -> (r: Weight) {
        let v = self.value as i128 - other.in_unit(self.unit);
        Weight { unit: self.unit, value: v as i64 }
    }
}

impl vstd::std_specs::ops::SubSpecImpl for Weight {
    open spec fn obeys_sub_spec() -> bool {
        true
    }

    open spec fn sub_req(self, other: Weight) -> bool {
        fits_i64(difference_value(self, other))
    }

    open spec fn sub_spec(self, other: Weight) -> Weight {
        Weight { unit: self.unit, value: difference_value(self, other) as i64 }
    }
}

impl core::ops::Mul<i64> for Weight {
    type Output = Weight;

    /// The weight scaled by `multiplier` (eight decimal places, so 3.0 is
    /// `300_000_000`), rounded to the nearest step; the unit is unchanged.
    fn mul(self, multiplier: i64) -> (r: Weight) {
        assert(-0x8000_0000_0000_0000 * 0x8000_0000_0000_0000 <= self.value * multiplier <= 0x8000_0000_0000_0000 * 0x8000_0000_0000_0000) by (nonlinear_arith)
            requires
                -0x8000_0000_0000_0000 <= self.value <= 0x8000_0000_0000_0000,
                -0x8000_0000_0000_0000 <= multiplier <= 0x8000_0000_0000_0000,
        ;
        let v = round_div_exec(self.value as i128 * multiplier as i128, UNIT_STEPS as i128);
        Weight { unit: self.unit, value: v as i64 }
    }
}

impl vstd::std_specs::ops::MulSpecImpl<i64> for Weight {
    open spec fn obeys_mul_spec() -> bool {
        true
    }

    open spec fn mul_req(self, multiplier: i64) -> bool {
        fits_i64(product_value(self, multiplier))
    }

    open spec fn mul_spec(self, multiplier: i64) -> Weight {
        Weight { unit: self.unit, value: product_value(self, multiplier) as i64 }
    }
}


/// Rounding to the nearest integer is off by at most half a step.
proof fn lemma_round_div_close(n: int, d: int)
    requires
        d > 0,
    ensures
        -d <= 2 * (round_div(n, d) * d - n) <= d,
{
    if n >= 0 {
        let q = (2 * n + d) / (2 * d);
        lemma_fundamental_div_mod(2 * n + d, 2 * d);
        assert(-d <= 2 * (q * d - n) <= d) by (nonlinear_arith)
            requires
                2 * n + d == (2 * d) * q + (2 * n + d) % (2 * d),
                0 <= (2 * n + d) % (2 * d) < 2 * d,
        ;
    } else {
        let q = (-2 * n + d) / (2 * d);
        lemma_fundamental_div_mod(-2 * n + d, 2 * d);
        assert(-d <= 2 * ((-q) * d - n) <= d) by (nonlinear_arith)
            requires
                -2 * n + d == (2 * d) * q + (-2 * n + d) % (2 * d),
                0 <= (-2 * n + d) % (2 * d) < 2 * d,
        ;
    }
}

/// Converting a weight into another unit and back gives a weight equal to the
/// starting one: rounding to eight decimal places loses far less than the
/// hundredth of a unit that equality tolerates.
pub proof fn lemma_convert_round_trip(w: Weight, unit: WeightUnit)
    requires
        fits_i64(w.in_unit_spec(unit)),
        fits_i64(w.convert_spec(unit).in_unit_spec(w.unit)),
    ensures
        w.convert_spec(unit).convert_spec(w.unit).equals(w),
{
    let back = w.convert_spec(unit).convert_spec(w.unit);
    if w.unit != unit {
        let gu = grams_of(w.unit);
        let gv = grams_of(unit);
        let v = w.value as int;
        let a = round_div(v * gu, gv);
        let b = round_div(a * gv, gu);
        lemma_round_div_close(v * gu, gv);
        lemma_round_div_close(a * gv, gu);
        assert(back.value == b);
        assert(-EQUALITY_TOLERANCE < b - v < EQUALITY_TOLERANCE) by (nonlinear_arith)
            requires
                -gv <= 2 * (a * gv - v * gu) <= gv,
                -gu <= 2 * (b * gu - a * gv) <= gu,
                100_000 <= gu <= 100_000_000,
                100_000 <= gv <= 100_000_000,
        ;
    }
}


/// The decimal digit of `d < 10`.
pub open spec fn digit_char(d: nat) -> char {
    seq!['0', '1', '2', '3', '4', '5', '6', '7', '8', '9'][d as int]
}

/// The decimal digits of `n`, with no leading zeros.
pub open spec fn decimal_text(n: nat) -> Seq<char>
    decreases n,
{
    if n < 10 {
        seq![digit_char(n)]
    } else {
        decimal_text(n / 10).push(digit_char(n % 10))
    }
}

/// A weight's value rounded to hundredths of its unit.
pub open spec fn hundredths(w: Weight) -> int {
    round_div(w.value as int, 1_000_000)
}

/// `w` as text: its value with exactly two decimals, then the unit's
/// abbreviation (0.35 lbs is "0.35lbs").
pub open spec fn weight_text(w: Weight) -> Seq<char> {
    let h = hundredths(w);
    let m = if h < 0 { -h } else { h };
    let frac = m % 100;
    (if h < 0 { "-"@ } else { ""@ }) + decimal_text((m / 100) as nat) + "."@
        + (if frac < 10 { "0"@ } else { ""@ }) + decimal_text(frac as nat)
        + abbreviation_of(w.unit)
}

/// Relies on the standard `Display` of `u64` (through `to_string`): the
/// decimal digits of `n`, without sign or leading zeros.
#[verifier::external_body]
fn decimal_string(n: u64) -> (r: String)
    ensures
        r@ == decimal_text(n as nat),
{
    n.to_string()
}

impl WeightUnit {
    /// The unit as text: its abbreviation.
    pub fn to_string(&self) -> (r: String)
        ensures
            r@ == abbreviation_of(*self),
    {
        self.abbreviation()
    }
}

impl Weight {
    /// The weight as text, e.g. "0.35lbs": two decimals (rounded, halves away
    /// from zero) and the unit's abbreviation.
    pub fn to_string(&self) -> (r: String)
        ensures
            r@ == weight_text(*self),
    {
        let h = round_div_exec(self.value as i128, 1_000_000);
        let m: u64 = if h < 0 { (-h) as u64 } else { h as u64 };
        let frac = m % 100;
        let mut text = String::new();
        if h < 0 {
            text.append("-");
        }
        let whole = decimal_string(m / 100);
        text.append(whole.as_str());
        text.append(".");
        if frac < 10 {
            text.append("0");
        }
        let digits = decimal_string(frac);
        text.append(digits.as_str());
        let abbreviation = self.unit.abbreviation();
        text.append(abbreviation.as_str());
        proof {
            reveal_strlit("-");
            reveal_strlit("");
            reveal_strlit(".");
            reveal_strlit("0");
            let hs = hundredths(*self);
            assert(h == hs);
            assert(m == if hs < 0 { -hs } else { hs });
            assert(text@ =~= weight_text(*self));
        }
        text
    }
}

} // verus!
