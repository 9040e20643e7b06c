use vstd::prelude::*;

verus! {

/// Amounts are fixed-point decimals held as a count of minor units
/// (hundredths of the currency unit).
pub const AMOUNT_SCALE: u32 = 2;

/// Largest magnitude of a decimal mantissa (96 bits).
pub const DECIMAL_MANTISSA_MAX: i128 = 0xffff_ffff_ffff_ffff_ffff_ffff;

/// What `rust_decimal` prints for the decimal `mantissa * 10^-scale`.
pub uninterp spec fn decimal_text_of(mantissa: i128, scale: u32) -> Seq<char>;

/// Relies on `rust_decimal::Decimal::from_i128_with_scale` and its `Display`: the text
/// of the decimal `mantissa * 10^-scale`. The constructor panics when the scale exceeds
/// `Decimal::MAX_SCALE` (28) or the mantissa exceeds 96 bits.
#[verifier::external_body]
fn decimal_text(mantissa: i128, scale: u32) -> (r: String)
    requires
        scale <= 28,
        -DECIMAL_MANTISSA_MAX <= mantissa <= DECIMAL_MANTISSA_MAX,
    ensures
        r@ == decimal_text_of(mantissa, scale),
{
    rust_decimal::Decimal::from_i128_with_scale(mantissa, scale).to_string()
}

/// The text of an amount given in minor units, as a decimal with two places.
pub fn amount_text(minor: i128) -> (r: String)
    requires
        -DECIMAL_MANTISSA_MAX <= minor <= DECIMAL_MANTISSA_MAX,
    ensures
        r@ == decimal_text_of(minor, AMOUNT_SCALE),
{
    decimal_text(minor, AMOUNT_SCALE)
}

/// An exact non-negative ratio `numerator / denominator`; the denominator is positive.
#[derive(Debug, Clone, Copy, PartialEq, Eq, Structural)]
pub struct Ratio {
    pub numerator: i128,
    pub denominator: i128,
}

/// Bound on the totals that a ratio is formed from, so that comparisons by
/// cross-multiplication stay within `i128`.
pub const RATIO_TERM_MAX: i128 = 0x7fff_ffff_ffff_ffff_ffff_ffff;

/// Bound on the terms of a threshold ratio.
pub const THRESHOLD_TERM_MAX: i128 = 0xffff_ffff;

impl Ratio {
    /// Numerator and denominator are within the bounds of a ratio of totals.
    pub open spec fn wf(&self) -> bool {
        &&& 0 <= self.numerator <= RATIO_TERM_MAX
        &&& 0 < self.denominator <= RATIO_TERM_MAX
    }

    /// Numerator and denominator are within the bounds of a threshold.
    pub open spec fn is_threshold(&self) -> bool {
        &&& 0 <= self.numerator <= THRESHOLD_TERM_MAX
        &&& 0 < self.denominator <= THRESHOLD_TERM_MAX
    }

    /// `self < other` as rational numbers.
    pub open spec fn spec_lt(&self, other: Ratio) -> bool {
        self.numerator * other.denominator < other.numerator * self.denominator
    }

    /// The ratio `1`.
    pub fn one() -> (r: Ratio)
        ensures
            r == (Ratio { numerator: 1, denominator: 1 }),
            r.wf(),
            r.is_threshold(),
    {
        Ratio { numerator: 1, denominator: 1 }
    }

    /// A threshold `numerator / denominator`, for example `95 / 100`.
    pub fn threshold(numerator: u32, denominator: u32) -> (r: Option<Ratio>)
        ensures
            denominator == 0 <==> r is None,
            r matches Some(t) ==> t.numerator == numerator && t.denominator == denominator
                && t.is_threshold(),
    {
        if denominator == 0 {
            None
        } else {
            Some(Ratio { numerator: numerator as i128, denominator: denominator as i128 })
        }
    }

    /// Whether this ratio of totals lies below a threshold, compared exactly.
    pub fn is_below(&self, threshold: &Ratio) -> (r: bool)
        requires
            self.wf(),
            threshold.is_threshold(),
        ensures
            r == self.spec_lt(*threshold),
    {
        proof {
            lemma_products_fit(self.numerator as int, threshold.denominator as int);
            lemma_products_fit(self.denominator as int, threshold.numerator as int);
        }
        self.numerator * threshold.denominator < threshold.numerator * self.denominator
    }

    /// The ratio rounded down to `places` decimal places, as an integer count of
    /// `10^-places` (for example `0.9` at 4 places is `9000`).
    pub fn scaled_down(&self, places: u32) -> (r: i128)
        requires
            self.wf(),
            places <= 4,
        ensures
            r == (self.numerator * pow10(places as nat)) / (self.denominator as int),
    {
        let factor: i128 = if places == 0 {
            1
        } else if places == 1 {
            10
        } else if places == 2 {
            100
        } else if places == 3 {
            1000
        } else {
            10000
        };
        assert(factor == pow10(places as nat)) by {
            reveal_with_fuel(pow10, 5);
        }
        proof {
            lemma_products_fit(self.numerator as int, factor as int);
        }
        self.numerator * factor / self.denominator
    }
}

/// The text of a ratio of totals: rounded down to four decimal places, or to a
/// whole number when four places do not fit a decimal mantissa.
pub open spec fn ratio_text_of(r: Ratio) -> Seq<char> {
    let scaled = (r.numerator * 10000) / (r.denominator as int);
    if scaled <= DECIMAL_MANTISSA_MAX {
        decimal_text_of(scaled as i128, 4)
    } else {
        decimal_text_of((r.numerator / r.denominator) as i128, 0)
    }
}

impl Ratio {
    /// The text of this ratio (see `ratio_text_of`).
    pub fn text(&self) -> (r: String)
        requires
            self.wf(),
        ensures
            r@ == ratio_text_of(*self),
    {
        let scaled = self.scaled_down(4);
        proof {
            reveal_with_fuel(pow10, 5);
            assert(0 <= self.numerator * 10000);
            assert(0 <= (self.numerator * 10000) / (self.denominator as int)) by (nonlinear_arith)
                requires 0 <= self.numerator * 10000, self.denominator > 0;
        }
        if scaled <= DECIMAL_MANTISSA_MAX {
            decimal_text(scaled, 4)
        } else {
            proof {
                assert(self.numerator / self.denominator <= self.numerator) by (nonlinear_arith)
                    requires self.numerator >= 0, self.denominator > 0;
                assert(self.numerator / self.denominator >= 0) by (nonlinear_arith)
                    requires self.numerator >= 0, self.denominator > 0;
            }
            decimal_text(self.numerator / self.denominator, 0)
        }
    }
}

/// `10^n`.
pub open spec fn pow10(n: nat) -> int
    decreases n,
{
    if n == 0 {
        1
    } else {
        10 * pow10((n - 1) as nat)
    }
}

proof fn lemma_products_fit(a: int, b: int)
    requires
        0 <= a <= RATIO_TERM_MAX,
        0 <= b <= THRESHOLD_TERM_MAX,
    ensures
        0 <= a * b <= RATIO_TERM_MAX * THRESHOLD_TERM_MAX,
        a * b == b * a,
        RATIO_TERM_MAX * THRESHOLD_TERM_MAX < i128::MAX,
{
    assert(0 <= a * b <= RATIO_TERM_MAX * THRESHOLD_TERM_MAX) by (nonlinear_arith)
        requires
            0 <= a <= RATIO_TERM_MAX,
            0 <= b <= THRESHOLD_TERM_MAX,
    ;
}

} // verus!
