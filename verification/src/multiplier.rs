//! Exact multipliers and the truncating product they are applied with.
//!
//! Every factor of the card economy is a ratio of two integers. A product with
//! such a factor is cut toward zero at once, so that a chain of factors loses
//! a little at every link.

use vstd::prelude::*;

verus! {

/// A non-negative factor, the ratio `num / den`.
///
/// A zero denominator stands for a factor beyond every bound, as the inverse
/// of the factor zero is: a product with it runs to the end of the `i32`
/// range on the side of the value's sign. The ratio `0 / 0` has no value, and
/// every product with it is zero.
#[derive(Clone, Copy, Debug, PartialEq, Eq, Structural)]
pub struct Multiplier {
    pub num: u32,
    pub den: u32,
}

/// The quotient `a / d` cut toward zero, for a positive divisor.
pub open spec fn truncated_quotient(a: int, d: int) -> int
    recommends
        d > 0,
{
    if a >= 0 {
        a / d
    } else {
        -((-a) / d)
    }
}

/// The `i32` nearest to `v`.
pub open spec fn saturated(v: int) -> int {
    if v < i32::MIN {
        i32::MIN as int
    } else if v > i32::MAX {
        i32::MAX as int
    } else {
        v
    }
}

impl Multiplier {
    /// The product of `value` with this factor, cut toward zero and held in
    /// the `i32` range.
    pub open spec fn times(self, value: int) -> int {
        if self.den == 0 {
            if self.num == 0 || value == 0 {
                0
            } else if value > 0 {
                i32::MAX as int
            } else {
                i32::MIN as int
            }
        } else {
            saturated(truncated_quotient(value * self.num, self.den as int))
        }
    }

    /// The factor `den / num`.
    pub open spec fn spec_inverse(self) -> Multiplier {
        Multiplier { num: self.den, den: self.num }
    }

    /// The factor `num / den`.
    pub fn new(num: u32, den: u32) -> (m: Multiplier)
        ensures
            m == (Multiplier { num, den }),
    {
        Multiplier { num, den }
    }

    /// The factor `den / num`, by which a value is divided by this factor.
    #[verifier::when_used_as_spec(spec_inverse)]
    pub fn inverse(self) -> (m: Multiplier)
        ensures
            m == self.spec_inverse(),
    {
        Multiplier { num: self.den, den: self.num }
    }

    /// `times` for a value of the wider range that a sum of two `i32` needs.
    pub fn scale(self, value: i64) -> (product: i32)
        ensures
            product == self.times(value as int),
    {
        if self.den == 0 {
            if self.num == 0 || value == 0 {
                0
            } else if value > 0 {
                i32::MAX
            } else {
                i32::MIN
            }
        } else {
            let wide: i128 = value as i128;
            let num: i128 = self.num as i128;
            assert(-0x8000_0000_0000_0000_0000_0000 <= wide * num <= 0x8000_0000_0000_0000_0000_0000)
                by (nonlinear_arith)
                requires
                    -0x8000_0000_0000_0000 <= wide <= 0x8000_0000_0000_0000,
                    0 <= num <= 0x1_0000_0000,
            ;
            let quotient: i128 = (wide * num) / (self.den as i128);
            if quotient < i32::MIN as i128 {
                i32::MIN
            } else if quotient > i32::MAX as i128 {
                i32::MAX
            } else {
                quotient as i32
            }
        }
    }
}

/// A quotient cut toward zero lies between zero and the exact quotient:
/// multiplied back, it does not pass the dividend.
pub proof fn lemma_truncated_quotient(a: int, d: int)
    requires
        d > 0,
    ensures
        a >= 0 ==> 0 <= truncated_quotient(a, d) && truncated_quotient(a, d) * d <= a,
        a <= 0 ==> truncated_quotient(a, d) <= 0 && a <= truncated_quotient(a, d) * d,
{
    if a >= 0 {
        assert(0 <= a / d && (a / d) * d <= a) by (nonlinear_arith)
            requires
                a >= 0,
                d > 0,
        ;
    } else {
        let b = -a;
        assert(0 <= b / d && (b / d) * d <= b) by (nonlinear_arith)
            requires
                b >= 0,
                d > 0,
        ;
        assert((-(b / d)) * d == -((b / d) * d)) by (nonlinear_arith);
    }
}

/// Cutting toward zero keeps the order of the dividends.
pub proof fn lemma_truncated_quotient_monotonic(a: int, b: int, d: int)
    requires
        d > 0,
        a <= b,
    ensures
        truncated_quotient(a, d) <= truncated_quotient(b, d),
{
    if a >= 0 {
        assert(a / d <= b / d) by (nonlinear_arith)
            requires
                0 <= a <= b,
                d > 0,
        ;
    } else if b >= 0 {
        lemma_truncated_quotient(a, d);
        lemma_truncated_quotient(b, d);
    } else {
        let x = -b;
        let y = -a;
        assert(x / d <= y / d) by (nonlinear_arith)
            requires
                0 <= x <= y,
                d > 0,
        ;
    }
}

impl Multiplier {
    /// A product has the sign of the value, or is zero, and fits an `i32`.
    pub proof fn lemma_times_sign(self, value: int)
        ensures
            i32::MIN <= self.times(value) <= i32::MAX,
            value >= 0 ==> 0 <= self.times(value),
            value <= 0 ==> self.times(value) <= 0,
    {
        if self.den != 0 {
            let n = self.num as int;
            assert(value >= 0 ==> value * n >= 0) by (nonlinear_arith)
                requires
                    n >= 0,
            ;
            assert(value <= 0 ==> value * n <= 0) by (nonlinear_arith)
                requires
                    n >= 0,
            ;
            lemma_truncated_quotient(value * n, self.den as int);
        }
    }

    /// A greater value has no smaller product.
    pub proof fn lemma_times_monotonic(self, low: int, high: int)
        requires
            low <= high,
        ensures
            self.times(low) <= self.times(high),
    {
        if self.den != 0 {
            let n = self.num as int;
            assert(low * n <= high * n) by (nonlinear_arith)
                requires
                    low <= high,
                    n >= 0,
            ;
            lemma_truncated_quotient_monotonic(low * n, high * n, self.den as int);
        }
    }

    /// The factor one changes no value of the `i32` range.
    pub proof fn lemma_times_one(self, value: int)
        requires
            self.num == self.den,
            self.den != 0,
            i32::MIN <= value <= i32::MAX,
        ensures
            self.times(value) == value,
    {
        let n = self.num as int;
        if value >= 0 {
            assert((value * n) / n == value) by (nonlinear_arith)
                requires
                    n > 0,
            ;
        } else {
            assert((-(value * n)) / n == -value) by (nonlinear_arith)
                requires
                    n > 0,
            ;
            assert(value * n < 0) by (nonlinear_arith)
                requires
                    n > 0,
                    value < 0,
            ;
        }
    }

    /// Dividing by a factor and multiplying by it again, with a cut after
    /// each step, gives back a value between zero and the value started
    /// from: what the two cuts lose is never made up.
    pub proof fn lemma_there_and_back(self, value: int)
        ensures
            value >= 0 ==> 0 <= self.times(self.spec_inverse().times(value)) <= value,
            value <= 0 ==> value <= self.times(self.spec_inverse().times(value)) <= 0,
    {
        let there = self.spec_inverse().times(value);
        let back = self.times(there);
        self.spec_inverse().lemma_times_sign(value);
        self.lemma_times_sign(there);
        if self.num != 0 && self.den != 0 {
            let n = self.num as int;
            let d = self.den as int;
            lemma_truncated_quotient(value * d, n);
            let exact = truncated_quotient(value * d, n);
            lemma_truncated_quotient(there * n, d);
            if value >= 0 {
                assert(value * d >= 0) by (nonlinear_arith)
                    requires
                        value >= 0,
                        d > 0,
                ;
                assert(0 <= there <= exact);
                assert(there * n <= exact * n) by (nonlinear_arith)
                    requires
                        there <= exact,
                        n > 0,
                ;
                assert(0 <= there * n) by (nonlinear_arith)
                    requires
                        0 <= there,
                        n > 0,
                ;
                assert(truncated_quotient(there * n, d) <= value) by (nonlinear_arith)
                    requires
                        truncated_quotient(there * n, d) * d <= there * n,
                        there * n <= value * d,
                        d > 0,
                ;
            } else {
                assert(value * d <= 0) by (nonlinear_arith)
                    requires
                        value <= 0,
                        d > 0,
                ;
                assert(exact <= there <= 0);
                assert(exact * n <= there * n) by (nonlinear_arith)
                    requires
                        exact <= there,
                        n > 0,
                ;
                assert(there * n <= 0) by (nonlinear_arith)
                    requires
                        there <= 0,
                        n > 0,
                ;
                assert(value <= truncated_quotient(there * n, d)) by (nonlinear_arith)
                    requires
                        there * n <= truncated_quotient(there * n, d) * d,
                        value * d <= there * n,
                        d > 0,
                ;
            }
        } else if self.den != 0 {
            assert(there * (self.num as int) == 0) by (nonlinear_arith)
                requires
                    self.num == 0,
            ;
        } else if self.num != 0 {
            assert(value * (self.den as int) == 0) by (nonlinear_arith)
                requires
                    self.den == 0,
            ;
        }
    }
}

/// The product of `value` with `multiplier`, cut toward zero.
pub fn apply_multiplier(value: i32, multiplier: Multiplier) -> (product: i32)
    ensures
        product == multiplier.times(value as int),
{
    multiplier.scale(value as i64)
}

} // verus!
