//! Exact fractions, and the real numbers they denote.

use vstd::prelude::*;

verus! {

/// An exact fraction `num / den`.
///
/// Two fractions are `==` when numerator and denominator agree; fractions that
/// denote the same number with different denominators are told apart.
#[derive(Clone, Copy, Debug, PartialEq, Eq, Structural)]
pub struct Ratio {
    pub num: i128,
    pub den: i128,
}

/// The quotient `num / den` as a real number.
pub open spec fn quotient(num: int, den: int) -> real {
    num as real / den as real
}

impl Ratio {
    /// The denominator is positive.
    pub open spec fn wf(self) -> bool {
        self.den > 0
    }

    /// The real number that the fraction denotes.
    pub open spec fn value(self) -> real {
        quotient(self.num as int, self.den as int)
    }
}

/// A quotient times its denominator is its numerator.
pub proof fn lemma_quotient_times_den(num: int, den: int)
    requires
        den != 0,
    ensures
        quotient(num, den) * (den as real) == num as real,
{
    let n = num as real;
    let d = den as real;
    assert((n / d) * d == n) by (nonlinear_arith)
        requires
            d != 0real,
    ;
}

/// Over a positive denominator, a quotient has the sign of its numerator.
pub proof fn lemma_quotient_sign(num: int, den: int)
    requires
        den > 0,
    ensures
        num >= 0 <==> quotient(num, den) >= 0real,
        num == 0 <==> quotient(num, den) == 0real,
{
    let n = num as real;
    let d = den as real;
    assert((n >= 0real <==> n / d >= 0real) && (n == 0real <==> n / d == 0real))
        by (nonlinear_arith)
        requires
            d > 0real,
    ;
}

/// Quotients over one positive denominator are ordered as their numerators are.
pub proof fn lemma_quotient_order(a: int, b: int, den: int)
    requires
        den > 0,
    ensures
        a <= b <==> quotient(a, den) <= quotient(b, den),
        a < b <==> quotient(a, den) < quotient(b, den),
        a == b <==> quotient(a, den) == quotient(b, den),
{
    let d = den as real;
    let x = a as real;
    let y = b as real;
    assert(d > 0real);
    assert((x <= y <==> x / d <= y / d) && (x < y <==> x / d < y / d)) by (nonlinear_arith)
        requires
            d > 0real,
    ;
}

/// The real number of a product of integers is the product of their real numbers.
pub proof fn lemma_real_of_product(a: int, b: int)
    ensures
        (a * b) as real == (a as real) * (b as real),
    decreases (if a >= 0 { a } else { -a }),
{
    if a == 0 {
        assert(a * b == 0) by (nonlinear_arith)
            requires
                a == 0,
        ;
        assert((a as real) * (b as real) == 0real) by (nonlinear_arith)
            requires
                a as real == 0real,
        ;
    } else if a > 0 {
        lemma_real_of_product(a - 1, b);
        assert(a * b == (a - 1) * b + b) by (nonlinear_arith);
        assert((a as real) * (b as real) == ((a - 1) as real) * (b as real) + (b as real))
            by (nonlinear_arith)
            requires
                a as real == (a - 1) as real + 1real,
        ;
    } else {
        lemma_real_of_product(a + 1, b);
        assert(a * b == (a + 1) * b - b) by (nonlinear_arith);
        assert((a as real) * (b as real) == ((a + 1) as real) * (b as real) - (b as real))
            by (nonlinear_arith)
            requires
                a as real == (a + 1) as real - 1real,
        ;
    }
}

/// A quotient lies between two whole numbers as its numerator lies between
/// their multiples of the denominator.
pub proof fn lemma_quotient_bounds(num: int, den: int, low: int, high: int)
    requires
        den > 0,
        low * den <= num <= high * den,
    ensures
        low as real <= quotient(num, den) <= high as real,
{
    let d = den as real;
    let n = num as real;
    let l = low as real;
    let h = high as real;
    lemma_real_of_product(low, den);
    lemma_real_of_product(high, den);
    assert(l <= n / d <= h) by (nonlinear_arith)
        requires
            d > 0real,
            l * d <= n <= h * d,
    ;
}

/// Splitting the unit interval into `n` equal parts: every point of it lies in
/// one of the parts.
pub proof fn lemma_unit_interval_part(x: real, n: int) -> (k: int)
    requires
        0real <= x <= 1real,
        n > 0,
    ensures
        0 <= k < n,
        quotient(k, n) <= x <= quotient(k + 1, n),
{
    let d = n as real;
    let scaled = x * d;
    let f = scaled.floor();
    assert(0real <= scaled <= d) by (nonlinear_arith)
        requires
            0real <= x <= 1real,
            d > 0real,
            scaled == x * d,
    ;
    assert(f as real <= scaled < f as real + 1real);
    let k = if f >= n { n - 1 } else { f };
    assert(0 <= k < n);
    let kr = k as real;
    assert(kr <= scaled <= kr + 1real);
    assert(kr / d <= x <= (kr + 1real) / d) by (nonlinear_arith)
        requires
            d > 0real,
            scaled == x * d,
            kr <= scaled <= kr + 1real,
    ;
    assert((k + 1) as real == kr + 1real);
    k
}

/// The quotient of two products is the product of the quotients.
pub proof fn lemma_quotient_of_products(a: int, b: int, c: int, d: int)
    requires
        b != 0,
        d != 0,
    ensures
        b * d != 0,
        quotient(a * c, b * d) == quotient(a, b) * quotient(c, d),
{
    lemma_real_of_product(a, c);
    lemma_real_of_product(b, d);
    assert(b * d != 0) by (nonlinear_arith)
        requires
            b != 0,
            d != 0,
    ;
    let ar = a as real;
    let br = b as real;
    let cr = c as real;
    let dr = d as real;
    assert((ar * cr) / (br * dr) == (ar / br) * (cr / dr)) by (nonlinear_arith)
        requires
            br != 0real,
            dr != 0real,
    ;
}

} // verus!
