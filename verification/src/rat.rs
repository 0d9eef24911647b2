//! Exact rational numbers.
//!
//! View angles and zoom factors are real-valued quantities; the projection
//! model stores them as exact fractions so that composing view changes is
//! exact addition, with no drift from rounding.

use vstd::prelude::*;

verus! {

/// An exact rational number `num / den`, well formed when `den` is positive.
#[derive(Clone, Copy, Debug)]
pub struct Rat {
    pub num: i64,
    pub den: i64,
}

/// `c` denotes the same real number as `n / d` (by cross multiplication).
pub open spec fn denotes(c: Rat, n: int, d: int) -> bool {
    c.num * d == n * c.den
}

/// The absolute value.
pub open spec fn abs_of(x: int) -> int {
    if x < 0 {
        -x
    } else {
        x
    }
}

/// `c == a + b` as real numbers: `c == (a.num * b.den + b.num * a.den) / (a.den * b.den)`.
pub open spec fn is_sum(c: Rat, a: Rat, b: Rat) -> bool {
    denotes(c, a.num * b.den + b.num * a.den, a.den * b.den)
}

/// `c == a + n / d` as real numbers, for an integer fraction `n / d`.
pub open spec fn is_sum_frac(c: Rat, a: Rat, n: int, d: int) -> bool {
    c.num * (a.den * d) == (a.num * d + n * a.den) * c.den
}

/// The unreduced sum of `a` and `b` already fits `i64` fields, so
/// [`Rat::checked_add`] is guaranteed to succeed.
pub open spec fn sum_fits(a: Rat, b: Rat) -> bool {
    &&& -i64::MAX <= a.num * b.den + b.num * a.den <= i64::MAX
    &&& a.den * b.den <= i64::MAX
}

/// Summing and then dividing out: if `b == n / d` and `c == a + b`, then
/// `c == a + n / d`.
#[verifier::rlimit(50)]
pub proof fn lemma_sum_frac(c: Rat, a: Rat, b: Rat, n: int, d: int)
    requires
        a.wf(),
        b.wf(),
        c.wf(),
        d > 0,
        is_sum(c, a, b),
        denotes(b, n, d),
    ensures
        is_sum_frac(c, a, n, d),
{
    // From is_sum: c.num * (a.den * b.den) == (a.num * b.den + b.num * a.den) * c.den.
    // Multiply by d, replace b.num * d by n * b.den; every term then has a
    // factor b.den, which is positive and cancels.
    assert(c.num * (a.den * b.den) * d == (a.num * b.den + b.num * a.den) * c.den * d)
        by (nonlinear_arith)
        requires
            c.num * (a.den * b.den) == (a.num * b.den + b.num * a.den) * c.den,
    ;
    assert(b.den * (c.num * (a.den * d)) == c.num * (a.den * b.den) * d) by (nonlinear_arith);
    assert((a.num * b.den + b.num * a.den) * c.den * d == a.num * b.den * c.den * d + (b.num * d)
        * (a.den * c.den)) by (nonlinear_arith);
    assert((b.num * d) * (a.den * c.den) == (n * b.den) * (a.den * c.den)) by (nonlinear_arith)
        requires
            b.num * d == n * b.den,
    ;
    let x = a.num * d * c.den;
    let y = n * (a.den * c.den);
    assert((a.num * d + n * a.den) * c.den == x + y) by (nonlinear_arith)
        requires
            x == a.num * d * c.den,
            y == n * (a.den * c.den),
    ;
    assert(b.den * (x + y) == b.den * x + b.den * y) by (nonlinear_arith);
    assert(b.den * x == a.num * b.den * c.den * d) by (nonlinear_arith)
        requires
            x == a.num * d * c.den,
    ;
    assert(b.den * y == (n * b.den) * (a.den * c.den)) by (nonlinear_arith)
        requires
            y == n * (a.den * c.den),
    ;
    assert(c.num * (a.den * d) == (a.num * d + n * a.den) * c.den) by (nonlinear_arith)
        requires
            b.den > 0,
            b.den * (c.num * (a.den * d)) == b.den * ((a.num * d + n * a.den) * c.den),
    ;
}

impl Rat {
    /// A rational is well formed when its denominator is positive.
    pub open spec fn wf(self) -> bool {
        self.den > 0
    }

    /// `self` and `other` denote the same real number.
    pub open spec fn same(self, other: Rat) -> bool {
        self.num * other.den == other.num * self.den
    }

    pub fn new(num: i64, den: i64) -> (r: Rat)
        requires
            0 < den,
        ensures
            r.wf(),
            r.num == num,
            r.den == den,
    {
        Rat { num, den }
    }

    /// The rational denoting the integer `k`.
    pub fn from_int(k: i64) -> (r: Rat)
        ensures
            r.wf(),
            r.num == k,
            r.den == 1,
    {
        Rat { num: k, den: 1 }
    }

    /// `-self`.
    pub fn neg(self) -> (r: Rat)
        requires
            self.wf(),
            self.num > i64::MIN,
        ensures
            r.wf(),
            r.num == -self.num,
            r.den == self.den,
    {
        Rat { num: -self.num, den: self.den }
    }

    /// `self + other`, reduced to lowest terms where possible; `None` only
    /// when even the reduced result does not fit in `i64` fields.
    pub fn checked_add(self, other: Rat) -> (r: Option<Rat>)
        requires
            self.wf(),
            other.wf(),
        ensures
            r matches Some(v) ==> v.wf() && is_sum(v, self, other),
            sum_fits(self, other) ==> r is Some,
    {
        proof {
            lemma_i64_prod_bounds(self.num as int, other.den as int);
            lemma_i64_prod_bounds(other.num as int, self.den as int);
            lemma_i64_prod_bounds(self.den as int, other.den as int);
        }
        let n: i128 = (self.num as i128) * (other.den as i128)
            + (other.num as i128) * (self.den as i128);
        let d: i128 = (self.den as i128) * (other.den as i128);
        proof {
            assert(d > 0) by (nonlinear_arith)
                requires
                    self.den > 0,
                    other.den > 0,
                    d == self.den * other.den,
            ;
        }
        make_rat(n, d)
    }

    /// `self / k` for a positive integer `k`; `None` only when even the
    /// reduced result does not fit in `i64` fields.
    pub fn checked_div_int(self, k: i64) -> (r: Option<Rat>)
        requires
            self.wf(),
            0 < k,
        ensures
            r matches Some(v) ==> v.wf() && denotes(v, self.num as int, self.den * k)
                && v.den <= self.den * k && abs_of(v.num as int) <= abs_of(self.num as int),
            (self.den * k <= i64::MAX && self.num > i64::MIN) ==> r is Some,
    {
        proof {
            lemma_i64_prod_bounds(self.den as int, k as int);
        }
        let d: i128 = (self.den as i128) * (k as i128);
        proof {
            assert(d > 0) by (nonlinear_arith)
                requires
                    self.den > 0,
                    k > 0,
                    d == self.den * k,
            ;
        }
        make_rat(self.num as i128, d)
    }

    /// Exact comparison of the denoted real numbers.
    pub fn same_value(&self, other: &Rat) -> (r: bool)
        ensures
            r == self.same(*other),
    {
        proof {
            lemma_i64_prod_fits(self.num as int, other.den as int);
            lemma_i64_prod_fits(other.num as int, self.den as int);
        }
        let lhs: i128 = (self.num as i128) * (other.den as i128);
        let rhs: i128 = (other.num as i128) * (self.den as i128);
        lhs == rhs
    }
}

/// Rounding a rational to the nearest integer, halves rounding up:
/// `round(num / den) == floor((2 * num + den) / (2 * den))`.
pub open spec fn round_spec(c: Rat) -> int
    recommends
        c.wf(),
{
    (2 * c.num + c.den) / (2 * c.den)
}

/// A rational that denotes an integer rounds to that integer: rounding to
/// the device-pixel grid is the identity on points already on the grid.
pub proof fn lemma_round_integral(c: Rat, k: int)
    requires
        c.wf(),
        c.num == k * c.den,
    ensures
        round_spec(c) == k,
{
    assert((2 * c.num + c.den) == (2 * k) * c.den + c.den) by (nonlinear_arith)
        requires
            c.num == k * c.den,
    ;
    assert((2 * k * c.den + c.den) / (2 * c.den) == k) by (nonlinear_arith)
        requires
            c.den > 0,
    ;
}

/// The product of an `i64` value and a positive `i64` value stays strictly
/// inside half the `i128` range, so sums of two such products fit.
proof fn lemma_i64_prod_bounds(a: int, b: int)
    requires
        i64::MIN <= a <= i64::MAX,
        0 < b <= i64::MAX,
    ensures
        -0x3fff_ffff_ffff_ffff_8000_0000_0000_0000 <= a * b
            <= 0x3fff_ffff_ffff_ffff_8000_0000_0000_0000,
{
    assert(-0x3fff_ffff_ffff_ffff_8000_0000_0000_0000 <= a * b
        <= 0x3fff_ffff_ffff_ffff_8000_0000_0000_0000) by (nonlinear_arith)
        requires
            i64::MIN <= a <= i64::MAX,
            0 < b <= i64::MAX,
    ;
}

/// The product of any two `i64` values fits in `i128`.
proof fn lemma_i64_prod_fits(a: int, b: int)
    requires
        i64::MIN <= a <= i64::MAX,
        i64::MIN <= b <= i64::MAX,
    ensures
        i128::MIN <= a * b <= i128::MAX,
{
    assert(i128::MIN <= a * b <= i128::MAX) by (nonlinear_arith)
        requires
            i64::MIN <= a <= i64::MAX,
            i64::MIN <= b <= i64::MAX,
    ;
}

/// Greatest common divisor candidate by Euclid's algorithm. Callers verify
/// divisibility of the result at run time, so no ensures is needed here.
fn gcd_u128(a: u128, b: u128) -> u128 {
    let mut x: u128 = a;
    let mut y: u128 = b;
    while y != 0
        decreases y,
    {
        let t: u128 = x % y;
        x = y;
        y = t;
    }
    x
}

/// Builds the rational `n / d` with `d > 0`, reduced to lowest terms where
/// the reduction is confirmed at run time; `None` when the (possibly
/// reduced) pair does not fit in `i64` fields.
fn make_rat(n: i128, d: i128) -> (r: Option<Rat>)
    requires
        0 < d,
        -0x8000_0000_0000_0000_0000_0000_0000_0000 < n,
    ensures
        r matches Some(v) ==> v.wf() && denotes(v, n as int, d as int) && v.den <= d && abs_of(
            v.num as int,
        ) <= abs_of(n as int),
        (-i64::MAX <= n <= i64::MAX && d <= i64::MAX) ==> r is Some,
{
    let neg: bool = n < 0;
    let na: u128 = if neg {
        (-n) as u128
    } else {
        n as u128
    };
    let da: u128 = d as u128;
    let g: u128 = gcd_u128(na, da);
    let (rna, rda): (u128, u128) = if g > 0 && na % g == 0 && da % g == 0 {
        (na / g, da / g)
    } else {
        (na, da)
    };
    proof {
        lemma_reduced_pair(na as int, da as int, g as int, rna as int, rda as int);
    }
    if rna <= i64::MAX as u128 && rda <= i64::MAX as u128 && rda >= 1 {
        let num: i64 = if neg {
            -(rna as i64)
        } else {
            rna as i64
        };
        let den: i64 = rda as i64;
        proof {
            lemma_cross(n as int, d as int, na as int, da as int, rna as int, rda as int, neg);
        }
        Some(Rat { num, den })
    } else {
        None
    }
}

/// After a runtime-confirmed reduction by `g`, the reduced pair denotes the
/// same ratio and is no larger than the original pair.
proof fn lemma_reduced_pair(na: int, da: int, g: int, rna: int, rda: int)
    requires
        0 <= na,
        0 < da,
        0 <= g,
        (g > 0 && na % g == 0 && da % g == 0) ==> (rna == na / g && rda == da / g),
        !(g > 0 && na % g == 0 && da % g == 0) ==> (rna == na && rda == da),
    ensures
        0 <= rna <= na,
        0 < rda <= da,
        rna * da == na * rda,
{
    if g > 0 && na % g == 0 && da % g == 0 {
        assert(na == g * (na / g) + na % g) by {
            vstd::arithmetic::div_mod::lemma_fundamental_div_mod(na, g);
        }
        assert(da == g * (da / g) + da % g) by {
            vstd::arithmetic::div_mod::lemma_fundamental_div_mod(da, g);
        }
        assert(na == g * rna);
        assert(da == g * rda);
        assert(rna * da == na * rda) by (nonlinear_arith)
            requires
                na == g * rna,
                da == g * rda,
        ;
        assert(0 < rda && rda <= da && 0 <= rna && rna <= na) by (nonlinear_arith)
            requires
                na == g * rna,
                da == g * rda,
                g > 0,
                0 <= na,
                0 < da,
        ;
    }
}

/// Signed cross-multiplication fact carrying the reduction back to `n / d`.
proof fn lemma_cross(n: int, d: int, na: int, da: int, rna: int, rda: int, neg: bool)
    requires
        0 < d,
        da == d,
        neg ==> na == -n,
        !neg ==> na == n,
        rna * da == na * rda,
        0 < rda,
    ensures
        (if neg { -rna } else { rna }) * d == n * rda,
{
    if neg {
        assert((-rna) * d == n * rda) by (nonlinear_arith)
            requires
                rna * da == na * rda,
                da == d,
                na == -n,
        ;
    }
}

} // verus!
