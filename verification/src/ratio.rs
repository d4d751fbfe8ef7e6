//! Exact rational scalars.
//!
//! Every measurement value carries a [`Ratio`]: a quantity `num / den` with
//! `den > 0`, held in reduced form.  All conversion factors of this library
//! are exact decimal constants, so a conversion is an exact affine map
//! `v * (mn / md) + an / ad` on rationals, computed here without rounding.
//!
//! Specifications speak of a rational as the pair `(int, int)` obtained
//! through the view `@`; two pairs denote the same quantity when they are
//! cross-multiplication equal ([`ratio_eq`]).

use vstd::prelude::*;

verus! {

use vstd::arithmetic::div_mod::{
    lemma_add_mod_noop,
    lemma_fundamental_div_mod,
    lemma_mod_division_less_than_divisor,
    lemma_mod_self_0,
    lemma_mul_mod_noop_left,
    lemma_small_mod,
};

/// Largest magnitude of a numerator, and largest denominator, that a
/// conversion accepts for its input scalar (two to the sixty-third power,
/// so every `Ratio` built from `i64` parts is within it).
pub const RATIO_BOUND: i128 = 9223372036854775808;

/// Largest magnitude of the products `mn * ad`, `an * md` and `md * ad` of
/// an affine conversion table entry.  Together with [`RATIO_BOUND`] this
/// keeps every intermediate product of a conversion inside `i128`.
pub const FACTOR_BOUND: i128 = 2000000000000000000;

/// Two rational pairs denote the same quantity.
pub open spec fn ratio_eq(a: (int, int), b: (int, int)) -> bool {
    a.0 * b.1 == b.0 * a.1
}

/// A rational pair is well formed: positive denominator.
pub open spec fn ratio_wf(a: (int, int)) -> bool {
    0 < a.1
}

/// A rational pair small enough to be fed into a conversion.
pub open spec fn ratio_bounded(a: (int, int)) -> bool {
    &&& -RATIO_BOUND <= a.0 <= RATIO_BOUND
    &&& 0 < a.1 <= RATIO_BOUND
}

/// An affine conversion table entry `(mn, md, an, ad)`, denoting the map
/// `v * (mn / md) + an / ad`, applied to the rational pair `v`.
pub open spec fn affine_apply(v: (int, int), t: (int, int, int, int)) -> (int, int) {
    (v.0 * t.0 * t.3 + t.2 * (v.1 * t.1), v.1 * t.1 * t.3)
}

/// A table entry whose constants are small enough for [`Ratio::affine`].
pub open spec fn factor_ok(t: (int, int, int, int)) -> bool {
    &&& 0 < t.1
    &&& 0 < t.3
    &&& -FACTOR_BOUND <= t.0 * t.3 <= FACTOR_BOUND
    &&& -FACTOR_BOUND <= t.2 * t.1 <= FACTOR_BOUND
    &&& t.1 * t.3 <= FACTOR_BOUND
}

/// An exact rational number with a positive denominator, kept reduced.
#[derive(Clone, Copy, Debug)]
pub struct Ratio {
    num: i128,
    den: i128,
}

impl View for Ratio {
    type V = (int, int);

    closed spec fn view(&self) -> (int, int) {
        (self.num as int, self.den as int)
    }
}

/// The product of two values each bounded in magnitude is bounded by the
/// product of the bounds.
proof fn lemma_abs_mul_le(a: int, b: int, aa: int, bb: int)
    by (nonlinear_arith)
    requires
        -aa <= a <= aa,
        -bb <= b <= bb,
        0 <= aa,
        0 <= bb,
    ensures
        -(aa * bb) <= a * b <= aa * bb,
{
}

/// A common divisor of `a` and `b`, used to put rationals in reduced form.
/// Only divisibility and positivity are promised, which is all reduction
/// needs.
fn gcd_u128(a: u128, b: u128) -> (g: u128)
    requires
        0 < b,
    ensures
        0 < g <= b,
        a % g == 0,
        b % g == 0,
{
    let mut x: u128 = a;
    let mut y: u128 = b;
    while y != 0
        invariant
            y == 0 ==> 0 < x,
            forall|d: u128|
                1 <= d && #[trigger] (x % d) == 0 && #[trigger] (y % d) == 0 ==> a % d == 0 && b
                    % d == 0,
        decreases y,
    {
        let r: u128 = x % y;
        proof {
            lemma_mod_division_less_than_divisor(x as int, y as int);
            assert forall|d: u128|
                1 <= d && #[trigger] (y % d) == 0 && #[trigger] (r % d) == 0 implies x % d
                == 0 by {
                let q = (x as int) / (y as int);
                lemma_fundamental_div_mod(x as int, y as int);
                lemma_small_mod(0nat, d as nat);
                lemma_mul_mod_noop_left(y as int, q, d as int);
                lemma_add_mod_noop((y as int) * q, r as int, d as int);
                assert((y as int * q) % (d as int) == 0);
                assert(x as int == y as int * q + r as int);
            }
        }
        x = y;
        y = r;
    }
    proof {
        lemma_mod_self_0(x as int);
        lemma_small_mod(0nat, x as nat);
        assert(x % x == 0);
        assert(y % x == 0);
        if x > b {
            lemma_small_mod(b as nat, x as nat);
        }
    }
    x
}

/// Divide `num / den` by a common divisor of both parts, keeping the value.
fn reduce(num: i128, den: i128) -> (r: Ratio)
    requires
        0 < den,
        -170141183460469231731687303715884105727 <= num,
    ensures
        ratio_eq(r@, (num as int, den as int)),
        0 < r@.1 <= den,
        0 <= num ==> 0 <= r@.0 <= num,
        num < 0 ==> num <= r@.0 < 0,
{
    let neg: bool = num < 0;
    let un: u128 = if neg {
        (-num) as u128
    } else {
        num as u128
    };
    let ud: u128 = den as u128;
    let g: u128 = gcd_u128(un, ud);
    let rn: u128 = un / g;
    let rd: u128 = ud / g;
    proof {
        lemma_fundamental_div_mod(un as int, g as int);
        lemma_fundamental_div_mod(ud as int, g as int);
        assert(un as int == g as int * rn as int);
        assert(ud as int == g as int * rd as int);
        assert(rn as int <= un as int && (0 < un as int ==> 0 < rn as int)) by (nonlinear_arith)
            requires
                un as int == g as int * rn as int,
                1 <= g,
                0 <= rn,
        ;
        assert(0 < rd as int <= ud as int) by (nonlinear_arith)
            requires
                ud as int == g as int * rd as int,
                1 <= g,
                0 <= rd,
                0 < ud,
        ;
        assert(rn as int * den as int == un as int * rd as int) by (nonlinear_arith)
            requires
                un as int == g as int * rn as int,
                ud as int == g as int * rd as int,
                den as int == ud as int,
                1 <= g,
        ;
    }
    if neg {
        proof {
            assert((-(rn as int)) * (den as int) == (num as int) * (rd as int))
                by (nonlinear_arith)
                requires
                    rn as int * den as int == un as int * rd as int,
                    num as int == -(un as int),
            ;
        }
        Ratio { num: -(rn as i128), den: rd as i128 }
    } else {
        Ratio { num: rn as i128, den: rd as i128 }
    }
}

impl Ratio {
    #[verifier::type_invariant]
    spec fn inv(self) -> bool {
        0 < self.den
    }

    /// The exact rational `num / den`, sign-normalised and reduced.
    pub fn new(num: i64, den: i64) -> (r: Ratio)
        requires
            den != 0,
        ensures
            ratio_eq(r@, (num as int, den as int)),
            ratio_bounded(r@),
    {
        let (n, d): (i128, i128) = if den < 0 {
            (-(num as i128), -(den as i128))
        } else {
            (num as i128, den as i128)
        };
        let r = reduce(n, d);
        proof {
            assert(r@.0 * den as int == num as int * r@.1) by (nonlinear_arith)
                requires
                    r@.0 * d == n * r@.1,
                    (d == den as int && n == num as int) || (d == -(den as int) && n == -(
                    num as int)),
            ;
        }
        r
    }

    /// The rational `n / 1`.
    pub fn from_int(n: i64) -> (r: Ratio)
        ensures
            ratio_eq(r@, (n as int, 1)),
            ratio_bounded(r@),
    {
        Ratio::new(n, 1)
    }

    /// The stored numerator.
    pub fn numer(&self) -> (n: i128)
        ensures
            n == self@.0,
    {
        self.num
    }

    /// The stored denominator; always positive.
    pub fn denom(&self) -> (d: i128)
        ensures
            d == self@.1,
            0 < d,
    {
        proof {
            use_type_invariant(self);
        }
        self.den
    }

    /// Whether the value is exactly zero.
    pub fn is_zero(&self) -> (z: bool)
        ensures
            z == (self@.0 == 0),
    {
        self.num == 0
    }

    /// Whether the value is small enough to be fed into a conversion.
    pub fn is_bounded(&self) -> (b: bool)
        ensures
            b == ratio_bounded(self@),
    {
        proof {
            use_type_invariant(self);
        }
        -RATIO_BOUND <= self.num && self.num <= RATIO_BOUND && self.den <= RATIO_BOUND
    }

    /// The exact affine image `self * (mn / md) + an / ad`, reduced.
    pub(crate) fn affine(&self, mn: i64, md: i64, an: i64, ad: i64) -> (r: Ratio)
        requires
            ratio_bounded(self@),
            factor_ok((mn as int, md as int, an as int, ad as int)),
        ensures
            ratio_eq(r@, affine_apply(self@, (mn as int, md as int, an as int, ad as int))),
            ratio_wf(r@),
    {
        proof {
            use_type_invariant(self);
        }
        let mnw: i128 = mn as i128;
        let mdw: i128 = md as i128;
        let anw: i128 = an as i128;
        let adw: i128 = ad as i128;
        proof {
            let n = self.num as int;
            let d = self.den as int;
            assert(-FACTOR_BOUND <= mnw <= FACTOR_BOUND && 0 < mdw <= FACTOR_BOUND && -FACTOR_BOUND
                <= anw <= FACTOR_BOUND) by (nonlinear_arith)
                requires
                    0 < mdw,
                    0 < adw,
                    -FACTOR_BOUND <= mnw * adw <= FACTOR_BOUND,
                    -FACTOR_BOUND <= anw * mdw <= FACTOR_BOUND,
                    mdw * adw <= FACTOR_BOUND,
            ;
            lemma_abs_mul_le(n, mnw as int, RATIO_BOUND as int, FACTOR_BOUND as int);
            assert(-(RATIO_BOUND * FACTOR_BOUND) <= n * mnw * adw <= RATIO_BOUND * FACTOR_BOUND)
                by (nonlinear_arith)
                requires
                    -RATIO_BOUND <= n <= RATIO_BOUND,
                    -FACTOR_BOUND <= mnw * adw <= FACTOR_BOUND,
            ;
            lemma_abs_mul_le(d, mdw as int, RATIO_BOUND as int, FACTOR_BOUND as int);
            assert(-(RATIO_BOUND * FACTOR_BOUND) <= anw * (d * mdw) <= RATIO_BOUND * FACTOR_BOUND)
                by (nonlinear_arith)
                requires
                    0 < d <= RATIO_BOUND,
                    -FACTOR_BOUND <= anw * mdw <= FACTOR_BOUND,
            ;
            assert(0 < d * mdw * adw <= RATIO_BOUND * FACTOR_BOUND) by (nonlinear_arith)
                requires
                    0 < d <= RATIO_BOUND,
                    0 < mdw,
                    0 < adw,
                    mdw * adw <= FACTOR_BOUND,
            ;
        }
        let t1: i128 = self.num * mnw;
        let t2: i128 = t1 * adw;
        let t3: i128 = self.den * mdw;
        let t4: i128 = anw * t3;
        let nsum: i128 = t2 + t4;
        let dout: i128 = t3 * adw;
        reduce(nsum, dout)
    }
}

/// Identity law of the affine tables: an entry with equal scale parts and a
/// zero offset maps every rational to an equal one.
pub proof fn lemma_affine_identity(v: (int, int), t: (int, int, int, int))
    requires
        t.0 == t.1,
        t.2 == 0,
    ensures
        ratio_eq(affine_apply(v, t), v),
{
    let o = affine_apply(v, t);
    assert(o.0 * v.1 == v.0 * o.1) by (nonlinear_arith)
        requires
            o.0 == v.0 * t.0 * t.3 + t.2 * (v.1 * t.1),
            o.1 == v.1 * t.1 * t.3,
            t.0 == t.1,
            t.2 == 0,
    ;
}

/// Zero law of the affine tables: an entry with a zero offset maps a zero
/// quantity to a zero quantity.
pub proof fn lemma_affine_zero(v: (int, int), t: (int, int, int, int))
    requires
        v.0 == 0,
        t.2 == 0,
    ensures
        ratio_eq(affine_apply(v, t), (0, 1)),
{
    let o = affine_apply(v, t);
    assert(o.0 * 1 == 0 * o.1) by (nonlinear_arith)
        requires
            o.0 == v.0 * t.0 * t.3 + t.2 * (v.1 * t.1),
            v.0 == 0,
            t.2 == 0,
    ;
}

} // verus!
