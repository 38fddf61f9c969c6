//! Exact fractions of machine-sized integers, kept in lowest terms.
//!
//! The reduction itself is done by the `num-rational` crate. This module holds the result
//! as a pair of integers and states what that crate promises about it.

use vstd::prelude::*;

verus! {

/// `d` divides `n`.
pub open spec fn divides(d: int, n: int) -> bool {
    n % d == 0
}

/// `numer / denom` has a positive denominator and no common factor left to cancel.
pub open spec fn lowest_terms(numer: int, denom: int) -> bool {
    &&& denom > 0
    &&& forall|k: int| k > 1 && #[trigger] divides(k, numer) ==> !divides(k, denom)
}

/// Whether `numer / denom` can be reduced without leaving the range of `isize`.
pub open spec fn reducible(numer: int, denom: int) -> bool {
    &&& denom != 0
    &&& denom > 0 || (numer > isize::MIN && denom > isize::MIN)
}

/// Calls `num_rational::Ratio::new` and hands back the numerator and denominator it
/// settled on.
///
/// Trusted: that crate puts the fraction into lowest terms with a positive denominator
/// without changing its value. It panics on a zero denominator, and negating `isize::MIN`
/// while making the denominator positive overflows; both are excluded here.
#[verifier::external_body]
fn reduce(numer: isize, denom: isize) -> (parts: (isize, isize))
    requires
        reducible(numer as int, denom as int),
    ensures
        lowest_terms(parts.0 as int, parts.1 as int),
        parts.0 * denom == numer * parts.1,
{
    let ratio = num_rational::Ratio::new(numer, denom);
    (*ratio.numer(), *ratio.denom())
}

/// Calls `num_rational::Ratio::from_integer` and hands back the numerator and denominator
/// of the result.
///
/// Trusted: that crate represents an integer `t` as `t / 1`.
#[verifier::external_body]
fn whole(t: isize) -> (parts: (isize, isize))
    ensures
        parts.0 == t,
        parts.1 == 1,
{
    let ratio = num_rational::Ratio::from_integer(t);
    (*ratio.numer(), *ratio.denom())
}

/// Whatever `k` divides is `k` times its quotient by `k`.
proof fn lemma_divides_is_multiple(k: int, n: int)
    requires
        k > 0,
        divides(k, n),
    ensures
        n == k * (n / k),
{
    vstd::arithmetic::div_mod::lemma_fundamental_div_mod(n, k);
}

/// Every multiple of `k` is divisible by `k`.
proof fn lemma_multiple_is_divisible(k: int, t: int)
    requires
        k > 0,
    ensures
        divides(k, k * t),
{
    vstd::arithmetic::div_mod::lemma_mod_multiples_basic(t, k);
    assert(t * k == k * t) by (nonlinear_arith);
}

/// Euclid's algorithm, run as a proof: a common divisor `g` of `a` and `b` together with
/// `x` and `y` such that `x * a + y * b == g`. The result is `(x, y, g)`.
proof fn lemma_bezout(a: int, b: int) -> (w: (int, int, int))
    requires
        b >= 0,
        b == 0 ==> a > 0,
    ensures
        w.2 > 0,
        divides(w.2, a),
        divides(w.2, b),
        w.0 * a + w.1 * b == w.2,
    decreases b,
{
    if b == 0 {
        vstd::arithmetic::div_mod::lemma_mod_self_0(a);
        (1, 0, a)
    } else {
        let q = a / b;
        let m = a % b;
        vstd::arithmetic::div_mod::lemma_fundamental_div_mod(a, b);
        vstd::arithmetic::div_mod::lemma_mod_bound(a, b);
        let (x, y, g) = lemma_bezout(b, m);
        lemma_divides_is_multiple(g, b);
        lemma_divides_is_multiple(g, m);
        let t = (b / g) * q + m / g;
        assert(a == g * t) by (nonlinear_arith)
            requires
                a == b * q + m,
                b == g * (b / g),
                m == g * (m / g),
                t == (b / g) * q + m / g,
        ;
        lemma_multiple_is_divisible(g, t);
        assert(y * a + (x - y * q) * b == g) by (nonlinear_arith)
            requires
                a == b * q + m,
                x * b + y * m == g,
        ;
        (y, x - y * q, g)
    }
}

/// A fraction `p / q` whose parts share no factor is the only one in lowest terms with
/// its value.
///
/// `x` and `y` witness that `p` and `q` share no factor: `x * p + y * q == 1`.
pub proof fn lemma_lowest_terms_unique(numer: int, denom: int, p: int, q: int, x: int, y: int)
    requires
        lowest_terms(numer, denom),
        numer * q == p * denom,
        q > 0,
        x * p + y * q == 1,
    ensures
        numer == p,
        denom == q,
{
    let k = x * numer + y * denom;
    assert(p * k == numer && q * k == denom) by (nonlinear_arith)
        requires
            k == x * numer + y * denom,
            numer * q == p * denom,
            x * p + y * q == 1,
    ;
    assert(k > 0) by (nonlinear_arith)
        requires
            q * k == denom,
            denom > 0,
            q > 0,
    ;
    if k > 1 {
        assert(k * p == numer && k * q == denom) by (nonlinear_arith)
            requires
                p * k == numer,
                q * k == denom,
        ;
        lemma_multiple_is_divisible(k, p);
        lemma_multiple_is_divisible(k, q);
    }
    assert(p * 1 == p && q * 1 == q);
}

/// Two fractions in lowest terms that denote the same number have the same numerator and
/// the same denominator.
pub proof fn lemma_lowest_terms_equal(a: int, b: int, c: int, d: int)
    requires
        lowest_terms(a, b),
        lowest_terms(c, d),
        a * d == c * b,
    ensures
        a == c,
        b == d,
{
    let (x, y, g) = lemma_bezout(a, b);
    lemma_lowest_terms_unique(c, d, a, b, x, y);
}

/// An exact fraction in lowest terms with a positive denominator.
///
/// Every value is built by [`Rational::new`] or [`Rational::from_integer`], so two values
/// are equal exactly when they denote the same number.
#[derive(Clone, Copy, Debug, Hash, PartialEq, Eq)]
pub struct Rational {
    numer: isize,
    denom: isize,
}

impl Rational {
    /// The numerator, in specifications.
    pub closed spec fn spec_numer(&self) -> isize {
        self.numer
    }

    /// The denominator, in specifications.
    pub closed spec fn spec_denom(&self) -> isize {
        self.denom
    }

    /// What holds of every value: lowest terms, positive denominator.
    #[verifier::type_invariant]
    pub open spec fn is_reduced(&self) -> bool {
        lowest_terms(self.numer() as int, self.denom() as int)
    }

    /// Whether this is the fraction with exactly this numerator and denominator.
    pub open spec fn is(&self, numer: int, denom: int) -> bool {
        self.numer() == numer && self.denom() == denom
    }

    /// The fraction `numer / denom`, reduced to lowest terms.
    pub fn new(numer: isize, denom: isize) -> (ratio: Rational)
        requires
            reducible(numer as int, denom as int),
        ensures
            ratio.is_reduced(),
            ratio.numer() * denom == numer * ratio.denom(),
    {
        let parts = reduce(numer, denom);
        Rational { numer: parts.0, denom: parts.1 }
    }

    /// The fraction `t / 1`.
    pub fn from_integer(t: isize) -> (ratio: Rational)
        ensures
            ratio.is_reduced(),
            ratio.is(t as int, 1),
    {
        let parts = whole(t);
        assert(lowest_terms(parts.0 as int, 1)) by {
            assert forall|k: int| k > 1 && #[trigger] divides(k, parts.0 as int) implies !divides(
                k,
                1,
            ) by {
                vstd::arithmetic::div_mod::lemma_small_mod(1, k as nat);
            }
        }
        Rational { numer: parts.0, denom: parts.1 }
    }

    /// The numerator.
    #[verifier::when_used_as_spec(spec_numer)]
    pub fn numer(&self) -> (numer: isize)
        ensures
            numer == self.numer(),
    {
        self.numer
    }

    /// The denominator, which is positive.
    #[verifier::when_used_as_spec(spec_denom)]
    pub fn denom(&self) -> (denom: isize)
        ensures
            denom == self.denom(),
            denom > 0,
            self.is_reduced(),
    {
        proof {
            use_type_invariant(self);
        }
        self.denom
    }

    /// Two fractions that denote the same number are the same value.
    pub proof fn lemma_equal_by_value(a: Rational, b: Rational)
        requires
            a.is_reduced(),
            b.is_reduced(),
            a.numer() * b.denom() == b.numer() * a.denom(),
        ensures
            a == b,
    {
        lemma_lowest_terms_equal(
            a.numer() as int,
            a.denom() as int,
            b.numer() as int,
            b.denom() as int,
        );
    }

    /// Two fractions with the same numerator and denominator are the same value.
    pub proof fn lemma_equal_by_parts(a: Rational, b: Rational)
        requires
            a.numer() == b.numer(),
            a.denom() == b.denom(),
        ensures
            a == b,
    {
    }
}

} // verus!
