//! The rounding policy: an exact ratio is quantised to the nearest whole
//! unit, and an exact half goes away from zero.

use vstd::prelude::*;
use vstd::arithmetic::div_mod::lemma_fundamental_div_mod_converse;

verus! {

/// The whole number nearest to `n / d`, an exact half rounded away from zero.
pub open spec fn round_half_away(n: int, d: int) -> int
    recommends
        d > 0,
{
    if n >= 0 {
        (2 * n + d) / (2 * d)
    } else {
        -((2 * (-n) + d) / (2 * d))
    }
}

/// The distance between two integers.
pub open spec fn distance(a: int, b: int) -> int {
    if a >= b {
        a - b
    } else {
        b - a
    }
}

/// For a non-negative numerator written as `q * d + m` with `0 <= m < d`,
/// rounding steps up from `q` exactly when the remainder is at least half
/// of `d`.
pub proof fn lemma_round_from_quotient(n: int, d: int, q: int, m: int)
    requires
        d > 0,
        n >= 0,
        n == q * d + m,
        0 <= m < d,
    ensures
        round_half_away(n, d) == if 2 * m >= d { q + 1 } else { q },
{
    if 2 * m >= d {
        assert(2 * n + d == (q + 1) * (2 * d) + (2 * m - d)) by (nonlinear_arith)
            requires
                n == q * d + m,
        ;
        lemma_fundamental_div_mod_converse(2 * n + d, 2 * d, q + 1, 2 * m - d);
    } else {
        assert(2 * n + d == q * (2 * d) + (2 * m + d)) by (nonlinear_arith)
            requires
                n == q * d + m,
        ;
        lemma_fundamental_div_mod_converse(2 * n + d, 2 * d, q, 2 * m + d);
    }
}

/// The result is a nearest whole number: it lies within half a unit of the
/// ratio, and where the ratio is exactly halfway between two whole numbers
/// it is the one farther from zero.
pub proof fn lemma_round_is_nearest(n: int, d: int)
    requires
        d > 0,
    ensures
        2 * distance(n, round_half_away(n, d) * d) <= d,
        2 * distance(n, round_half_away(n, d) * d) == d ==> distance(
            round_half_away(n, d) * d,
            0,
        ) > distance(n, 0),
{
    let a = if n >= 0 { n } else { -n };
    let q = a / d;
    let m = a % d;
    vstd::arithmetic::div_mod::lemma_fundamental_div_mod(a, d);
    vstd::arithmetic::div_mod::lemma_mod_bound(a, d);
    assert(a == q * d + m) by (nonlinear_arith)
        requires
            a == d * q + m,
    ;
    lemma_round_from_quotient(a, d, q, m);
    let r = round_half_away(a, d);
    assert(r * d == q * d + (r - q) * d) by (nonlinear_arith);
    assert((r - q) * d == if 2 * m >= d { d } else { 0 }) by (nonlinear_arith)
        requires
            r - q == if 2 * m >= d { 1int } else { 0int },
    ;
    if n < 0 {
        assert(round_half_away(n, d) == -r);
        assert((-r) * d == -(r * d)) by (nonlinear_arith);
    }
}

/// No other whole number is as near: one strictly within half a unit of the
/// ratio is the result.
pub proof fn lemma_round_is_unique(n: int, d: int, k: int)
    requires
        d > 0,
        2 * distance(n, k * d) < d,
    ensures
        round_half_away(n, d) == k,
{
    lemma_round_is_nearest(n, d);
    let r = round_half_away(n, d);
    assert(r == k) by (nonlinear_arith)
        requires
            d > 0,
            2 * distance(n, k * d) < d,
            2 * distance(n, r * d) <= d,
    {
        if r > k {
            assert(r * d - k * d == (r - k) * d);
            assert((r - k) * d >= d);
        }
        if r < k {
            assert(k * d - r * d == (k - r) * d);
            assert((k - r) * d >= d);
        }
    }
}

/// A whole multiple of the unit is left as it is.
pub proof fn lemma_round_exact(k: int, d: int)
    requires
        d > 0,
    ensures
        round_half_away(k * d, d) == k,
{
    assert(distance(k * d, k * d) == 0);
    lemma_round_is_unique(k * d, d, k);
}

/// Rounding keeps order: a larger numerator never rounds to a smaller value.
pub proof fn lemma_round_is_monotonic(n1: int, n2: int, d: int)
    requires
        d > 0,
        n1 <= n2,
    ensures
        round_half_away(n1, d) <= round_half_away(n2, d),
{
    lemma_round_is_nearest(n1, d);
    lemma_round_is_nearest(n2, d);
    let r1 = round_half_away(n1, d);
    let r2 = round_half_away(n2, d);
    if r1 > r2 {
        assert(r1 * d - r2 * d >= d) by (nonlinear_arith)
            requires
                r1 > r2,
                d > 0,
        ;
        // Both numerators then sit exactly on the half between r2 and r1,
        // so they are equal and round alike.
        assert(n1 == n2);
    }
}

/// A ratio between two whole numbers rounds to a value between them.
pub proof fn lemma_round_between(n: int, d: int, lo: int, hi: int)
    requires
        d > 0,
        lo * d <= n <= hi * d,
    ensures
        lo <= round_half_away(n, d) <= hi,
{
    lemma_round_exact(lo, d);
    lemma_round_exact(hi, d);
    lemma_round_is_monotonic(lo * d, n, d);
    lemma_round_is_monotonic(n, hi * d, d);
}

/// Rounds the ratio `n / d` to the nearest whole number, an exact half away
/// from zero.
pub fn round_ratio(n: i128, d: i128) -> (r: i128)
    requires
        d > 0,
    ensures
        r == round_half_away(n as int, d as int),
{
    let q = n / d;
    let m = n % d;
    proof {
        let a: int = if n >= 0 { n as int } else { -(n as int) };
        let qa = a / (d as int);
        let ma = a % (d as int);
        vstd::arithmetic::div_mod::lemma_fundamental_div_mod(a, d as int);
        vstd::arithmetic::div_mod::lemma_mod_bound(a, d as int);
        assert(a == qa * d + ma && (ma > 0 ==> 2 * qa <= a)) by (nonlinear_arith)
            requires
                a == d * qa + ma,
                0 <= ma < d,
                a >= 0,
        {
            if ma > 0 {
                assert(d >= 2);
                assert(qa >= 0);
                assert(d * qa >= 2 * qa);
            }
        }
        lemma_round_from_quotient(a, d as int, qa, ma);
    }
    if n >= 0 {
        if m >= d - m {
            q + 1
        } else {
            q
        }
    } else {
        if -m >= d + m {
            q - 1
        } else {
            q
        }
    }
}

/// Round easting, northing and height to the nearest millimetre.
///
/// Each value is given in parts of a millimetre, `parts` to the
/// millimetre; an exact half goes away from zero.
pub fn round_to_nearest_mm(x: i128, y: i128, z: i128, parts: i128) -> (r: (i128, i128, i128))
    requires
        parts > 0,
    ensures
        r.0 == round_half_away(x as int, parts as int),
        r.1 == round_half_away(y as int, parts as int),
        r.2 == round_half_away(z as int, parts as int),
{
    let new_x = round_ratio(x, parts);
    let new_y = round_ratio(y, parts);
    let new_z = round_ratio(z, parts);
    (new_x, new_y, new_z)
}

} // verus!
