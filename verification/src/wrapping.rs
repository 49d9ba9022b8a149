//! Arithmetic modulo `m` on a window `[lo, lo + m)` of the integers.
//!
//! Wrapping machine arithmetic is the residue ring `Z/mZ` with each class
//! represented by its member in `[lo, lo + m)` (`lo = 0` for the unsigned
//! types, `lo = -m/2` for the signed ones). The ring laws of the integer
//! impls all reduce to the lemmas here.
use vstd::arithmetic::div_mod::*;
use vstd::arithmetic::mul::*;
use vstd::prelude::*;

verus! {

/// The representative of `x` modulo `m` in `[lo, lo + m)`.
pub open spec fn wrap(x: int, lo: int, m: int) -> int {
    lo + (x - lo) % m
}

/// The representative lies in the window and is congruent to `x`.
pub proof fn lemma_wrap_basics(x: int, lo: int, m: int)
    requires
        m > 0,
    ensures
        lo <= wrap(x, lo, m) < lo + m,
        (wrap(x, lo, m) - x) % m == 0,
{
    lemma_mod_bound(x - lo, m);
    lemma_fundamental_div_mod(x - lo, m);
    let q = (x - lo) / m;
    assert(wrap(x, lo, m) - x == -(m * q));
    lemma_mul_is_commutative(m, q);
    lemma_mod_multiples_basic(-q, m);
    lemma_mul_unary_negation(-q, m);
}

/// Values in the window are their own representatives.
pub proof fn lemma_wrap_small(x: int, lo: int, m: int)
    requires
        m > 0,
        lo <= x < lo + m,
    ensures
        wrap(x, lo, m) == x,
{
    lemma_small_mod((x - lo) as nat, m as nat);
}

/// Congruent integers have the same representative.
pub proof fn lemma_wrap_congruent(x: int, y: int, lo: int, m: int)
    requires
        m > 0,
        (x - y) % m == 0,
    ensures
        wrap(x, lo, m) == wrap(y, lo, m),
{
    lemma_fundamental_div_mod(x - y, m);
    let k = (x - y) / m;
    assert(x - lo == (y - lo) + m * k);
    lemma_mul_is_commutative(m, k);
    lemma_mod_multiples_vanish(k, y - lo, m);
}

/// An integer within one window of the range wraps by at most `m`.
pub proof fn lemma_wrap_near(z: int, lo: int, m: int)
    requires
        m > 0,
        lo - m <= z < lo + 2 * m,
    ensures
        wrap(z, lo, m) == (if z >= lo + m {
            z - m
        } else if z < lo {
            z + m
        } else {
            z
        }),
{
    if z >= lo + m {
        lemma_wrap_small(z - m, lo, m);
        lemma_mod_self_0(m);
        lemma_wrap_congruent(z, z - m, lo, m);
    } else if z < lo {
        lemma_wrap_small(z + m, lo, m);
        lemma_mod_multiples_basic(-1, m);
        assert(-1 * m == -m);
        lemma_wrap_congruent(z, z + m, lo, m);
    } else {
        lemma_wrap_small(z, lo, m);
    }
}

/// Wrapping an operand does not change the class of a sum or product.
pub proof fn lemma_wrap_absorbed(x: int, y: int, lo: int, m: int)
    requires
        m > 0,
    ensures
        wrap(wrap(x, lo, m) + y, lo, m) == wrap(x + y, lo, m),
        wrap(y + wrap(x, lo, m), lo, m) == wrap(y + x, lo, m),
        wrap(wrap(x, lo, m) * y, lo, m) == wrap(x * y, lo, m),
        wrap(y * wrap(x, lo, m), lo, m) == wrap(y * x, lo, m),
{
    let w = wrap(x, lo, m);
    lemma_wrap_basics(x, lo, m);
    lemma_wrap_congruent(w + y, x + y, lo, m);
    lemma_wrap_congruent(y + w, y + x, lo, m);
    lemma_fundamental_div_mod(w - x, m);
    let k = (w - x) / m;
    assert(w - x == m * k);
    assert(w * y - x * y == (m * k) * y) by (nonlinear_arith)
        requires
            w - x == m * k,
    ;
    lemma_mul_is_associative(m, k, y);
    lemma_mul_is_commutative(m, k * y);
    lemma_mod_multiples_basic(k * y, m);
    lemma_wrap_congruent(w * y, x * y, lo, m);
    lemma_mul_is_commutative(y, w);
    lemma_mul_is_commutative(y, x);
}

/// The ring laws of wrapped addition and multiplication on the window.
pub proof fn lemma_wrap_ring(a: int, b: int, c: int, lo: int, m: int)
    requires
        m > 1,
        lo <= 0,
        1 < lo + m,
        lo <= a < lo + m,
        lo <= b < lo + m,
        lo <= c < lo + m,
    ensures
        wrap(wrap(a + b, lo, m) + c, lo, m) == wrap(a + wrap(b + c, lo, m), lo, m),
        wrap(a + b, lo, m) == wrap(b + a, lo, m),
        wrap(a + 0, lo, m) == a,
        wrap(a + wrap(-a, lo, m), lo, m) == 0,
        wrap(wrap(-a, lo, m) + a, lo, m) == 0,
        wrap(wrap(a * b, lo, m) * c, lo, m) == wrap(a * wrap(b * c, lo, m), lo, m),
        wrap(a * b, lo, m) == wrap(b * a, lo, m),
        wrap(a * 1, lo, m) == a,
        wrap(1 * a, lo, m) == a,
        wrap(a * wrap(b + c, lo, m), lo, m) == wrap(wrap(a * b, lo, m) + wrap(a * c, lo, m), lo, m),
        wrap(wrap(b + c, lo, m) * a, lo, m) == wrap(wrap(b * a, lo, m) + wrap(c * a, lo, m), lo, m),
{
    lemma_wrap_absorbed(a + b, c, lo, m);
    lemma_wrap_absorbed(b + c, a, lo, m);
    assert(a + b + c == a + (b + c));
    lemma_wrap_small(a, lo, m);
    assert(a + 0 == a);
    lemma_wrap_absorbed(-a, a, lo, m);
    lemma_wrap_small(0, lo, m);
    assert(a + -a == 0);
    assert(-a + a == 0);
    lemma_wrap_absorbed(a * b, c, lo, m);
    lemma_wrap_absorbed(b * c, a, lo, m);
    lemma_mul_is_associative(a, b, c);
    lemma_mul_is_commutative(a, b);
    lemma_mul_basics(a);
    lemma_wrap_absorbed(b + c, a, lo, m);
    lemma_mul_is_distributive_add(a, b, c);
    lemma_mul_is_distributive_add_other_way(a, b, c);
    lemma_wrap_absorbed(a * b, wrap(a * c, lo, m), lo, m);
    lemma_wrap_absorbed(a * c, a * b, lo, m);
    lemma_wrap_absorbed(b * a, wrap(c * a, lo, m), lo, m);
    lemma_wrap_absorbed(c * a, b * a, lo, m);
}

/// The representative of `x` in `[lo, lo + m)` from its remainder: the
/// remainder itself when it lies in the window, else one modulus below it.
pub proof fn lemma_wrap_from_remainder(x: int, lo: int, m: int)
    requires
        m > 0,
        lo <= 0 < lo + m,
    ensures
        wrap(x, lo, m) == (if x % m > lo + m - 1 {
            x % m - m
        } else {
            x % m
        }),
        0 <= x % m < m,
{
    lemma_mod_bound(x, m);
    lemma_fundamental_div_mod(x, m);
    let q = x / m;
    let r = x % m;
    lemma_mul_is_commutative(m, q);
    if r > lo + m - 1 {
        lemma_wrap_small(r - m, lo, m);
        lemma_mod_multiples_basic(q + 1, m);
        lemma_mul_is_distributive_add_other_way(m, q, 1);
        assert(x - (r - m) == (q + 1) * m);
        lemma_wrap_congruent(x, r - m, lo, m);
    } else {
        lemma_wrap_small(r, lo, m);
        lemma_mod_multiples_basic(q, m);
        assert(x - r == q * m);
        lemma_wrap_congruent(x, r, lo, m);
    }
}

/// `g` divides `g·k` with no remainder.
pub proof fn lemma_multiple_remainder(k: int, g: int)
    requires
        g != 0,
    ensures
        (g * k) % g == 0,
{
    lemma_fundamental_div_mod(g * k, g);
    lemma_mod_bound_any(g * k, g);
    let q = (g * k) / g;
    let r = (g * k) % g;
    // g·k == g·q + r with 0 <= r < |g|, so g divides r, hence r == 0.
    assert(r == g * (k - q)) by (nonlinear_arith)
        requires
            g * k == g * q + r,
    ;
    if r != 0 {
        assert(false) by (nonlinear_arith)
            requires
                r == g * (k - q),
                0 < r,
                r < g || r < -g,
                g != 0,
        ;
    }
}

/// `0 <= x % m < |m|` for a nonzero `m`.
pub proof fn lemma_mod_bound_any(x: int, m: int)
    requires
        m != 0,
    ensures
        0 <= x % m,
        m > 0 ==> x % m < m,
        m < 0 ==> x % m < -m,
{
}

/// If `g` leaves no remainder on `b` and on `a mod b`, it leaves none on
/// `a` (exact integer division).
pub proof fn lemma_remainder_step(a: int, b: int, g: int)
    requires
        b != 0,
        g != 0,
        b % g == 0,
        (a % b) % g == 0,
    ensures
        a % g == 0,
{
    lemma_fundamental_div_mod(a, b);
    lemma_fundamental_div_mod(b, g);
    lemma_fundamental_div_mod(a % b, g);
    let k = (b / g) * (a / b) + (a % b) / g;
    assert(a == g * k) by (nonlinear_arith)
        requires
            a == b * (a / b) + a % b,
            b == g * (b / g) + 0,
            a % b == g * ((a % b) / g) + 0,
            k == (b / g) * (a / b) + (a % b) / g,
    ;
    lemma_multiple_remainder(k, g);
}

} // verus!
