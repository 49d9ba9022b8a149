//! The integers modulo `P`: `ModN<P>` is the residue ring `Z/PZ`, a finite
//! field when `P` is prime.
//!
//! Residues are kept reduced (`value < P`); sums and products are computed
//! in 128-bit intermediates, so the arithmetic is exact for every `usize`
//! modulus. The multiplicative inverse is the extended euclidean algorithm.
//! `ModN<0>` is the zero ring: its only element is `0`.
use vstd::arithmetic::div_mod::*;
use vstd::arithmetic::mul::*;
use vstd::prelude::*;

verus! {

/// A residue modulo `P`.
#[derive(Clone, Copy, PartialEq, Eq, Debug)]
pub struct ModN<const P: usize> {
    value: usize,
}

/// `p` is prime: greater than one with no divisor strictly between one and
/// itself.
pub open spec fn is_prime(p: nat) -> bool {
    p > 1 && forall|d: nat| 1 < d < p ==> #[trigger] (p % d) != 0
}

/// The residues modulo `p`: `{0}` for the zero ring, `[0, p)` otherwise.
pub open spec fn in_range(m: nat, p: nat) -> bool {
    if p == 0 {
        m == 0
    } else {
        m < p
    }
}

/// The residue of `x` modulo `P` (`0` in the zero ring).
pub open spec fn residue(x: int, p: nat) -> nat {
    if p == 0 {
        0
    } else {
        (x % (p as int)) as nat
    }
}

/// The greatest common divisor by the euclidean recursion.
pub open spec fn gcd(a: nat, b: nat) -> nat
    decreases b,
{
    if b == 0 {
        a
    } else {
        gcd(b, a % b)
    }
}

/// The extended euclidean algorithm on `(old_r, r)` with the Bézout
/// coefficients of `old_r` and `r` kept reduced modulo `p`: the coefficient
/// of the final remainder.
pub open spec fn bezout(old_r: nat, r: nat, old_s: nat, s: nat, p: nat) -> nat
    decreases r,
{
    if r == 0 {
        old_s
    } else {
        bezout(r, old_r % r, s, ((old_s + p - ((old_r / r) * s) % p) % (p as int)) as nat, p)
    }
}

impl<const P: usize> ModN<P> {
    /// Residues are reduced.
    #[verifier::type_invariant]
    spec fn reduced(self) -> bool {
        if P == 0 {
            self.value == 0
        } else {
            self.value < P
        }
    }

    /// The residue of `value` modulo `P`.
    pub fn new(value: usize) -> (r: Self)
        requires
            P > 0,
        ensures
            r@ == value % P,
    {
        proof {
            lemma_mod_bound(value as int, P as int);
            lemma_small_mod((value % P) as nat, P as nat);
        }
        ModN { value: value % P }
    }

    /// The residue with the given representative.
    pub(crate) fn from_residue(value: usize) -> (r: Self)
        requires
            in_range(value as nat, P as nat),
        ensures
            r@ == value,
    {
        proof {
            if P > 0 {
                lemma_small_mod(value as nat, P as nat);
            }
        }
        ModN { value }
    }

    /// The residue's representative in `[0, P)`.
    pub fn value(&self) -> (r: usize)
        ensures
            r == self@,
            in_range(r as nat, P as nat),
    {
        proof {
            use_type_invariant(self);
            if P > 0 {
                lemma_small_mod(self.value as nat, P as nat);
            }
        }
        self.value
    }

    /// The residue as a natural number in `[0, P)` (`0` when `P == 0`).
    pub closed spec fn view(self) -> nat {
        residue(self.value as int, P as nat)
    }

    /// Every residue is in range.
    pub proof fn lemma_in_range(self)
        ensures
            in_range(self@, P as nat),
    {
        if P > 0 {
            lemma_mod_bound(self.value as int, P as int);
        }
    }
}

/// A common divisor of `a` and `b` divides `gcd(a, b)`, which divides both
/// and is positive unless both are zero.
pub proof fn lemma_gcd_divides(a: nat, b: nat)
    ensures
        gcd(a, b) == 0 <==> a == 0 && b == 0,
        gcd(a, b) > 0 ==> a % gcd(a, b) == 0 && b % gcd(a, b) == 0,
    decreases b,
{
    if b == 0 {
        if a > 0 {
            lemma_mod_self_0(a as int);
        }
    } else {
        lemma_gcd_divides(b, a % b);
        let g = gcd(b, a % b);
        lemma_mod_bound(a as int, b as int);
        if g > 0 {
            lemma_fundamental_div_mod(a as int, b as int);
            // a == b·(a/b) + a%b, both multiples of g
            let k1 = (b / g) as int;
            let k2 = ((a % b) / g) as int;
            let qq = (a / b) as int;
            let rr = (a % b) as int;
            let gi = g as int;
            lemma_fundamental_div_mod(b as int, g as int);
            lemma_fundamental_div_mod((a % b) as int, g as int);
            assert(a as int == gi * (k1 * qq + k2)) by (nonlinear_arith)
                requires
                    a as int == (b as int) * qq + rr,
                    b as int == gi * k1,
                    rr == gi * k2,
            ;
            lemma_mul_is_commutative(gi, k1 * qq + k2);
            lemma_mod_multiples_basic(k1 * qq + k2, gi);
        }
    }
}

/// A positive multiple of `d` is at least `d`.
pub proof fn lemma_divisor_bounded(n: nat, d: nat)
    requires
        d > 0,
        n > 0,
        n % d == 0,
    ensures
        d <= n,
{
    lemma_fundamental_div_mod(n as int, d as int);
    let q = n / d;
    assert(n == d * q);
    if q == 0 {
        assert(d * q == 0);
    } else {
        lemma_mul_increases(q as int, d as int);
        lemma_mul_is_commutative(q as int, d as int);
    }
}

/// A nonzero residue is coprime to a prime modulus.
pub proof fn lemma_gcd_with_prime(a: nat, p: nat)
    requires
        is_prime(p),
        0 < a < p,
    ensures
        gcd(a, p) == 1,
{
    lemma_gcd_divides(a, p);
    let g = gcd(a, p);
    lemma_divisor_bounded(a, g);
    if g != 1 {
        assert(1 < g < p);
        assert(p % g != 0);
    }
}

/// The extended euclidean invariant: each remainder is its coefficient
/// times `a` modulo `p`, so the final coefficient times `a` is the gcd.
pub proof fn lemma_bezout(old_r: nat, r: nat, old_s: nat, s: nat, p: nat, a: nat)
    requires
        p > 0,
        old_s < p,
        s < p,
        (old_r as int) % (p as int) == (old_s * a) as int % (p as int),
        (r as int) % (p as int) == (s * a) as int % (p as int),
    ensures
        bezout(old_r, r, old_s, s, p) < p,
        (bezout(old_r, r, old_s, s, p) * a) as int % (p as int) == (gcd(old_r, r) as int) % (
        p as int),
    decreases r,
{
    if r > 0 {
        let q = old_r / r;
        let new_r = old_r % r;
        let qs = (q * s) % p;
        let new_s = ((old_s + p - qs) % (p as int)) as nat;
        lemma_mod_bound((q * s) as int, p as int);
        lemma_mod_bound((old_s + p - qs) as int, p as int);
        lemma_fundamental_div_mod(old_r as int, r as int);
        lemma_mod_bound(old_r as int, r as int);
        // new_r == old_r - q·r and new_s ≡ old_s - q·s, so new_r ≡ new_s·a
        let pi = p as int;
        let ai = a as int;
        assert(new_r as int == old_r as int - (q as int) * (r as int)) by {
            lemma_mul_is_commutative(q as int, r as int);
        }
        assert((new_s as int) % pi == (old_s as int - (q as int) * (s as int)) % pi) by {
            lemma_mod_twice((old_s + p - qs) as int, pi);
            lemma_fundamental_div_mod((q * s) as int, pi);
            let k = ((q * s) as int) / pi;
            assert((old_s + p - qs) as int == (old_s as int - (q as int) * (s as int)) + pi * (k
                + 1)) by (nonlinear_arith)
                requires
                    (q * s) as int == pi * k + qs,
                    pi == p as int,
            ;
            lemma_mod_multiples_vanish(k + 1, old_s as int - (q as int) * (s as int), pi);
        }
        assert((new_r as int) % pi == ((new_s * a) as int) % pi) by {
            // new_s·a ≡ (old_s - q·s)·a ≡ old_s·a - q·(s·a) ≡ old_r - q·r
            lemma_mul_mod_noop_left(new_s as int, ai, pi);
            lemma_mul_mod_noop_left(old_s as int - (q as int) * (s as int), ai, pi);
            assert((old_s as int - (q as int) * (s as int)) * ai == (old_s as int) * ai - (q
                as int) * ((s as int) * ai)) by (nonlinear_arith);
            lemma_sub_mod_noop((old_s as int) * ai, (q as int) * ((s as int) * ai), pi);
            lemma_mul_mod_noop_right(q as int, (s as int) * ai, pi);
            lemma_mul_mod_noop_right(q as int, r as int, pi);
            lemma_sub_mod_noop(old_r as int, (q as int) * (r as int), pi);
        }
        lemma_bezout(r, new_r, s, new_s, p, a);
    }
}

/// For a prime modulus, the extended euclidean coefficient of a nonzero
/// residue is its inverse.
pub proof fn lemma_bezout_inverse(a: nat, p: nat)
    requires
        is_prime(p),
        0 < a < p,
    ensures
        bezout(a, p, 1, 0, p) < p,
        (bezout(a, p, 1, 0, p) * a) % p == 1,
{
    lemma_small_mod(a, p);
    lemma_small_mod(1, p);
    lemma_mod_self_0(p as int);
    assert(0 * a == 0);
    lemma_bezout(a, p, 1, 0, p, a);
    lemma_gcd_with_prime(a, p);
}

} // verus!
