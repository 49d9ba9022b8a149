//! Complex impls: `Complex<T>` inherits the tower from `T`.
//!
//! Addition is component-wise; multiplication is `(ac−bd) + (ad+bc)i`
//! (it needs `T`'s additive inverse, so the multiplicative side is defined
//! over rings); the field inverse is `conj(z)/|z|²`.
use crate::complex::Complex;
use crate::op::{Additive, Multiplicative};
use crate::rings::{
    group_closed, lemma_assoc, lemma_constants, lemma_distrib, lemma_neg, lemma_neg_times, lemma_square_of_sum,
    lemma_times_swap_middle, lemma_swap_middle,
    lemma_times_commutes, lemma_units, neg, one, plus, times, zero,
};
use crate::tower::{
    left_quotient, right_quotient,
    AbelianGroup, Carrier, CommutativeRing, ComplexField, DivisionRing, Field, FieldExtension, Group, Loop, Magma, Module, Monoid,
    Quasigroup, Real, Ring, Semigroup, Semiring, VectorSpace,
};
use vstd::prelude::*;

verus! {

broadcast use group_closed;

/// The complex product on models: `(a, b)·(c, d) == (ac − bd, ad + bc)`.
pub open spec fn complex_times<T: Ring<Additive, Multiplicative>>(
    z: (T::Model, T::Model),
    w: (T::Model, T::Model),
) -> (T::Model, T::Model) {
    (
        plus::<T>(times::<T>(z.0, w.0), neg::<T>(times::<T>(z.1, w.1))),
        plus::<T>(times::<T>(z.0, w.1), times::<T>(z.1, w.0)),
    )
}

impl<T: Carrier> Carrier for Complex<T> {
    type Model = (T::Model, T::Model);

    open spec fn model(self) -> (T::Model, T::Model) {
        (self.real_part().model(), self.imaginary_part().model())
    }

    open spec fn contains(m: (T::Model, T::Model)) -> bool {
        T::contains(m.0) && T::contains(m.1)
    }

    proof fn lemma_model_contained(x: &Self) {
        T::lemma_model_contained(&x.real_part());
        T::lemma_model_contained(&x.imaginary_part());
    }
}

impl<T: Magma<Additive>> Magma<Additive> for Complex<T> {
    open spec fn spec_combine(a: (T::Model, T::Model), b: (T::Model, T::Model)) -> (
        T::Model,
        T::Model,
    ) {
        (T::spec_combine(a.0, b.0), T::spec_combine(a.1, b.1))
    }

    proof fn lemma_closed(a: (T::Model, T::Model), b: (T::Model, T::Model)) {
        T::lemma_closed(a.0, b.0);
        T::lemma_closed(a.1, b.1);
    }

    fn combine(&self, rhs: &Self) -> (r: Self) {
        Complex::new(self.re().combine(rhs.re()), self.im().combine(rhs.im()))
    }
}

impl<T: Semigroup<Additive>> Semigroup<Additive> for Complex<T> {
    proof fn lemma_associative(
        a: (T::Model, T::Model),
        b: (T::Model, T::Model),
        c: (T::Model, T::Model),
    ) {
        T::lemma_associative(a.0, b.0, c.0);
        T::lemma_associative(a.1, b.1, c.1);
    }
}

impl<T: Monoid<Additive>> Monoid<Additive> for Complex<T> {
    open spec fn spec_identity() -> (T::Model, T::Model) {
        (T::spec_identity(), T::spec_identity())
    }

    proof fn lemma_identity(a: (T::Model, T::Model)) {
        T::lemma_identity(a.0);
        T::lemma_identity(a.1);
    }

    fn identity() -> (r: Self) {
        Complex::new(T::identity(), T::identity())
    }
}

impl<T: Quasigroup<Additive>> Quasigroup<Additive> for Complex<T> {
    proof fn lemma_latin_square(a: (T::Model, T::Model), b: (T::Model, T::Model)) {
        T::lemma_latin_square(a.0, b.0);
        T::lemma_latin_square(a.1, b.1);
        let x = (left_quotient::<Additive, T>(a.0, b.0), left_quotient::<Additive, T>(a.1, b.1));
        let y = (right_quotient::<Additive, T>(a.0, b.0), right_quotient::<Additive, T>(a.1, b.1));
        assert(Self::contains(x) && Self::spec_combine(a, x) == b);
        assert(Self::contains(y) && Self::spec_combine(y, a) == b);
        assert forall|x1: (T::Model, T::Model), x2: (T::Model, T::Model)|
            Self::contains(x1) && Self::contains(x2) && #[trigger] Self::spec_combine(a, x1)
                == #[trigger] Self::spec_combine(a, x2) implies x1 == x2 by {
            assert(T::spec_combine(a.0, x1.0) == T::spec_combine(a.0, x2.0));
            assert(T::spec_combine(a.1, x1.1) == T::spec_combine(a.1, x2.1));
        }
        assert forall|y1: (T::Model, T::Model), y2: (T::Model, T::Model)|
            Self::contains(y1) && Self::contains(y2) && #[trigger] Self::spec_combine(y1, a)
                == #[trigger] Self::spec_combine(y2, a) implies y1 == y2 by {
            assert(T::spec_combine(y1.0, a.0) == T::spec_combine(y2.0, a.0));
            assert(T::spec_combine(y1.1, a.1) == T::spec_combine(y2.1, a.1));
        }
    }
}

impl<T: Loop<Additive>> Loop<Additive> for Complex<T> {

}

impl<T: Group<Additive>> Group<Additive> for Complex<T> {
    open spec fn spec_inverse(a: (T::Model, T::Model)) -> (T::Model, T::Model) {
        (T::spec_inverse(a.0), T::spec_inverse(a.1))
    }

    proof fn lemma_inverse(a: (T::Model, T::Model)) {
        T::lemma_inverse(a.0);
        T::lemma_inverse(a.1);
    }

    fn inverse(&self) -> (r: Self) {
        Complex::new(self.re().inverse(), self.im().inverse())
    }
}

impl<T: AbelianGroup<Additive>> AbelianGroup<Additive> for Complex<T> {
    proof fn lemma_commutative(a: (T::Model, T::Model), b: (T::Model, T::Model)) {
        T::lemma_commutative(a.0, b.0);
        T::lemma_commutative(a.1, b.1);
    }
}

impl<T: Ring<Additive, Multiplicative>> Magma<Multiplicative> for Complex<T> {
    open spec fn spec_combine(a: (T::Model, T::Model), b: (T::Model, T::Model)) -> (
        T::Model,
        T::Model,
    ) {
        complex_times::<T>(a, b)
    }

    proof fn lemma_closed(a: (T::Model, T::Model), b: (T::Model, T::Model)) {
    }

    fn combine(&self, rhs: &Self) -> (r: Self) {
        let re = <T as Magma<Additive>>::combine(
            &<T as Magma<Multiplicative>>::combine(self.re(), rhs.re()),
            &<T as Group<Additive>>::inverse(
                &<T as Magma<Multiplicative>>::combine(self.im(), rhs.im()),
            ),
        );
        let im = <T as Magma<Additive>>::combine(
            &<T as Magma<Multiplicative>>::combine(self.re(), rhs.im()),
            &<T as Magma<Multiplicative>>::combine(self.im(), rhs.re()),
        );
        Complex::new(re, im)
    }
}

impl<T: Ring<Additive, Multiplicative>> Semigroup<Multiplicative> for Complex<T> {
    proof fn lemma_associative(
        z: (T::Model, T::Model),
        w: (T::Model, T::Model),
        v: (T::Model, T::Model),
    ) {
        let (a, b) = z;
        let (c, d) = w;
        let (e, f) = v;
        // the products, associated to the right
        let ace = times::<T>(a, times::<T>(c, e));
        let bde = times::<T>(b, times::<T>(d, e));
        let adf = times::<T>(a, times::<T>(d, f));
        let bcf = times::<T>(b, times::<T>(c, f));
        let acf = times::<T>(a, times::<T>(c, f));
        let bdf = times::<T>(b, times::<T>(d, f));
        let ade = times::<T>(a, times::<T>(d, e));
        let bce = times::<T>(b, times::<T>(c, e));
        lemma_assoc::<T>(a, c, e);
        lemma_assoc::<T>(b, d, e);
        lemma_assoc::<T>(a, d, f);
        lemma_assoc::<T>(b, c, f);
        lemma_assoc::<T>(a, c, f);
        lemma_assoc::<T>(b, d, f);
        lemma_assoc::<T>(a, d, e);
        lemma_assoc::<T>(b, c, e);
        // (zw)v, real part: (ac − bd)e − (ad + bc)f
        lemma_distrib::<T>(e, times::<T>(a, c), neg::<T>(times::<T>(b, d)));
        lemma_neg_times::<T>(times::<T>(b, d), e);
        lemma_distrib::<T>(f, times::<T>(a, d), times::<T>(b, c));
        lemma_neg::<T>(adf, bcf);
        // z(wv), real part: a(ce − df) − b(cf + de)
        lemma_distrib::<T>(a, times::<T>(c, e), neg::<T>(times::<T>(d, f)));
        lemma_neg_times::<T>(a, times::<T>(d, f));
        lemma_distrib::<T>(b, times::<T>(c, f), times::<T>(d, e));
        lemma_neg::<T>(bcf, bde);
        lemma_swap_middle::<T>(ace, neg::<T>(bde), neg::<T>(adf), neg::<T>(bcf));
        lemma_assoc::<T>(neg::<T>(bde), neg::<T>(bcf), neg::<T>(bde));
        // (zw)v, imaginary part: (ac − bd)f + (ad + bc)e
        lemma_distrib::<T>(f, times::<T>(a, c), neg::<T>(times::<T>(b, d)));
        lemma_neg_times::<T>(times::<T>(b, d), f);
        lemma_distrib::<T>(e, times::<T>(a, d), times::<T>(b, c));
        // z(wv), imaginary part: a(cf + de) + b(ce − df)
        lemma_distrib::<T>(a, times::<T>(c, f), times::<T>(d, e));
        lemma_distrib::<T>(b, times::<T>(c, e), neg::<T>(times::<T>(d, f)));
        lemma_neg_times::<T>(b, times::<T>(d, f));
        lemma_swap_middle::<T>(acf, neg::<T>(bdf), ade, bce);
        lemma_assoc::<T>(neg::<T>(bdf), bce, neg::<T>(bdf));
    }
}

impl<T: Ring<Additive, Multiplicative>> Monoid<Multiplicative> for Complex<T> {
    open spec fn spec_identity() -> (T::Model, T::Model) {
        (one::<T>(), zero::<T>())
    }

    proof fn lemma_identity(z: (T::Model, T::Model)) {
        lemma_constants::<T>();
        lemma_units::<T>(one::<T>());
        lemma_units::<T>(zero::<T>());
        lemma_neg::<T>(zero::<T>(), zero::<T>());
        if Self::contains(z) {
            lemma_units::<T>(z.0);
            lemma_units::<T>(z.1);
        }
    }

    fn identity() -> (r: Self) {
        Complex::new(<T as Monoid<Multiplicative>>::identity(), <T as Monoid<Additive>>::identity())
    }
}

impl<T: Ring<Additive, Multiplicative>> Semiring<Additive, Multiplicative> for Complex<T> {
    proof fn lemma_distributive(
        z: (T::Model, T::Model),
        w: (T::Model, T::Model),
        v: (T::Model, T::Model),
    ) {
        let (a, b) = z;
        let (c, d) = w;
        let (e, f) = v;
        // z(w + v): real a(c + e) − b(d + f), imaginary a(d + f) + b(c + e)
        lemma_distrib::<T>(a, c, e);
        lemma_distrib::<T>(b, d, f);
        lemma_distrib::<T>(a, d, f);
        lemma_distrib::<T>(b, c, e);
        lemma_neg::<T>(times::<T>(b, d), times::<T>(b, f));
        lemma_swap_middle::<T>(
            times::<T>(a, c),
            times::<T>(a, e),
            neg::<T>(times::<T>(b, d)),
            neg::<T>(times::<T>(b, f)),
        );
        lemma_swap_middle::<T>(times::<T>(a, d), times::<T>(a, f), times::<T>(b, c), times::<T>(b, e));
        // (w + v)z: real (c + e)a − (d + f)b, imaginary (c + e)b + (d + f)a
        lemma_distrib::<T>(a, c, e);
        lemma_distrib::<T>(b, d, f);
        lemma_distrib::<T>(b, c, e);
        lemma_distrib::<T>(a, d, f);
        lemma_neg::<T>(times::<T>(d, b), times::<T>(f, b));
        lemma_swap_middle::<T>(
            times::<T>(c, a),
            times::<T>(e, a),
            neg::<T>(times::<T>(d, b)),
            neg::<T>(times::<T>(f, b)),
        );
        lemma_swap_middle::<T>(times::<T>(c, b), times::<T>(e, b), times::<T>(d, a), times::<T>(f, a));
    }
}

impl<T: Ring<Additive, Multiplicative>> Ring<Additive, Multiplicative> for Complex<T> {

}

impl<T: CommutativeRing<Additive, Multiplicative>> CommutativeRing<Additive, Multiplicative> for Complex<
    T,
> {
    proof fn lemma_multiplication_commutes(z: (T::Model, T::Model), w: (T::Model, T::Model)) {
        let (a, b) = z;
        let (c, d) = w;
        lemma_times_commutes::<T>(a, c);
        lemma_times_commutes::<T>(b, d);
        lemma_times_commutes::<T>(a, d);
        lemma_times_commutes::<T>(b, c);
        lemma_assoc::<T>(times::<T>(a, d), times::<T>(b, c), times::<T>(b, c));
    }
}

impl<T: Field<Additive, Multiplicative>> Module<Additive, Multiplicative> for Complex<T> {
    type Scalar = T;

    open spec fn spec_scale(s: T::Model, v: (T::Model, T::Model)) -> (T::Model, T::Model) {
        (times::<T>(s, v.0), times::<T>(s, v.1))
    }

    proof fn lemma_module(
        s: T::Model,
        t: T::Model,
        u: (T::Model, T::Model),
        v: (T::Model, T::Model),
    ) {
        lemma_distrib::<T>(s, u.0, v.0);
        lemma_distrib::<T>(s, u.1, v.1);
        lemma_distrib::<T>(v.0, s, t);
        lemma_distrib::<T>(v.1, s, t);
        lemma_assoc::<T>(s, t, v.0);
        lemma_assoc::<T>(s, t, v.1);
        lemma_units::<T>(v.0);
        lemma_units::<T>(v.1);
    }

    fn scale(s: &T, v: Self) -> (r: Self) {
        Complex::new(
            <T as Magma<Multiplicative>>::combine(s, v.re()),
            <T as Magma<Multiplicative>>::combine(s, v.im()),
        )
    }
}

impl<T: Field<Additive, Multiplicative>> VectorSpace<Additive, Multiplicative> for Complex<T> {

}

/// `a² + b²` on models: the squared modulus of `a + bi`.
pub open spec fn modulus_squared<T: Ring<Additive, Multiplicative>>(z: (T::Model, T::Model)) -> T::Model {
    plus::<T>(times::<T>(z.0, z.0), times::<T>(z.1, z.1))
}

/// Whether `a² + b² == 0` only for `a == b == 0` — the condition under
/// which the complex numbers over `T` form a division ring (it holds over
/// the reals and over `Z/pZ` for primes `p ≡ 3 (mod 4)`, and fails over
/// `Z/2Z`, where `1² + 1² == 0`).
pub open spec fn squares_sum_nondegenerate<T: Ring<Additive, Multiplicative>>() -> bool {
    forall|a: T::Model, b: T::Model|
        T::contains(a) && T::contains(b) && #[trigger] modulus_squared::<T>((a, b)) == zero::<T>()
            ==> a == zero::<T>() && b == zero::<T>()
}

impl<T: Field<Additive, Multiplicative>> DivisionRing<Additive, Multiplicative> for Complex<T> {
    open spec fn inverses_exist() -> bool {
        T::inverses_exist() && squares_sum_nondegenerate::<T>()
    }

    open spec fn spec_inv(z: (T::Model, T::Model)) -> (T::Model, T::Model) {
        let d = T::spec_inv(modulus_squared::<T>(z));
        (times::<T>(z.0, d), times::<T>(neg::<T>(z.1), d))
    }

    proof fn lemma_inv_closed(z: (T::Model, T::Model)) {
        T::lemma_inv_closed(modulus_squared::<T>(z));
    }

    proof fn lemma_inv(z: (T::Model, T::Model)) {
        let (a, b) = z;
        let m = modulus_squared::<T>(z);
        let i = T::spec_inv(m);
        assert(z != <Self as Monoid<Additive>>::spec_identity());
        assert(m != zero::<T>());
        T::lemma_inv_closed(m);
        T::lemma_inv(m);
        let w = Self::spec_inv(z);
        // real part of z·w: a(ai) − b((−b)i) == (aa)i + (bb)i == m·i == 1
        lemma_assoc::<T>(a, a, i);
        lemma_assoc::<T>(b, neg::<T>(b), i);
        lemma_neg_times::<T>(b, b);
        lemma_neg_times::<T>(times::<T>(b, b), i);
        lemma_neg::<T>(times::<T>(times::<T>(b, b), i), times::<T>(times::<T>(b, b), i));
        lemma_distrib::<T>(i, times::<T>(a, a), times::<T>(b, b));
        // imaginary part of z·w: a((−b)i) + b(ai) == −((ab)i) + (ab)i == 0
        lemma_assoc::<T>(a, neg::<T>(b), i);
        lemma_neg_times::<T>(a, b);
        lemma_neg_times::<T>(times::<T>(a, b), i);
        lemma_assoc::<T>(b, a, i);
        lemma_times_commutes::<T>(a, b);
        lemma_units::<T>(times::<T>(times::<T>(a, b), i));
        assert(<Self as Magma<Multiplicative>>::spec_combine(z, w) == <Self as Monoid<
            Multiplicative,
        >>::spec_identity());
        <Self as CommutativeRing<Additive, Multiplicative>>::lemma_multiplication_commutes(z, w);
    }

    fn inv(&self) -> (r: Self) {
        let d = <T as Magma<Additive>>::combine(
            &<T as Magma<Multiplicative>>::combine(self.re(), self.re()),
            &<T as Magma<Multiplicative>>::combine(self.im(), self.im()),
        );
        let inv_d = <T as DivisionRing<Additive, Multiplicative>>::inv(&d);
        Complex::new(
            <T as Magma<Multiplicative>>::combine(self.re(), &inv_d),
            <T as Magma<Multiplicative>>::combine(
                &<T as Group<Additive>>::inverse(self.im()),
                &inv_d,
            ),
        )
    }
}

impl<T: Field<Additive, Multiplicative>> Field<Additive, Multiplicative> for Complex<T> {
    proof fn lemma_zero_is_not_one() {
        T::lemma_zero_is_not_one();
    }
}

impl<T: Real + Copy> ComplexField for Complex<T> {
    type RealField = T;

    open spec fn spec_from_real(re: T::Model) -> (T::Model, T::Model) {
        (re, zero::<T>())
    }

    open spec fn spec_re(z: (T::Model, T::Model)) -> T::Model {
        z.0
    }

    open spec fn spec_im(z: (T::Model, T::Model)) -> T::Model {
        z.1
    }

    open spec fn spec_conjugate(z: (T::Model, T::Model)) -> (T::Model, T::Model) {
        (z.0, neg::<T>(z.1))
    }

    proof fn lemma_complex(re: T::Model, z: (T::Model, T::Model)) {
        lemma_constants::<T>();
    }

    fn from_real(re: T) -> (r: Self) {
        Complex::new(re, <T as Monoid<Additive>>::identity())
    }

    fn re(&self) -> (r: T) {
        *self.re()
    }

    fn im(&self) -> (r: T) {
        *self.im()
    }

    fn conjugate(&self) -> (r: Self) {
        Complex::new(*self.re(), <T as Group<Additive>>::inverse(self.im()))
    }
}

impl<T: Real + Copy> FieldExtension<Additive, Multiplicative> for Complex<T> {
    type BaseField = T;

    open spec fn spec_degree() -> usize {
        2
    }

    open spec fn spec_trace(z: (T::Model, T::Model)) -> T::Model {
        plus::<T>(z.0, z.0)
    }

    open spec fn spec_norm(z: (T::Model, T::Model)) -> T::Model {
        modulus_squared::<T>(z)
    }

    proof fn lemma_trace_additive(z: (T::Model, T::Model), w: (T::Model, T::Model)) {
        lemma_swap_middle::<T>(z.0, w.0, z.0, w.0);
    }

    proof fn lemma_norm_multiplicative(z: (T::Model, T::Model), w: (T::Model, T::Model)) {
        let (a, b) = z;
        let (c, d) = w;
        let p = times::<T>(a, c);
        let q = times::<T>(b, d);
        let r = times::<T>(a, d);
        let s = times::<T>(b, c);
        let k = times::<T>(times::<T>(a, b), times::<T>(c, d));
        let aacc = times::<T>(times::<T>(a, a), times::<T>(c, c));
        let bbdd = times::<T>(times::<T>(b, b), times::<T>(d, d));
        let aadd = times::<T>(times::<T>(a, a), times::<T>(d, d));
        let bbcc = times::<T>(times::<T>(b, b), times::<T>(c, c));
        // the squares and the cross terms
        lemma_square_of_sum::<T>(p, neg::<T>(q));
        lemma_neg_times::<T>(p, q);
        lemma_neg_times::<T>(q, p);
        lemma_neg_times::<T>(q, neg::<T>(q));
        lemma_neg_times::<T>(q, q);
        lemma_neg::<T>(times::<T>(q, q), times::<T>(q, q));
        lemma_square_of_sum::<T>(r, s);
        lemma_times_swap_middle::<T>(a, c, a, c);
        lemma_times_swap_middle::<T>(b, d, b, d);
        lemma_times_swap_middle::<T>(a, d, a, d);
        lemma_times_swap_middle::<T>(b, c, b, c);
        lemma_times_swap_middle::<T>(a, c, b, d);
        lemma_times_commutes::<T>(p, q);
        lemma_times_swap_middle::<T>(a, d, b, c);
        lemma_times_commutes::<T>(d, c);
        lemma_times_commutes::<T>(r, s);
        assert(times::<T>(p, q) == k);
        assert(times::<T>(q, p) == k);
        assert(times::<T>(r, s) == k);
        assert(times::<T>(s, r) == k);
        // (aacc − k) + (−k + bbdd), regrouped as (aacc + bbdd) + (−k + −k)
        let nk = neg::<T>(k);
        lemma_assoc::<T>(nk, bbdd, nk);
        lemma_swap_middle::<T>(aacc, nk, bbdd, nk);
        // (aadd + k) + (k + bbcc), regrouped as (aadd + bbcc) + (k + k)
        lemma_assoc::<T>(k, bbcc, k);
        lemma_swap_middle::<T>(aadd, k, bbcc, k);
        // the cross terms cancel
        let x1 = plus::<T>(aacc, bbdd);
        let y1 = plus::<T>(aadd, bbcc);
        lemma_swap_middle::<T>(x1, plus::<T>(nk, nk), y1, plus::<T>(k, k));
        lemma_swap_middle::<T>(nk, nk, k, k);
        lemma_units::<T>(k);
        lemma_constants::<T>();
        lemma_units::<T>(zero::<T>());
        lemma_units::<T>(plus::<T>(x1, y1));
        // (aa + bb)(cc + dd) == (aacc + aadd) + (bbcc + bbdd)
        lemma_distrib::<T>(plus::<T>(times::<T>(c, c), times::<T>(d, d)), times::<T>(a, a), times::<T>(b, b));
        lemma_distrib::<T>(times::<T>(a, a), times::<T>(c, c), times::<T>(d, d));
        lemma_distrib::<T>(times::<T>(b, b), times::<T>(c, c), times::<T>(d, d));
        lemma_swap_middle::<T>(aacc, bbdd, aadd, bbcc);
        lemma_assoc::<T>(bbdd, bbcc, bbdd);
        lemma_swap_middle::<T>(aacc, aadd, bbcc, bbdd);
        assert(plus::<T>(x1, y1) == plus::<T>(plus::<T>(aacc, aadd), plus::<T>(bbcc, bbdd)));
    }

    fn degree() -> (r: usize) {
        2
    }

    fn trace(&self) -> (r: T) {
        <T as Magma<Additive>>::combine(self.re(), self.re())
    }

    fn norm(&self) -> (r: T) {
        <T as Magma<Additive>>::combine(
            &<T as Magma<Multiplicative>>::combine(self.re(), self.re()),
            &<T as Magma<Multiplicative>>::combine(self.im(), self.im()),
        )
    }
}

} // verus!
