//! Normed spaces, inner-product spaces, and finite-dimensional vector
//! spaces — the analytic layer over [`VectorSpace`].
//!
//! The norm lives in a real field ([`Real`]); inner products are **real**
//! (euclidean), so a complex vector space's norm is still real.
//! Gram–Schmidt orthogonalization is implemented once here and inherited by
//! every finite-dimensional inner-product space.
use crate::op::{Additive, Operator};

use super::reals::{order_obeyed, real_inv, Real};
use super::{Carrier, DivisionRing, Field, Group, Magma, Monoid, VectorSpace};
use core::cmp::Ordering;
use vstd::prelude::*;
use vstd::std_specs::cmp::PartialOrdSpec;
use vstd::std_specs::ops::{DivSpec, MulSpec};
use crate::op::Multiplicative;

verus! {

/// A normed vector space: a [`VectorSpace`] with a norm over a real field.
pub trait NormedSpace<Oa: Operator, Om: Operator>: VectorSpace<Oa, Om> where
    Self::Scalar: Field<Oa, Om>,
 {
    /// The real field the norm lives in.
    type RealField: Real;

    /// `‖v‖²` on models.
    spec fn spec_norm_squared(v: Self::Model) -> <Self::RealField as Carrier>::Model;

    /// The action of the norm's field on models.
    spec fn spec_scale_real(v: Self::Model, r: <Self::RealField as Carrier>::Model) -> Self::Model;

    /// The zero vector has norm zero.
    proof fn lemma_norm_of_zero()
        ensures
            Self::spec_norm_squared(<Self as Monoid<Oa>>::spec_identity())
                == <Self::RealField as Monoid<Additive>>::spec_identity(),
    ;

    /// A vector and its negation have the same norm.
    proof fn lemma_norm_of_inverse(v: Self::Model)
        requires
            Self::contains(v),
        ensures
            Self::spec_norm_squared(<Self as Group<Oa>>::spec_inverse(v)) == Self::spec_norm_squared(v),
    ;

    /// `‖v‖²`.
    fn norm_squared(&self) -> (r: Self::RealField)
        ensures
            r.model() == Self::spec_norm_squared(self.model()),
    ;

    /// `‖v‖`: the square root of `‖v‖²`.
    fn norm(&self) -> (r: Self::RealField)
        ensures
            r.model() == Self::RealField::spec_sqrt(Self::spec_norm_squared(self.model())),
    {
        self.norm_squared().sqrt()
    }

    /// Real-scalar multiplication `v·r` — the norm's field acting on the
    /// vector. The identity on the numerics (`Scalar = RealField`), the
    /// natural action on complex vectors.
    fn scale_real(&self, r: Self::RealField) -> (s: Self)
        ensures
            s.model() == Self::spec_scale_real(self.model(), r.model()),
    ;

    /// `v / ‖v‖`: `v` scaled by the inverse of its norm (`NaN` on the zero
    /// vector of a floating-point space).
    fn normalize(&self) -> (r: Self)
        ensures
            r.model() == Self::spec_scale_real(
                self.model(),
                real_inv::<Self::RealField>(
                    Self::RealField::spec_sqrt(Self::spec_norm_squared(self.model())),
                ),
            ),
    {
        self.scale_real(self.norm().inv())
    }

    /// `v / ‖v‖`, `None` unless the norm is strictly greater than `eps`.
    ///
    /// The comparison is the real field's own `>`: when that field follows
    /// its `partial_cmp` specification, `Some` comes exactly for a norm
    /// greater than `eps`.
    fn try_normalize(&self, eps: Self::RealField) -> (r: Option<Self>)
        ensures
            exists|n: Self::RealField|
                {
                    &&& n.model() == Self::RealField::spec_sqrt(
                        Self::spec_norm_squared(self.model()),
                    )
                    &&& Self::RealField::obeys_partial_cmp_spec() ==> (r is Some <==> n.partial_cmp_spec(
                        &eps,
                    ) == Some(Ordering::Greater))
                    &&& r matches Some(v) ==> v.model() == Self::spec_scale_real(
                        self.model(),
                        real_inv::<Self::RealField>(
                            n.model(),
                        ),
                    )
                },
    {
        let n = self.norm();
        if n > eps {
            Some(self.scale_real(n.inv()))
        } else {
            None
        }
    }
}

/// An inner-product space: a [`NormedSpace`] with a positive-definite
/// bilinear form, whose value on `(v, v)` is `‖v‖²`.
pub trait InnerSpace<Oa: Operator, Om: Operator>: NormedSpace<Oa, Om> where
    Self::Scalar: Field<Oa, Om>,
 {
    /// `⟨u, v⟩` on models.
    spec fn spec_inner_product(u: Self::Model, v: Self::Model) -> <Self::RealField as Carrier>::Model;

    /// The inner product of a vector with itself is its squared norm.
    proof fn lemma_inner_product_norm(v: Self::Model)
        requires
            Self::contains(v),
        ensures
            Self::spec_inner_product(v, v) == Self::spec_norm_squared(v),
    ;

    /// The (real, euclidean) inner product `⟨self, other⟩`.
    fn inner_product(&self, other: &Self) -> (r: Self::RealField)
        ensures
            r.model() == Self::spec_inner_product(self.model(), other.model()),
    ;

    /// The angle between `self` and `other` (radians): the arccosine of
    /// `⟨u, v⟩ / (‖u‖·‖v‖)`, computed with the real field's `/` and `*`.
    fn angle(&self, other: &Self) -> (r: Self::RealField)
        ensures
            Self::RealField::obeys_mul_spec() && Self::RealField::obeys_div_spec() ==> r.model()
                == Self::RealField::spec_acos(
                Self::RealField::spec_div(
                    Self::spec_inner_product(self.model(), other.model()),
                    <Self::RealField as Magma<Multiplicative>>::spec_combine(
                        Self::RealField::spec_sqrt(Self::spec_norm_squared(self.model())),
                        Self::RealField::spec_sqrt(Self::spec_norm_squared(other.model())),
                    ),
                ),
            ),
    {
        let ip = self.inner_product(other);
        let nu = self.norm();
        let nv = other.norm();
        proof {
            Self::RealField::lemma_operators_defined(nu, nv);
        }
        let prod = nu * nv;
        proof {
            Self::RealField::lemma_operators_defined(ip, prod);
        }
        let cos = ip / prod;
        cos.acos()
    }
}

/// A finite-dimensional vector space: a dimension and a canonical basis.
pub trait FiniteDimVectorSpace<Oa: Operator, Om: Operator>: VectorSpace<Oa, Om> where
    Self::Scalar: Field<Oa, Om>,
 {
    /// The dimension's value.
    spec fn spec_dimension() -> usize;

    /// The `i`-th canonical basis vector's model.
    spec fn spec_canonical_basis_element(i: usize) -> Self::Model;

    /// The coordinate-wise dot product on models.
    spec fn spec_dot(u: Self::Model, v: Self::Model) -> <Self::Scalar as Carrier>::Model;

    /// The dimension of the space.
    fn dimension() -> (r: usize)
        ensures
            r == Self::spec_dimension(),
    ;

    /// The `i`-th canonical basis vector.
    fn canonical_basis_element(i: usize) -> (r: Self)
        requires
            i < Self::spec_dimension(),
        ensures
            r.model() == Self::spec_canonical_basis_element(i),
    ;

    /// Visits the canonical basis vectors in order until `f` returns `true`.
    fn canonical_basis<F: Fn(&Self) -> bool>(f: F)
        requires
            forall|v: &Self| #[trigger] f.requires((v,)),
    {
        let d = Self::dimension();
        let mut i: usize = 0;
        while i < d
            invariant
                d == Self::spec_dimension(),
                forall|v: &Self| #[trigger] f.requires((v,)),
            decreases d - i,
        {
            let e = Self::canonical_basis_element(i);
            if f(&e) {
                break;
            }
            i += 1;
        }
    }

    /// The coordinate-wise dot product `⟨self, other⟩` in the field.
    fn dot(&self, other: &Self) -> (r: Self::Scalar)
        ensures
            r.model() == Self::spec_dot(self.model(), other.model()),
    ;
}

/// `v` with its projections on `us` taken out one after the other (the
/// modified Gram–Schmidt step): `v − ⟨v, u₀⟩u₀`, then the same with `u₁`
/// on the result, and so on.
pub open spec fn residual<Oa: Operator, Om: Operator, T: InnerSpace<Oa, Om>>(
    v: T::Model,
    us: Seq<T::Model>,
) -> T::Model where T::Scalar: Field<Oa, Om>
    decreases us.len(),
{
    if us.len() == 0 {
        v
    } else {
        let w = residual::<Oa, Om, T>(v, us.drop_last());
        let u = us.last();
        <T as Magma<Oa>>::spec_combine(
            w,
            <T as Group<Oa>>::spec_inverse(T::spec_scale_real(u, T::spec_inner_product(w, u))),
        )
    }
}

/// `w / ‖w‖` on models.
pub open spec fn unit<Oa: Operator, Om: Operator, T: InnerSpace<Oa, Om>>(w: T::Model) -> T::Model where
    T::Scalar: Field<Oa, Om>,
 {
    T::spec_scale_real(w, real_inv::<T::RealField>(T::RealField::spec_sqrt(T::spec_norm_squared(w))))
}

/// The output of modified Gram–Schmidt on `vs`, keeping the `i`-th input
/// exactly when `keep[i]`: each kept input contributes the normalized
/// residual of it against the outputs so far.
pub open spec fn gram_schmidt<Oa: Operator, Om: Operator, T: InnerSpace<Oa, Om>>(
    vs: Seq<T::Model>,
    keep: Seq<bool>,
) -> Seq<T::Model> where T::Scalar: Field<Oa, Om>
    decreases vs.len(),
{
    if vs.len() == 0 {
        Seq::empty()
    } else {
        let out = gram_schmidt::<Oa, Om, T>(vs.drop_last(), keep.drop_last());
        if keep.last() {
            out.push(unit::<Oa, Om, T>(residual::<Oa, Om, T>(vs.last(), out)))
        } else {
            out
        }
    }
}

/// Whether Gram–Schmidt keeps the `i`-th of `vs` (with the earlier choices
/// `keep`): the norm of its residual against the outputs so far is greater
/// than zero in the real field's order.
pub open spec fn kept_at<Oa: Operator, Om: Operator, T: InnerSpace<Oa, Om>>(
    vs: Seq<T::Model>,
    keep: Seq<bool>,
    i: int,
) -> bool where T::Scalar: Field<Oa, Om> {
    T::RealField::spec_gt(
        T::RealField::spec_sqrt(
            T::spec_norm_squared(
                residual::<Oa, Om, T>(vs[i], gram_schmidt::<Oa, Om, T>(vs.take(i), keep.take(i))),
            ),
        ),
        <T::RealField as Monoid<Additive>>::spec_identity(),
    )
}

/// The models of a sequence of elements.
pub open spec fn models<T: Carrier>(s: Seq<T>) -> Seq<T::Model> {
    s.map_values(|x: T| x.model())
}

/// A finite-dimensional inner-product space: Gram–Schmidt orthogonalization.
pub trait FiniteDimInnerSpace<Oa: Operator, Om: Operator>: FiniteDimVectorSpace<Oa, Om> + InnerSpace<
    Oa,
    Om,
> where Self::Scalar: Field<Oa, Om> {
    /// Modified Gram–Schmidt: orthonormalizes the vectors in place and
    /// returns the count `k` of output vectors, which fill the first `k`
    /// slots; the rest are left as they were. An input is kept when its
    /// residual's norm is greater than zero in the real field's order
    /// (where that field follows its `partial_cmp` specification).
    fn orthonormalize(vs: &mut [Self]) -> (k: usize) where Self: Copy
        ensures
            k <= old(vs)@.len(),
            final(vs)@.len() == old(vs)@.len(),
            final(vs)@.skip(k as int) == old(vs)@.skip(k as int),
            exists|keep: Seq<bool>|
                {
                    &&& #[trigger] keep.len() == old(vs)@.len()
                    &&& gram_schmidt::<Oa, Om, Self>(models(old(vs)@), keep) == models(
                        final(vs)@.take(k as int),
                    )
                    &&& order_obeyed::<Self::RealField>() ==> forall|i: int|
                        0 <= i < keep.len() ==> (keep[i] <==> #[trigger] kept_at::<Oa, Om, Self>(
                            models(old(vs)@),
                            keep,
                            i,
                        ))
                },
    {
        let ghost orig = vs@;
        let ghost mut keep: Seq<bool> = Seq::empty();
        // The zero of the real field.
        let zero = <Self::RealField as Monoid<Additive>>::identity();
        let mut k: usize = 0;
        let n = vs.len();
        let mut i: usize = 0;
        while i < n
            invariant
                n == vs@.len(),
                orig.len() == n,
                k <= i <= n,
                keep.len() == i,
                vs@.skip(k as int) == orig.skip(k as int),
                gram_schmidt::<Oa, Om, Self>(models(orig.take(i as int)), keep) == models(
                    vs@.take(k as int),
                ),
                zero.model() == <Self::RealField as Monoid<Additive>>::spec_identity(),
                order_obeyed::<Self::RealField>() ==> forall|t: int|
                    0 <= t < i ==> (keep[t] <==> #[trigger] kept_at::<Oa, Om, Self>(
                        models(orig),
                        keep,
                        t,
                    )),
            decreases n - i,
        {
            let mut v = vs[i];
            let ghost outs = models(vs@.take(k as int));
            assert(v == orig[i as int]) by {
                assert(vs@.skip(k as int)[i - k] == orig.skip(k as int)[i - k]);
            }
            let mut j: usize = 0;
            while j < k
                invariant
                    k <= i < n,
                    n == vs@.len(),
                    orig.len() == n,
                    j <= k,
                    outs == models(vs@.take(k as int)),
                    v.model() == residual::<Oa, Om, Self>(orig[i as int].model(), outs.take(j as int)),
                decreases k - j,
            {
                let u = vs[j];
                // v -= ⟨v, uⱼ⟩·uⱼ
                let proj = v.inner_product(&u);
                let term = u.scale_real(proj);
                v = <Self as Magma<Oa>>::combine(&v, &<Self as Group<Oa>>::inverse(&term));
                assert(outs.take(j + 1).drop_last() =~= outs.take(j as int));
                j += 1;
            }
            assert(outs.take(k as int) =~= outs);
            let nv = v.norm();
            let kept = nv > zero;
            let ghost before = vs@;
            proof {
                Self::RealField::lemma_order_on_models(nv, zero);
                assert(models(orig.take(i + 1)).drop_last() =~= models(orig.take(i as int)));
                assert(keep.push(kept).drop_last() =~= keep);
                let old_keep = keep;
                keep = keep.push(kept);
                assert(models(orig).take(i as int) =~= models(orig.take(i as int)));
                assert(keep.take(i as int) =~= old_keep);
                assert(models(orig)[i as int] == orig[i as int].model());
                assert(kept_at::<Oa, Om, Self>(models(orig), keep, i as int)
                    == Self::RealField::spec_gt(nv.model(), zero.model()));
                assert forall|t: int| 0 <= t < i implies kept_at::<Oa, Om, Self>(models(orig), keep, t)
                    == kept_at::<Oa, Om, Self>(models(orig), old_keep, t) by {
                    assert(keep.take(t) =~= old_keep.take(t));
                }
                assert forall|t: int| 0 <= t <= i implies keep[t] == if t < i {
                    old_keep[t]
                } else {
                    kept
                } by {}
            }
            if kept {
                vs[k] = v.scale_real(nv.inv());
                assert(vs@.skip(k + 1) =~= orig.skip(k + 1)) by {
                    assert forall|t: int| 0 <= t < vs@.skip(k + 1).len() implies #[trigger] vs@.skip(k + 1)[t]
                        == orig.skip(k + 1)[t] by {
                        assert(before.skip(k as int)[t + 1] == orig.skip(k as int)[t + 1]);
                    }
                }
                assert(models(vs@.take(k + 1)) =~= models(before.take(k as int)).push(vs@[k as int].model()));
                k += 1;
            }
            i += 1;
        }
        assert(orig.take(n as int) =~= orig);
        k
    }
}

} // verus!
