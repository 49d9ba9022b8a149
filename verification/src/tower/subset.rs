//! Numeric subset/superset embedding.
//!
//! `SubsetOf<T>` says `Self` embeds into `T` and `T`'s values in the image
//! round-trip: every value of a narrower integer type is a value of a wider
//! one, and `from_superset` rejects the wider values outside the range.
use vstd::prelude::*;

verus! {

/// `Self` is a subset of `T`: every value of `Self` maps losslessly into
/// `T`, and the `T`-values in the embedded copy round-trip.
pub trait SubsetOf<T>: Sized {
    /// The embedding on values.
    spec fn spec_to_superset(&self) -> T;

    /// Whether a `T` value lies in the embedded copy.
    spec fn spec_is_in_subset(element: T) -> bool;

    /// The inverse of the embedding, meaningful on the embedded copy.
    spec fn spec_from_superset(element: T) -> Self;

    /// Round trip: every embedded value lies in the copy and maps back, and
    /// every value of the copy is the embedding of its preimage.
    proof fn lemma_round_trip(a: Self, element: T)
        ensures
            Self::spec_is_in_subset(a.spec_to_superset()),
            Self::spec_from_superset(a.spec_to_superset()) == a,
            Self::spec_is_in_subset(element) ==> Self::spec_from_superset(
                element,
            ).spec_to_superset() == element,
    ;

    /// The canonical embedding `Self → T`.
    fn to_superset(&self) -> (r: T)
        ensures
            r == self.spec_to_superset(),
    ;

    /// Whether `element` lies in the embedded copy of `Self`.
    fn is_in_subset(element: &T) -> (r: bool)
        ensures
            r == Self::spec_is_in_subset(*element),
    ;

    /// The inverse of `to_superset`; `None` outside the embedded copy.
    fn from_superset(element: &T) -> (r: Option<Self>)
        ensures
            r == (if Self::spec_is_in_subset(*element) {
                Some(Self::spec_from_superset(*element))
            } else {
                None
            }),
    {
        if Self::is_in_subset(element) {
            Some(Self::from_superset_unchecked(element))
        } else {
            None
        }
    }

    /// The inverse of `to_superset` without the subset check — only valid
    /// when `is_in_subset` holds.
    fn from_superset_unchecked(element: &T) -> (r: Self)
        requires
            Self::spec_is_in_subset(*element),
        ensures
            r == Self::spec_from_superset(*element),
    ;
}

/// `Self` is a superset of `T`: the dual of [`SubsetOf`], automatically
/// provided whenever `T: SubsetOf<Self>`.
pub trait SupersetOf<T>: Sized {
    /// The projection on values.
    spec fn spec_to_subset(&self) -> Option<T>;

    /// Whether `self` lies in the embedded copy of `T`.
    spec fn spec_in_subset(&self) -> bool;

    /// The embedding of a `T` value.
    spec fn spec_from_subset(element: T) -> Self;

    /// The canonical projection `Self → T`; `None` outside the subset.
    fn to_subset(&self) -> (r: Option<T>)
        ensures
            r == self.spec_to_subset(),
    ;

    /// The inverse of `to_subset` (total: every `T` value embeds).
    fn from_subset(element: &T) -> (r: Self)
        ensures
            r == Self::spec_from_subset(*element),
    ;

    /// Whether `self` lies in the embedded copy of `T`.
    fn is_in_subset(&self) -> (r: bool)
        ensures
            r == self.spec_in_subset(),
    ;
}

impl<SS, SP> SupersetOf<SS> for SP where SS: SubsetOf<SP> {
    open spec fn spec_to_subset(&self) -> Option<SS> {
        if SS::spec_is_in_subset(*self) {
            Some(SS::spec_from_superset(*self))
        } else {
            None
        }
    }

    open spec fn spec_in_subset(&self) -> bool {
        SS::spec_is_in_subset(*self)
    }

    open spec fn spec_from_subset(element: SS) -> SP {
        element.spec_to_superset()
    }

    fn to_subset(&self) -> (r: Option<SS>) {
        SS::from_superset(self)
    }

    fn from_subset(element: &SS) -> (r: Self) {
        element.to_superset()
    }

    fn is_in_subset(&self) -> (r: bool) {
        SS::is_in_subset(self)
    }
}

/// Embedding then projecting gives the value back: for every `a` of the
/// subset, `to_subset(from_subset(a)) == Some(a)`.
pub proof fn lemma_superset_round_trip<SS: SubsetOf<SP>, SP>(a: SS)
    ensures
        <SP as SupersetOf<SS>>::spec_to_subset(&<SP as SupersetOf<SS>>::spec_from_subset(a))
            == Some(a),
        <SP as SupersetOf<SS>>::spec_in_subset(&<SP as SupersetOf<SS>>::spec_from_subset(a)),
{
    SS::lemma_round_trip(a, a.spec_to_superset());
}

} // verus!
