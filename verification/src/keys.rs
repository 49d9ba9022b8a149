//! Key types for the collection impls.
//!
//! The standard maps and sets behave as their mathematical models
//! (`Map`, `Set`) only when the key's `Eq`, `Hash` and `Ord` agree with
//! equality of values. [`ModeledKey`] marks the key types for which that is
//! established: the primitive integers.
use vstd::prelude::*;

verus! {

/// A key whose equality, hashing and ordering follow its value, so that
/// `HashMap`, `HashSet`, `BTreeMap` and `BTreeSet` keyed by it behave as
/// finite maps and sets.
pub trait ModeledKey: Copy + Eq + core::hash::Hash + Ord {
    /// The key laws that the standard collections rely on.
    proof fn lemma_key_laws()
        ensures
            vstd::std_specs::hash::obeys_key_model::<Self>(),
            vstd::laws_cmp::obeys_cmp::<Self>(),
            vstd::std_specs::btree::key_obeys_cmp_spec::<Self>(),
    ;
}

impl ModeledKey for u8 {
    proof fn lemma_key_laws() {
    }
}

impl ModeledKey for u16 {
    proof fn lemma_key_laws() {
    }
}

impl ModeledKey for u32 {
    proof fn lemma_key_laws() {
    }
}

impl ModeledKey for u64 {
    proof fn lemma_key_laws() {
    }
}

impl ModeledKey for u128 {
    proof fn lemma_key_laws() {
    }
}

impl ModeledKey for usize {
    proof fn lemma_key_laws() {
    }
}

impl ModeledKey for i8 {
    proof fn lemma_key_laws() {
    }
}

impl ModeledKey for i16 {
    proof fn lemma_key_laws() {
    }
}

impl ModeledKey for i32 {
    proof fn lemma_key_laws() {
    }
}

impl ModeledKey for i64 {
    proof fn lemma_key_laws() {
    }
}

impl ModeledKey for i128 {
    proof fn lemma_key_laws() {
    }
}

impl ModeledKey for isize {
    proof fn lemma_key_laws() {
    }
}

} // verus!
