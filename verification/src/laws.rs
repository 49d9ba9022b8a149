//! Laws that pin down what the operations of the crate are for, stated
//! over their inputs and results rather than over their definitions: the
//! integer embeddings keep values, the trace of a complex number is the sum
//! of its conjugates, and the `bool` lattice is the order `false < true`.
//! (What the derive writes is pinned down beside it, in
//! [`crate::derive`]: `lemma_plans_forward_their_method`,
//! `lemma_rendered_items_forward`, `lemma_pieces_call_their_method`.)
use crate::complex::Complex;
use crate::op::{Additive, Multiplicative};
use crate::tower::{
    BoundedLattice, Carrier, ComplexField, FieldExtension, Group, JoinSemilattice, Magma,
    MeetSemilattice, Monoid, Real, SubsetOf,
};
use vstd::prelude::*;

verus! {

/// `u8` embeds in `u16` keeping its value; the embedded copy is exactly
/// the `u16` values within `u8`'s range, each of which maps back to itself.
pub proof fn lemma_u8_into_u16(a: u8, e: u16)
    ensures
        <u8 as SubsetOf<u16>>::spec_to_superset(&a) as int == a as int,
        <u8 as SubsetOf<u16>>::spec_is_in_subset(e) == (u8::MIN as int <= e as int <= u8::MAX as int),
        <u8 as SubsetOf<u16>>::spec_is_in_subset(e) ==> <u8 as SubsetOf<u16>>::spec_from_superset(e) as int
            == e as int,
{
}

/// `u16` embeds in `u32` keeping its value; the embedded copy is exactly
/// the `u32` values within `u16`'s range, each of which maps back to itself.
pub proof fn lemma_u16_into_u32(a: u16, e: u32)
    ensures
        <u16 as SubsetOf<u32>>::spec_to_superset(&a) as int == a as int,
        <u16 as SubsetOf<u32>>::spec_is_in_subset(e) == (u16::MIN as int <= e as int <= u16::MAX as int),
        <u16 as SubsetOf<u32>>::spec_is_in_subset(e) ==> <u16 as SubsetOf<u32>>::spec_from_superset(e) as int
            == e as int,
{
}

/// `u32` embeds in `u64` keeping its value; the embedded copy is exactly
/// the `u64` values within `u32`'s range, each of which maps back to itself.
pub proof fn lemma_u32_into_u64(a: u32, e: u64)
    ensures
        <u32 as SubsetOf<u64>>::spec_to_superset(&a) as int == a as int,
        <u32 as SubsetOf<u64>>::spec_is_in_subset(e) == (u32::MIN as int <= e as int <= u32::MAX as int),
        <u32 as SubsetOf<u64>>::spec_is_in_subset(e) ==> <u32 as SubsetOf<u64>>::spec_from_superset(e) as int
            == e as int,
{
}

/// `u64` embeds in `u128` keeping its value; the embedded copy is exactly
/// the `u128` values within `u64`'s range, each of which maps back to itself.
pub proof fn lemma_u64_into_u128(a: u64, e: u128)
    ensures
        <u64 as SubsetOf<u128>>::spec_to_superset(&a) as int == a as int,
        <u64 as SubsetOf<u128>>::spec_is_in_subset(e) == (u64::MIN as int <= e as int <= u64::MAX as int),
        <u64 as SubsetOf<u128>>::spec_is_in_subset(e) ==> <u64 as SubsetOf<u128>>::spec_from_superset(e) as int
            == e as int,
{
}

/// `i8` embeds in `i16` keeping its value; the embedded copy is exactly
/// the `i16` values within `i8`'s range, each of which maps back to itself.
pub proof fn lemma_i8_into_i16(a: i8, e: i16)
    ensures
        <i8 as SubsetOf<i16>>::spec_to_superset(&a) as int == a as int,
        <i8 as SubsetOf<i16>>::spec_is_in_subset(e) == (i8::MIN as int <= e as int <= i8::MAX as int),
        <i8 as SubsetOf<i16>>::spec_is_in_subset(e) ==> <i8 as SubsetOf<i16>>::spec_from_superset(e) as int
            == e as int,
{
}

/// `i16` embeds in `i32` keeping its value; the embedded copy is exactly
/// the `i32` values within `i16`'s range, each of which maps back to itself.
pub proof fn lemma_i16_into_i32(a: i16, e: i32)
    ensures
        <i16 as SubsetOf<i32>>::spec_to_superset(&a) as int == a as int,
        <i16 as SubsetOf<i32>>::spec_is_in_subset(e) == (i16::MIN as int <= e as int <= i16::MAX as int),
        <i16 as SubsetOf<i32>>::spec_is_in_subset(e) ==> <i16 as SubsetOf<i32>>::spec_from_superset(e) as int
            == e as int,
{
}

/// `i32` embeds in `i64` keeping its value; the embedded copy is exactly
/// the `i64` values within `i32`'s range, each of which maps back to itself.
pub proof fn lemma_i32_into_i64(a: i32, e: i64)
    ensures
        <i32 as SubsetOf<i64>>::spec_to_superset(&a) as int == a as int,
        <i32 as SubsetOf<i64>>::spec_is_in_subset(e) == (i32::MIN as int <= e as int <= i32::MAX as int),
        <i32 as SubsetOf<i64>>::spec_is_in_subset(e) ==> <i32 as SubsetOf<i64>>::spec_from_superset(e) as int
            == e as int,
{
}

/// `i64` embeds in `i128` keeping its value; the embedded copy is exactly
/// the `i128` values within `i64`'s range, each of which maps back to itself.
pub proof fn lemma_i64_into_i128(a: i64, e: i128)
    ensures
        <i64 as SubsetOf<i128>>::spec_to_superset(&a) as int == a as int,
        <i64 as SubsetOf<i128>>::spec_is_in_subset(e) == (i64::MIN as int <= e as int <= i64::MAX as int),
        <i64 as SubsetOf<i128>>::spec_is_in_subset(e) ==> <i64 as SubsetOf<i128>>::spec_from_superset(e) as int
            == e as int,
{
}

/// `u8` embeds in `i16` keeping its value; the embedded copy is exactly
/// the `i16` values within `u8`'s range, each of which maps back to itself.
pub proof fn lemma_u8_into_i16(a: u8, e: i16)
    ensures
        <u8 as SubsetOf<i16>>::spec_to_superset(&a) as int == a as int,
        <u8 as SubsetOf<i16>>::spec_is_in_subset(e) == (u8::MIN as int <= e as int <= u8::MAX as int),
        <u8 as SubsetOf<i16>>::spec_is_in_subset(e) ==> <u8 as SubsetOf<i16>>::spec_from_superset(e) as int
            == e as int,
{
}

/// `u16` embeds in `i32` keeping its value; the embedded copy is exactly
/// the `i32` values within `u16`'s range, each of which maps back to itself.
pub proof fn lemma_u16_into_i32(a: u16, e: i32)
    ensures
        <u16 as SubsetOf<i32>>::spec_to_superset(&a) as int == a as int,
        <u16 as SubsetOf<i32>>::spec_is_in_subset(e) == (u16::MIN as int <= e as int <= u16::MAX as int),
        <u16 as SubsetOf<i32>>::spec_is_in_subset(e) ==> <u16 as SubsetOf<i32>>::spec_from_superset(e) as int
            == e as int,
{
}

/// `u32` embeds in `i64` keeping its value; the embedded copy is exactly
/// the `i64` values within `u32`'s range, each of which maps back to itself.
pub proof fn lemma_u32_into_i64(a: u32, e: i64)
    ensures
        <u32 as SubsetOf<i64>>::spec_to_superset(&a) as int == a as int,
        <u32 as SubsetOf<i64>>::spec_is_in_subset(e) == (u32::MIN as int <= e as int <= u32::MAX as int),
        <u32 as SubsetOf<i64>>::spec_is_in_subset(e) ==> <u32 as SubsetOf<i64>>::spec_from_superset(e) as int
            == e as int,
{
}

/// `u64` embeds in `i128` keeping its value; the embedded copy is exactly
/// the `i128` values within `u64`'s range, each of which maps back to itself.
pub proof fn lemma_u64_into_i128(a: u64, e: i128)
    ensures
        <u64 as SubsetOf<i128>>::spec_to_superset(&a) as int == a as int,
        <u64 as SubsetOf<i128>>::spec_is_in_subset(e) == (u64::MIN as int <= e as int <= u64::MAX as int),
        <u64 as SubsetOf<i128>>::spec_is_in_subset(e) ==> <u64 as SubsetOf<i128>>::spec_from_superset(e) as int
            == e as int,
{
}

/// The trace of a complex number is the sum of its conjugates: as a complex
/// number, `Tr(z) == z + z̄`; in particular `Tr(1) == 1 + 1`, the degree.
pub proof fn lemma_complex_trace<T: Real + Copy>(z: (T::Model, T::Model))
    requires
        Complex::<T>::contains(z),
    ensures
        <Complex<T> as ComplexField>::spec_from_real(
            <Complex<T> as FieldExtension<Additive, Multiplicative>>::spec_trace(z),
        ) == <Complex<T> as Magma<Additive>>::spec_combine(
            z,
            <Complex<T> as ComplexField>::spec_conjugate(z),
        ),
        <Complex<T> as FieldExtension<Additive, Multiplicative>>::spec_trace(
            <Complex<T> as Monoid<Multiplicative>>::spec_identity(),
        ) == <T as Magma<Additive>>::spec_combine(
            <T as Monoid<Multiplicative>>::spec_identity(),
            <T as Monoid<Multiplicative>>::spec_identity(),
        ),
{
    <T as Group<Additive>>::lemma_inverse(z.1);
}

/// The `bool` lattice is the order `false < true`: `a ≤ b` exactly when `a`
/// implies `b`, the meet is the smaller of the two and the join the larger,
/// `true` is the top and `false` the bottom.
pub proof fn lemma_bool_lattice_order(a: bool, b: bool)
    ensures
        (<bool as MeetSemilattice>::spec_meet(a, b) == a) == (a ==> b),
        (<bool as JoinSemilattice>::spec_join(a, b) == b) == (a ==> b),
        <bool as MeetSemilattice>::spec_meet(a, b) == (if a ==> b { a } else { b }),
        <bool as JoinSemilattice>::spec_join(a, b) == (if a ==> b { b } else { a }),
        <bool as BoundedLattice>::spec_top() == true,
        <bool as BoundedLattice>::spec_bottom() == false,
{
}

} // verus!
