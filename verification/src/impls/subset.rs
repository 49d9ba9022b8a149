//! Subset impls: the lossless integer embeddings — each unsigned type in
//! the next wider unsigned and signed ones, each signed type in the next
//! wider signed one. A wider value is in the subset exactly when it lies in
//! the narrower type's range.
use crate::tower::SubsetOf;
use vstd::prelude::*;

verus! {

impl SubsetOf<u16> for u8 {
    open spec fn spec_to_superset(&self) -> u16 {
        *self as u16
    }

    open spec fn spec_is_in_subset(element: u16) -> bool {
        element <= u8::MAX
    }

    open spec fn spec_from_superset(element: u16) -> u8 {
        element as u8
    }

    proof fn lemma_round_trip(a: u8, element: u16) {
    }

    fn to_superset(&self) -> (r: u16) {
        *self as u16
    }

    fn is_in_subset(element: &u16) -> (r: bool) {
        *element <= u8::MAX as u16
    }

    fn from_superset_unchecked(element: &u16) -> (r: u8) {
        *element as u8
    }
}

impl SubsetOf<u32> for u16 {
    open spec fn spec_to_superset(&self) -> u32 {
        *self as u32
    }

    open spec fn spec_is_in_subset(element: u32) -> bool {
        element <= u16::MAX
    }

    open spec fn spec_from_superset(element: u32) -> u16 {
        element as u16
    }

    proof fn lemma_round_trip(a: u16, element: u32) {
    }

    fn to_superset(&self) -> (r: u32) {
        *self as u32
    }

    fn is_in_subset(element: &u32) -> (r: bool) {
        *element <= u16::MAX as u32
    }

    fn from_superset_unchecked(element: &u32) -> (r: u16) {
        *element as u16
    }
}

impl SubsetOf<u64> for u32 {
    open spec fn spec_to_superset(&self) -> u64 {
        *self as u64
    }

    open spec fn spec_is_in_subset(element: u64) -> bool {
        element <= u32::MAX
    }

    open spec fn spec_from_superset(element: u64) -> u32 {
        element as u32
    }

    proof fn lemma_round_trip(a: u32, element: u64) {
    }

    fn to_superset(&self) -> (r: u64) {
        *self as u64
    }

    fn is_in_subset(element: &u64) -> (r: bool) {
        *element <= u32::MAX as u64
    }

    fn from_superset_unchecked(element: &u64) -> (r: u32) {
        *element as u32
    }
}

impl SubsetOf<u128> for u64 {
    open spec fn spec_to_superset(&self) -> u128 {
        *self as u128
    }

    open spec fn spec_is_in_subset(element: u128) -> bool {
        element <= u64::MAX
    }

    open spec fn spec_from_superset(element: u128) -> u64 {
        element as u64
    }

    proof fn lemma_round_trip(a: u64, element: u128) {
    }

    fn to_superset(&self) -> (r: u128) {
        *self as u128
    }

    fn is_in_subset(element: &u128) -> (r: bool) {
        *element <= u64::MAX as u128
    }

    fn from_superset_unchecked(element: &u128) -> (r: u64) {
        *element as u64
    }
}

impl SubsetOf<i16> for i8 {
    open spec fn spec_to_superset(&self) -> i16 {
        *self as i16
    }

    open spec fn spec_is_in_subset(element: i16) -> bool {
        i8::MIN <= element <= i8::MAX
    }

    open spec fn spec_from_superset(element: i16) -> i8 {
        element as i8
    }

    proof fn lemma_round_trip(a: i8, element: i16) {
    }

    fn to_superset(&self) -> (r: i16) {
        *self as i16
    }

    fn is_in_subset(element: &i16) -> (r: bool) {
        i8::MIN as i16 <= *element && *element <= i8::MAX as i16
    }

    fn from_superset_unchecked(element: &i16) -> (r: i8) {
        *element as i8
    }
}

impl SubsetOf<i32> for i16 {
    open spec fn spec_to_superset(&self) -> i32 {
        *self as i32
    }

    open spec fn spec_is_in_subset(element: i32) -> bool {
        i16::MIN <= element <= i16::MAX
    }

    open spec fn spec_from_superset(element: i32) -> i16 {
        element as i16
    }

    proof fn lemma_round_trip(a: i16, element: i32) {
    }

    fn to_superset(&self) -> (r: i32) {
        *self as i32
    }

    fn is_in_subset(element: &i32) -> (r: bool) {
        i16::MIN as i32 <= *element && *element <= i16::MAX as i32
    }

    fn from_superset_unchecked(element: &i32) -> (r: i16) {
        *element as i16
    }
}

impl SubsetOf<i64> for i32 {
    open spec fn spec_to_superset(&self) -> i64 {
        *self as i64
    }

    open spec fn spec_is_in_subset(element: i64) -> bool {
        i32::MIN <= element <= i32::MAX
    }

    open spec fn spec_from_superset(element: i64) -> i32 {
        element as i32
    }

    proof fn lemma_round_trip(a: i32, element: i64) {
    }

    fn to_superset(&self) -> (r: i64) {
        *self as i64
    }

    fn is_in_subset(element: &i64) -> (r: bool) {
        i32::MIN as i64 <= *element && *element <= i32::MAX as i64
    }

    fn from_superset_unchecked(element: &i64) -> (r: i32) {
        *element as i32
    }
}

impl SubsetOf<i128> for i64 {
    open spec fn spec_to_superset(&self) -> i128 {
        *self as i128
    }

    open spec fn spec_is_in_subset(element: i128) -> bool {
        i64::MIN <= element <= i64::MAX
    }

    open spec fn spec_from_superset(element: i128) -> i64 {
        element as i64
    }

    proof fn lemma_round_trip(a: i64, element: i128) {
    }

    fn to_superset(&self) -> (r: i128) {
        *self as i128
    }

    fn is_in_subset(element: &i128) -> (r: bool) {
        i64::MIN as i128 <= *element && *element <= i64::MAX as i128
    }

    fn from_superset_unchecked(element: &i128) -> (r: i64) {
        *element as i64
    }
}

impl SubsetOf<i16> for u8 {
    open spec fn spec_to_superset(&self) -> i16 {
        *self as i16
    }

    open spec fn spec_is_in_subset(element: i16) -> bool {
        0 <= element <= u8::MAX
    }

    open spec fn spec_from_superset(element: i16) -> u8 {
        element as u8
    }

    proof fn lemma_round_trip(a: u8, element: i16) {
    }

    fn to_superset(&self) -> (r: i16) {
        *self as i16
    }

    fn is_in_subset(element: &i16) -> (r: bool) {
        0 <= *element && *element <= u8::MAX as i16
    }

    fn from_superset_unchecked(element: &i16) -> (r: u8) {
        *element as u8
    }
}

impl SubsetOf<i32> for u16 {
    open spec fn spec_to_superset(&self) -> i32 {
        *self as i32
    }

    open spec fn spec_is_in_subset(element: i32) -> bool {
        0 <= element <= u16::MAX
    }

    open spec fn spec_from_superset(element: i32) -> u16 {
        element as u16
    }

    proof fn lemma_round_trip(a: u16, element: i32) {
    }

    fn to_superset(&self) -> (r: i32) {
        *self as i32
    }

    fn is_in_subset(element: &i32) -> (r: bool) {
        0 <= *element && *element <= u16::MAX as i32
    }

    fn from_superset_unchecked(element: &i32) -> (r: u16) {
        *element as u16
    }
}

impl SubsetOf<i64> for u32 {
    open spec fn spec_to_superset(&self) -> i64 {
        *self as i64
    }

    open spec fn spec_is_in_subset(element: i64) -> bool {
        0 <= element <= u32::MAX
    }

    open spec fn spec_from_superset(element: i64) -> u32 {
        element as u32
    }

    proof fn lemma_round_trip(a: u32, element: i64) {
    }

    fn to_superset(&self) -> (r: i64) {
        *self as i64
    }

    fn is_in_subset(element: &i64) -> (r: bool) {
        0 <= *element && *element <= u32::MAX as i64
    }

    fn from_superset_unchecked(element: &i64) -> (r: u32) {
        *element as u32
    }
}

impl SubsetOf<i128> for u64 {
    open spec fn spec_to_superset(&self) -> i128 {
        *self as i128
    }

    open spec fn spec_is_in_subset(element: i128) -> bool {
        0 <= element <= u64::MAX
    }

    open spec fn spec_from_superset(element: i128) -> u64 {
        element as u64
    }

    proof fn lemma_round_trip(a: u64, element: i128) {
    }

    fn to_superset(&self) -> (r: i128) {
        *self as i128
    }

    fn is_in_subset(element: &i128) -> (r: bool) {
        0 <= *element && *element <= u64::MAX as i128
    }

    fn from_superset_unchecked(element: &i128) -> (r: u64) {
        *element as u64
    }
}

} // verus!
