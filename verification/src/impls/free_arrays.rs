//! Free-module impls for arrays of scalars: `[T; N]` is the free module
//! `Tᴺ` when the components are themselves scalars (the primitive integers,
//! `bool` = F₂, `ModN<P>`), with the standard basis.
use crate::modn::ModN;
use crate::op::{Additive, Multiplicative};
use crate::tower::{Carrier, FreeModule, Monoid};
use vstd::prelude::*;

verus! {

impl<const N: usize> FreeModule<Additive, Multiplicative> for [u8; N] {
    open spec fn spec_rank() -> usize {
        N
    }

    open spec fn spec_basis_element(i: usize) -> Seq<<u8 as Carrier>::Model> {
        Seq::new(
            N as nat,
            |k: int|
                if k == i {
                    <u8 as Monoid<Multiplicative>>::spec_identity()
                } else {
                    <u8 as Monoid<Additive>>::spec_identity()
                },
        )
    }

    open spec fn spec_coordinate(v: Seq<<u8 as Carrier>::Model>, i: usize) -> <u8 as Carrier>::Model {
        <u8 as FreeModule<Additive, Multiplicative>>::spec_coordinate(v[i as int], 0)
    }

    proof fn lemma_basis(i: usize, j: usize) {
        <u8 as Monoid<Additive>>::lemma_identity(<u8 as Monoid<Additive>>::spec_identity());
        <u8 as Monoid<Multiplicative>>::lemma_identity(<u8 as Monoid<Multiplicative>>::spec_identity());
    }

    fn rank() -> (r: usize) {
        N
    }

    fn basis_element(i: usize) -> (r: Self) {
        let mut a: [u8; N] = [<u8 as Monoid<Additive>>::identity(); N];
        if i < N {
            a[i] = <u8 as Monoid<Multiplicative>>::identity();
        }
        assert(a.model() =~= Self::spec_basis_element(i));
        a
    }

    fn coordinate(&self, i: usize) -> (r: u8) {
        <u8 as FreeModule<Additive, Multiplicative>>::coordinate(&self[i], 0)
    }
}

impl<const N: usize> FreeModule<Additive, Multiplicative> for [u16; N] {
    open spec fn spec_rank() -> usize {
        N
    }

    open spec fn spec_basis_element(i: usize) -> Seq<<u16 as Carrier>::Model> {
        Seq::new(
            N as nat,
            |k: int|
                if k == i {
                    <u16 as Monoid<Multiplicative>>::spec_identity()
                } else {
                    <u16 as Monoid<Additive>>::spec_identity()
                },
        )
    }

    open spec fn spec_coordinate(v: Seq<<u16 as Carrier>::Model>, i: usize) -> <u16 as Carrier>::Model {
        <u16 as FreeModule<Additive, Multiplicative>>::spec_coordinate(v[i as int], 0)
    }

    proof fn lemma_basis(i: usize, j: usize) {
        <u16 as Monoid<Additive>>::lemma_identity(<u16 as Monoid<Additive>>::spec_identity());
        <u16 as Monoid<Multiplicative>>::lemma_identity(<u16 as Monoid<Multiplicative>>::spec_identity());
    }

    fn rank() -> (r: usize) {
        N
    }

    fn basis_element(i: usize) -> (r: Self) {
        let mut a: [u16; N] = [<u16 as Monoid<Additive>>::identity(); N];
        if i < N {
            a[i] = <u16 as Monoid<Multiplicative>>::identity();
        }
        assert(a.model() =~= Self::spec_basis_element(i));
        a
    }

    fn coordinate(&self, i: usize) -> (r: u16) {
        <u16 as FreeModule<Additive, Multiplicative>>::coordinate(&self[i], 0)
    }
}

impl<const N: usize> FreeModule<Additive, Multiplicative> for [u32; N] {
    open spec fn spec_rank() -> usize {
        N
    }

    open spec fn spec_basis_element(i: usize) -> Seq<<u32 as Carrier>::Model> {
        Seq::new(
            N as nat,
            |k: int|
                if k == i {
                    <u32 as Monoid<Multiplicative>>::spec_identity()
                } else {
                    <u32 as Monoid<Additive>>::spec_identity()
                },
        )
    }

    open spec fn spec_coordinate(v: Seq<<u32 as Carrier>::Model>, i: usize) -> <u32 as Carrier>::Model {
        <u32 as FreeModule<Additive, Multiplicative>>::spec_coordinate(v[i as int], 0)
    }

    proof fn lemma_basis(i: usize, j: usize) {
        <u32 as Monoid<Additive>>::lemma_identity(<u32 as Monoid<Additive>>::spec_identity());
        <u32 as Monoid<Multiplicative>>::lemma_identity(<u32 as Monoid<Multiplicative>>::spec_identity());
    }

    fn rank() -> (r: usize) {
        N
    }

    fn basis_element(i: usize) -> (r: Self) {
        let mut a: [u32; N] = [<u32 as Monoid<Additive>>::identity(); N];
        if i < N {
            a[i] = <u32 as Monoid<Multiplicative>>::identity();
        }
        assert(a.model() =~= Self::spec_basis_element(i));
        a
    }

    fn coordinate(&self, i: usize) -> (r: u32) {
        <u32 as FreeModule<Additive, Multiplicative>>::coordinate(&self[i], 0)
    }
}

impl<const N: usize> FreeModule<Additive, Multiplicative> for [u64; N] {
    open spec fn spec_rank() -> usize {
        N
    }

    open spec fn spec_basis_element(i: usize) -> Seq<<u64 as Carrier>::Model> {
        Seq::new(
            N as nat,
            |k: int|
                if k == i {
                    <u64 as Monoid<Multiplicative>>::spec_identity()
                } else {
                    <u64 as Monoid<Additive>>::spec_identity()
                },
        )
    }

    open spec fn spec_coordinate(v: Seq<<u64 as Carrier>::Model>, i: usize) -> <u64 as Carrier>::Model {
        <u64 as FreeModule<Additive, Multiplicative>>::spec_coordinate(v[i as int], 0)
    }

    proof fn lemma_basis(i: usize, j: usize) {
        <u64 as Monoid<Additive>>::lemma_identity(<u64 as Monoid<Additive>>::spec_identity());
        <u64 as Monoid<Multiplicative>>::lemma_identity(<u64 as Monoid<Multiplicative>>::spec_identity());
    }

    fn rank() -> (r: usize) {
        N
    }

    fn basis_element(i: usize) -> (r: Self) {
        let mut a: [u64; N] = [<u64 as Monoid<Additive>>::identity(); N];
        if i < N {
            a[i] = <u64 as Monoid<Multiplicative>>::identity();
        }
        assert(a.model() =~= Self::spec_basis_element(i));
        a
    }

    fn coordinate(&self, i: usize) -> (r: u64) {
        <u64 as FreeModule<Additive, Multiplicative>>::coordinate(&self[i], 0)
    }
}

impl<const N: usize> FreeModule<Additive, Multiplicative> for [u128; N] {
    open spec fn spec_rank() -> usize {
        N
    }

    open spec fn spec_basis_element(i: usize) -> Seq<<u128 as Carrier>::Model> {
        Seq::new(
            N as nat,
            |k: int|
                if k == i {
                    <u128 as Monoid<Multiplicative>>::spec_identity()
                } else {
                    <u128 as Monoid<Additive>>::spec_identity()
                },
        )
    }

    open spec fn spec_coordinate(v: Seq<<u128 as Carrier>::Model>, i: usize) -> <u128 as Carrier>::Model {
        <u128 as FreeModule<Additive, Multiplicative>>::spec_coordinate(v[i as int], 0)
    }

    proof fn lemma_basis(i: usize, j: usize) {
        <u128 as Monoid<Additive>>::lemma_identity(<u128 as Monoid<Additive>>::spec_identity());
        <u128 as Monoid<Multiplicative>>::lemma_identity(<u128 as Monoid<Multiplicative>>::spec_identity());
    }

    fn rank() -> (r: usize) {
        N
    }

    fn basis_element(i: usize) -> (r: Self) {
        let mut a: [u128; N] = [<u128 as Monoid<Additive>>::identity(); N];
        if i < N {
            a[i] = <u128 as Monoid<Multiplicative>>::identity();
        }
        assert(a.model() =~= Self::spec_basis_element(i));
        a
    }

    fn coordinate(&self, i: usize) -> (r: u128) {
        <u128 as FreeModule<Additive, Multiplicative>>::coordinate(&self[i], 0)
    }
}

impl<const N: usize> FreeModule<Additive, Multiplicative> for [usize; N] {
    open spec fn spec_rank() -> usize {
        N
    }

    open spec fn spec_basis_element(i: usize) -> Seq<<usize as Carrier>::Model> {
        Seq::new(
            N as nat,
            |k: int|
                if k == i {
                    <usize as Monoid<Multiplicative>>::spec_identity()
                } else {
                    <usize as Monoid<Additive>>::spec_identity()
                },
        )
    }

    open spec fn spec_coordinate(v: Seq<<usize as Carrier>::Model>, i: usize) -> <usize as Carrier>::Model {
        <usize as FreeModule<Additive, Multiplicative>>::spec_coordinate(v[i as int], 0)
    }

    proof fn lemma_basis(i: usize, j: usize) {
        <usize as Monoid<Additive>>::lemma_identity(<usize as Monoid<Additive>>::spec_identity());
        <usize as Monoid<Multiplicative>>::lemma_identity(<usize as Monoid<Multiplicative>>::spec_identity());
    }

    fn rank() -> (r: usize) {
        N
    }

    fn basis_element(i: usize) -> (r: Self) {
        let mut a: [usize; N] = [<usize as Monoid<Additive>>::identity(); N];
        if i < N {
            a[i] = <usize as Monoid<Multiplicative>>::identity();
        }
        assert(a.model() =~= Self::spec_basis_element(i));
        a
    }

    fn coordinate(&self, i: usize) -> (r: usize) {
        <usize as FreeModule<Additive, Multiplicative>>::coordinate(&self[i], 0)
    }
}

impl<const N: usize> FreeModule<Additive, Multiplicative> for [i8; N] {
    open spec fn spec_rank() -> usize {
        N
    }

    open spec fn spec_basis_element(i: usize) -> Seq<<i8 as Carrier>::Model> {
        Seq::new(
            N as nat,
            |k: int|
                if k == i {
                    <i8 as Monoid<Multiplicative>>::spec_identity()
                } else {
                    <i8 as Monoid<Additive>>::spec_identity()
                },
        )
    }

    open spec fn spec_coordinate(v: Seq<<i8 as Carrier>::Model>, i: usize) -> <i8 as Carrier>::Model {
        <i8 as FreeModule<Additive, Multiplicative>>::spec_coordinate(v[i as int], 0)
    }

    proof fn lemma_basis(i: usize, j: usize) {
        <i8 as Monoid<Additive>>::lemma_identity(<i8 as Monoid<Additive>>::spec_identity());
        <i8 as Monoid<Multiplicative>>::lemma_identity(<i8 as Monoid<Multiplicative>>::spec_identity());
    }

    fn rank() -> (r: usize) {
        N
    }

    fn basis_element(i: usize) -> (r: Self) {
        let mut a: [i8; N] = [<i8 as Monoid<Additive>>::identity(); N];
        if i < N {
            a[i] = <i8 as Monoid<Multiplicative>>::identity();
        }
        assert(a.model() =~= Self::spec_basis_element(i));
        a
    }

    fn coordinate(&self, i: usize) -> (r: i8) {
        <i8 as FreeModule<Additive, Multiplicative>>::coordinate(&self[i], 0)
    }
}

impl<const N: usize> FreeModule<Additive, Multiplicative> for [i16; N] {
    open spec fn spec_rank() -> usize {
        N
    }

    open spec fn spec_basis_element(i: usize) -> Seq<<i16 as Carrier>::Model> {
        Seq::new(
            N as nat,
            |k: int|
                if k == i {
                    <i16 as Monoid<Multiplicative>>::spec_identity()
                } else {
                    <i16 as Monoid<Additive>>::spec_identity()
                },
        )
    }

    open spec fn spec_coordinate(v: Seq<<i16 as Carrier>::Model>, i: usize) -> <i16 as Carrier>::Model {
        <i16 as FreeModule<Additive, Multiplicative>>::spec_coordinate(v[i as int], 0)
    }

    proof fn lemma_basis(i: usize, j: usize) {
        <i16 as Monoid<Additive>>::lemma_identity(<i16 as Monoid<Additive>>::spec_identity());
        <i16 as Monoid<Multiplicative>>::lemma_identity(<i16 as Monoid<Multiplicative>>::spec_identity());
    }

    fn rank() -> (r: usize) {
        N
    }

    fn basis_element(i: usize) -> (r: Self) {
        let mut a: [i16; N] = [<i16 as Monoid<Additive>>::identity(); N];
        if i < N {
            a[i] = <i16 as Monoid<Multiplicative>>::identity();
        }
        assert(a.model() =~= Self::spec_basis_element(i));
        a
    }

    fn coordinate(&self, i: usize) -> (r: i16) {
        <i16 as FreeModule<Additive, Multiplicative>>::coordinate(&self[i], 0)
    }
}

impl<const N: usize> FreeModule<Additive, Multiplicative> for [i32; N] {
    open spec fn spec_rank() -> usize {
        N
    }

    open spec fn spec_basis_element(i: usize) -> Seq<<i32 as Carrier>::Model> {
        Seq::new(
            N as nat,
            |k: int|
                if k == i {
                    <i32 as Monoid<Multiplicative>>::spec_identity()
                } else {
                    <i32 as Monoid<Additive>>::spec_identity()
                },
        )
    }

    open spec fn spec_coordinate(v: Seq<<i32 as Carrier>::Model>, i: usize) -> <i32 as Carrier>::Model {
        <i32 as FreeModule<Additive, Multiplicative>>::spec_coordinate(v[i as int], 0)
    }

    proof fn lemma_basis(i: usize, j: usize) {
        <i32 as Monoid<Additive>>::lemma_identity(<i32 as Monoid<Additive>>::spec_identity());
        <i32 as Monoid<Multiplicative>>::lemma_identity(<i32 as Monoid<Multiplicative>>::spec_identity());
    }

    fn rank() -> (r: usize) {
        N
    }

    fn basis_element(i: usize) -> (r: Self) {
        let mut a: [i32; N] = [<i32 as Monoid<Additive>>::identity(); N];
        if i < N {
            a[i] = <i32 as Monoid<Multiplicative>>::identity();
        }
        assert(a.model() =~= Self::spec_basis_element(i));
        a
    }

    fn coordinate(&self, i: usize) -> (r: i32) {
        <i32 as FreeModule<Additive, Multiplicative>>::coordinate(&self[i], 0)
    }
}

impl<const N: usize> FreeModule<Additive, Multiplicative> for [i64; N] {
    open spec fn spec_rank() -> usize {
        N
    }

    open spec fn spec_basis_element(i: usize) -> Seq<<i64 as Carrier>::Model> {
        Seq::new(
            N as nat,
            |k: int|
                if k == i {
                    <i64 as Monoid<Multiplicative>>::spec_identity()
                } else {
                    <i64 as Monoid<Additive>>::spec_identity()
                },
        )
    }

    open spec fn spec_coordinate(v: Seq<<i64 as Carrier>::Model>, i: usize) -> <i64 as Carrier>::Model {
        <i64 as FreeModule<Additive, Multiplicative>>::spec_coordinate(v[i as int], 0)
    }

    proof fn lemma_basis(i: usize, j: usize) {
        <i64 as Monoid<Additive>>::lemma_identity(<i64 as Monoid<Additive>>::spec_identity());
        <i64 as Monoid<Multiplicative>>::lemma_identity(<i64 as Monoid<Multiplicative>>::spec_identity());
    }

    fn rank() -> (r: usize) {
        N
    }

    fn basis_element(i: usize) -> (r: Self) {
        let mut a: [i64; N] = [<i64 as Monoid<Additive>>::identity(); N];
        if i < N {
            a[i] = <i64 as Monoid<Multiplicative>>::identity();
        }
        assert(a.model() =~= Self::spec_basis_element(i));
        a
    }

    fn coordinate(&self, i: usize) -> (r: i64) {
        <i64 as FreeModule<Additive, Multiplicative>>::coordinate(&self[i], 0)
    }
}

impl<const N: usize> FreeModule<Additive, Multiplicative> for [i128; N] {
    open spec fn spec_rank() -> usize {
        N
    }

    open spec fn spec_basis_element(i: usize) -> Seq<<i128 as Carrier>::Model> {
        Seq::new(
            N as nat,
            |k: int|
                if k == i {
                    <i128 as Monoid<Multiplicative>>::spec_identity()
                } else {
                    <i128 as Monoid<Additive>>::spec_identity()
                },
        )
    }

    open spec fn spec_coordinate(v: Seq<<i128 as Carrier>::Model>, i: usize) -> <i128 as Carrier>::Model {
        <i128 as FreeModule<Additive, Multiplicative>>::spec_coordinate(v[i as int], 0)
    }

    proof fn lemma_basis(i: usize, j: usize) {
        <i128 as Monoid<Additive>>::lemma_identity(<i128 as Monoid<Additive>>::spec_identity());
        <i128 as Monoid<Multiplicative>>::lemma_identity(<i128 as Monoid<Multiplicative>>::spec_identity());
    }

    fn rank() -> (r: usize) {
        N
    }

    fn basis_element(i: usize) -> (r: Self) {
        let mut a: [i128; N] = [<i128 as Monoid<Additive>>::identity(); N];
        if i < N {
            a[i] = <i128 as Monoid<Multiplicative>>::identity();
        }
        assert(a.model() =~= Self::spec_basis_element(i));
        a
    }

    fn coordinate(&self, i: usize) -> (r: i128) {
        <i128 as FreeModule<Additive, Multiplicative>>::coordinate(&self[i], 0)
    }
}

impl<const N: usize> FreeModule<Additive, Multiplicative> for [isize; N] {
    open spec fn spec_rank() -> usize {
        N
    }

    open spec fn spec_basis_element(i: usize) -> Seq<<isize as Carrier>::Model> {
        Seq::new(
            N as nat,
            |k: int|
                if k == i {
                    <isize as Monoid<Multiplicative>>::spec_identity()
                } else {
                    <isize as Monoid<Additive>>::spec_identity()
                },
        )
    }

    open spec fn spec_coordinate(v: Seq<<isize as Carrier>::Model>, i: usize) -> <isize as Carrier>::Model {
        <isize as FreeModule<Additive, Multiplicative>>::spec_coordinate(v[i as int], 0)
    }

    proof fn lemma_basis(i: usize, j: usize) {
        <isize as Monoid<Additive>>::lemma_identity(<isize as Monoid<Additive>>::spec_identity());
        <isize as Monoid<Multiplicative>>::lemma_identity(<isize as Monoid<Multiplicative>>::spec_identity());
    }

    fn rank() -> (r: usize) {
        N
    }

    fn basis_element(i: usize) -> (r: Self) {
        let mut a: [isize; N] = [<isize as Monoid<Additive>>::identity(); N];
        if i < N {
            a[i] = <isize as Monoid<Multiplicative>>::identity();
        }
        assert(a.model() =~= Self::spec_basis_element(i));
        a
    }

    fn coordinate(&self, i: usize) -> (r: isize) {
        <isize as FreeModule<Additive, Multiplicative>>::coordinate(&self[i], 0)
    }
}

impl<const N: usize> FreeModule<Additive, Multiplicative> for [bool; N] {
    open spec fn spec_rank() -> usize {
        N
    }

    open spec fn spec_basis_element(i: usize) -> Seq<<bool as Carrier>::Model> {
        Seq::new(
            N as nat,
            |k: int|
                if k == i {
                    <bool as Monoid<Multiplicative>>::spec_identity()
                } else {
                    <bool as Monoid<Additive>>::spec_identity()
                },
        )
    }

    open spec fn spec_coordinate(v: Seq<<bool as Carrier>::Model>, i: usize) -> <bool as Carrier>::Model {
        <bool as FreeModule<Additive, Multiplicative>>::spec_coordinate(v[i as int], 0)
    }

    proof fn lemma_basis(i: usize, j: usize) {
        <bool as Monoid<Additive>>::lemma_identity(<bool as Monoid<Additive>>::spec_identity());
        <bool as Monoid<Multiplicative>>::lemma_identity(<bool as Monoid<Multiplicative>>::spec_identity());
    }

    fn rank() -> (r: usize) {
        N
    }

    fn basis_element(i: usize) -> (r: Self) {
        let mut a: [bool; N] = [<bool as Monoid<Additive>>::identity(); N];
        if i < N {
            a[i] = <bool as Monoid<Multiplicative>>::identity();
        }
        assert(a.model() =~= Self::spec_basis_element(i));
        a
    }

    fn coordinate(&self, i: usize) -> (r: bool) {
        <bool as FreeModule<Additive, Multiplicative>>::coordinate(&self[i], 0)
    }
}

impl<const P: usize, const N: usize> FreeModule<Additive, Multiplicative> for [ModN<P>; N] {
    open spec fn spec_rank() -> usize {
        N
    }

    open spec fn spec_basis_element(i: usize) -> Seq<<ModN<P> as Carrier>::Model> {
        Seq::new(
            N as nat,
            |k: int|
                if k == i {
                    <ModN<P> as Monoid<Multiplicative>>::spec_identity()
                } else {
                    <ModN<P> as Monoid<Additive>>::spec_identity()
                },
        )
    }

    open spec fn spec_coordinate(v: Seq<<ModN<P> as Carrier>::Model>, i: usize) -> <ModN<P> as Carrier>::Model {
        <ModN<P> as FreeModule<Additive, Multiplicative>>::spec_coordinate(v[i as int], 0)
    }

    proof fn lemma_basis(i: usize, j: usize) {
        <ModN<P> as Monoid<Additive>>::lemma_identity(<ModN<P> as Monoid<Additive>>::spec_identity());
        <ModN<P> as Monoid<Multiplicative>>::lemma_identity(<ModN<P> as Monoid<Multiplicative>>::spec_identity());
    }

    fn rank() -> (r: usize) {
        N
    }

    fn basis_element(i: usize) -> (r: Self) {
        let mut a: [ModN<P>; N] = [<ModN<P> as Monoid<Additive>>::identity(); N];
        if i < N {
            a[i] = <ModN<P> as Monoid<Multiplicative>>::identity();
        }
        assert(a.model() =~= Self::spec_basis_element(i));
        a
    }

    fn coordinate(&self, i: usize) -> (r: ModN<P>) {
        <ModN<P> as FreeModule<Additive, Multiplicative>>::coordinate(&self[i], 0)
    }
}

} // verus!
