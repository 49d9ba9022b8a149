//! Matrices as an abstract interface.
//!
//! These traits describe what a matrix *is* in terms of the tower — a finite
//! `Field`-valued rectangular array with row/column vector spaces — without
//! pinning a representation. Downstream linear-algebra types implement
//! them; the tower supplies the vocabulary (`Field` cells,
//! `FiniteDimVectorSpace` rows/columns).
use crate::op::{Additive, Multiplicative};
use crate::tower::{Carrier, Field, FiniteDimVectorSpace, Monoid};
use vstd::prelude::*;

verus! {

/// The shape and entries of a rectangular array over a field: what the
/// contracts of [`Matrix`] speak of. The transpose of a matrix is bounded
/// by this trait rather than by `Matrix`, because an associated type bounded
/// by the very trait that declares it cannot be checked here.
pub trait MatrixEntries: Sized {
    /// The scalar field of the entries.
    type Field: Field<Additive, Multiplicative> + Copy;

    /// The number of rows.
    spec fn spec_nrows(&self) -> usize;

    /// The number of columns.
    spec fn spec_ncolumns(&self) -> usize;

    /// The entry at `(i, j)`, on models.
    spec fn spec_entry(&self, i: usize, j: usize) -> <Self::Field as Carrier>::Model;
}

/// A rectangular matrix: a `Field`-valued array with row/column spaces.
pub trait Matrix: MatrixEntries + Clone {
    /// The row space (a finite-dimensional vector space over the field).
    type Row: FiniteDimVectorSpace<Additive, Multiplicative, Scalar = Self::Field>;

    /// The column space.
    type Column: FiniteDimVectorSpace<Additive, Multiplicative, Scalar = Self::Field>;

    /// The transposed matrix type.
    type Transpose: MatrixEntries<Field = Self::Field>;

    /// The number of rows.
    fn nrows(&self) -> (r: usize)
        ensures
            r == self.spec_nrows(),
    ;

    /// The number of columns.
    fn ncolumns(&self) -> (r: usize)
        ensures
            r == self.spec_ncolumns(),
    ;

    /// The `i`-th row: its `j`-th coordinate (its dot product with the
    /// `j`-th canonical basis vector) is the entry at `(i, j)`.
    fn row(&self, i: usize) -> (r: Self::Row)
        requires
            i < self.spec_nrows(),
        ensures
            forall|j: usize|
                j < self.spec_ncolumns() ==> #[trigger] Self::Row::spec_dot(
                    r.model(),
                    Self::Row::spec_canonical_basis_element(j),
                ) == self.spec_entry(i, j),
    ;

    /// The `j`-th column: its `i`-th coordinate is the entry at `(i, j)`.
    fn column(&self, j: usize) -> (r: Self::Column)
        requires
            j < self.spec_ncolumns(),
        ensures
            forall|i: usize|
                i < self.spec_nrows() ==> #[trigger] Self::Column::spec_dot(
                    r.model(),
                    Self::Column::spec_canonical_basis_element(i),
                ) == self.spec_entry(i, j),
    ;

    /// The entry at `(i, j)`.
    fn get(&self, i: usize, j: usize) -> (r: Self::Field)
        requires
            i < self.spec_nrows(),
            j < self.spec_ncolumns(),
        ensures
            r.model() == self.spec_entry(i, j),
    ;

    /// The transpose: the entry at `(i, j)` moves to `(j, i)`.
    fn transpose(&self) -> (r: Self::Transpose)
        ensures
            r.spec_nrows() == self.spec_ncolumns(),
            r.spec_ncolumns() == self.spec_nrows(),
            forall|i: usize, j: usize|
                i < self.spec_nrows() && j < self.spec_ncolumns() ==> #[trigger] r.spec_entry(j, i)
                    == self.spec_entry(i, j),
    ;
}

/// A mutable matrix.
pub trait MatrixMut: Matrix {
    /// Sets the `i`-th row, returning the modified matrix.
    fn set_row(&self, i: usize, row: &Self::Row) -> (r: Self)
        requires
            i < self.spec_nrows(),
        ensures
            r.spec_nrows() == self.spec_nrows(),
            r.spec_ncolumns() == self.spec_ncolumns(),
            forall|a: usize, b: usize|
                a < self.spec_nrows() && b < self.spec_ncolumns() ==> #[trigger] r.spec_entry(a, b)
                    == if a == i {
                    Self::Row::spec_dot(row.model(), Self::Row::spec_canonical_basis_element(b))
                } else {
                    self.spec_entry(a, b)
                },
    ;

    /// Sets the `i`-th row in place.
    fn set_row_mut(&mut self, i: usize, row: &Self::Row)
        requires
            i < old(self).spec_nrows(),
        ensures
            final(self).spec_nrows() == old(self).spec_nrows(),
            final(self).spec_ncolumns() == old(self).spec_ncolumns(),
            forall|a: usize, b: usize|
                a < old(self).spec_nrows() && b < old(self).spec_ncolumns() ==> #[trigger] final(self).spec_entry(a, b) == if a == i {
                    Self::Row::spec_dot(row.model(), Self::Row::spec_canonical_basis_element(b))
                } else {
                    old(self).spec_entry(a, b)
                },
    ;

    /// Sets the `j`-th column, returning the modified matrix.
    fn set_column(&self, j: usize, column: &Self::Column) -> (r: Self)
        requires
            j < self.spec_ncolumns(),
        ensures
            r.spec_nrows() == self.spec_nrows(),
            r.spec_ncolumns() == self.spec_ncolumns(),
            forall|a: usize, b: usize|
                a < self.spec_nrows() && b < self.spec_ncolumns() ==> #[trigger] r.spec_entry(a, b)
                    == if b == j {
                    Self::Column::spec_dot(
                        column.model(),
                        Self::Column::spec_canonical_basis_element(a),
                    )
                } else {
                    self.spec_entry(a, b)
                },
    ;

    /// Sets the `j`-th column in place.
    fn set_column_mut(&mut self, j: usize, column: &Self::Column)
        requires
            j < old(self).spec_ncolumns(),
        ensures
            final(self).spec_nrows() == old(self).spec_nrows(),
            final(self).spec_ncolumns() == old(self).spec_ncolumns(),
            forall|a: usize, b: usize|
                a < old(self).spec_nrows() && b < old(self).spec_ncolumns() ==> #[trigger] final(self).spec_entry(a, b) == if b == j {
                    Self::Column::spec_dot(
                        column.model(),
                        Self::Column::spec_canonical_basis_element(a),
                    )
                } else {
                    old(self).spec_entry(a, b)
                },
    ;

    /// Sets the entry at `(i, j)` in place; the other entries and the
    /// shape stay.
    fn set(&mut self, i: usize, j: usize, val: Self::Field)
        requires
            i < old(self).spec_nrows(),
            j < old(self).spec_ncolumns(),
        ensures
            final(self).spec_nrows() == old(self).spec_nrows(),
            final(self).spec_ncolumns() == old(self).spec_ncolumns(),
            final(self).spec_entry(i, j) == val.model(),
            forall|a: usize, b: usize|
                a < old(self).spec_nrows() && b < old(self).spec_ncolumns() && (a != i || b != j)
                    ==> #[trigger] final(self).spec_entry(a, b) == old(self).spec_entry(a, b),
    ;
}

/// A square matrix: diagonal, determinant, inverse.
pub trait SquareMatrix: Matrix {
    /// The diagonal vector type (a finite-dimensional space over the field).
    type Vector: FiniteDimVectorSpace<Additive, Multiplicative, Scalar = Self::Field>;

    /// The dimension (`nrows == ncolumns`).
    fn dimension(&self) -> (r: usize)
        ensures
            r == self.spec_nrows(),
            r == self.spec_ncolumns(),
    ;

    /// The determinant, on models.
    spec fn spec_determinant(&self) -> <Self::Field as Carrier>::Model;

    /// The diagonal vector: its `i`-th coordinate is the entry at `(i, i)`.
    fn diagonal(&self) -> (r: Self::Vector)
        ensures
            forall|i: usize|
                i < self.spec_nrows() ==> #[trigger] Self::Vector::spec_dot(
                    r.model(),
                    Self::Vector::spec_canonical_basis_element(i),
                ) == self.spec_entry(i, i),
    ;

    /// The determinant.
    fn determinant(&self) -> (r: Self::Field)
        ensures
            r.model() == self.spec_determinant(),
    ;

    /// The inverse, `None` exactly for singular matrices (determinant
    /// zero).
    fn try_inverse(&self) -> (r: Option<Self>)
        ensures
            r is None <==> self.spec_determinant() == <Self::Field as Monoid<Additive>>::spec_identity(),
            r matches Some(m) ==> m.spec_nrows() == self.spec_nrows() && m.spec_ncolumns()
                == self.spec_ncolumns(),
    ;
}

/// A mutable square matrix.
pub trait SquareMatrixMut: SquareMatrix + MatrixMut {
    /// Transposes in place.
    fn transpose_mut(&mut self)
        ensures
            final(self).spec_nrows() == old(self).spec_nrows(),
            final(self).spec_ncolumns() == old(self).spec_ncolumns(),
            forall|i: usize, j: usize|
                i < old(self).spec_nrows() && j < old(self).spec_ncolumns() ==> #[trigger] final(self).spec_entry(j, i) == old(self).spec_entry(i, j),
    ;
}

/// An invertible square matrix: [`SquareMatrix::try_inverse`] is total.
pub trait InversibleSquareMatrix: SquareMatrix {
    /// Every such matrix is invertible: its determinant is nonzero.
    proof fn lemma_invertible(&self)
        ensures
            self.spec_determinant() != <Self::Field as Monoid<Additive>>::spec_identity(),
    ;

    /// The inverse (total — the matrix is guaranteed invertible).
    fn inverse(&self) -> (r: Self)
        ensures
            r.spec_nrows() == self.spec_nrows(),
            r.spec_ncolumns() == self.spec_ncolumns(),
    ;
}

} // verus!
