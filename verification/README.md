# alga2

Abstract algebra for Rust, with the laws of its own implementations
checked by Verus.

The crate describes algebraic structures as a tower of traits — magmas,
quasigroups, loops, semigroups, monoids, groups, rings, fields, modules,
vector spaces, lattices, normed and inner-product spaces, euclidean and
affine spaces, matrices and transformations — parametrised by an operator
marker (`Additive`, `Multiplicative`). Each trait states its laws as proof
obligations over a mathematical model of its carrier, so an implementation
only type-checks under Verus once it has proved them.

## Layout

- `src/op.rs` — operator markers.
- `src/tower/` — the trait tower and the laws that each level adds.
- `src/impls/` — proved implementations for the integers (wrapping
  arithmetic), `bool`, tuples, arrays, `Option`, `Vec`/`String` (free
  monoids), smart pointers, the std maps and sets (union monoids),
  residues, complex numbers and quaternions.
- `src/modn.rs`, `src/complex.rs`, `src/quaternion.rs` — the concrete
  number types.
- `src/derive.rs` — the derive macro's logic: option parsing, field
  analysis, the exact list of impls a derivation produces, and the Rust
  source of each impl (one `where` per impl, component-wise bodies). The
  impls it writes are ordinary Rust: their proof items are left empty, so
  Verus does not check the laws of a derived type.
- `app/lib.rs` — the macro front end: parses Rust items with `syn` and turns
  the source that `src/derive.rs` writes into tokens.
- `tests/` — executable tests of the library.
