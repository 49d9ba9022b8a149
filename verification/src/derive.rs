//! The plan behind `#[derive(Alga)]`: which tower impls a struct gets.
//!
//! A struct derives the tower component-wise: each operation on the struct
//! forwards to its fields. The target level comes from
//! `#[alga(level = "...")]` (default `"Ring"`):
//!
//! - `Monoid` — additive Magma → Monoid, multiplicative Magma → Monoid
//! - `Group` — + additive Group/AbelianGroup
//! - `Ring` (default) — + Semiring → CommutativeRing, plus Module/VectorSpace
//! - `Field` — + DivisionRing → Field
//!
//! This module decides the plan — the level, the fields, and for every impl
//! its trait, operators, per-field-type bound and forwarded methods — from
//! a plain description of the struct — and writes each impl of the plan out
//! as Rust source ([`render`]); turning that text into tokens is left to the
//! caller. Every impl is bounded by the same level of the
//! tower on each distinct field type, so that the component-wise laws
//! follow from the fields' laws.
use vstd::prelude::*;
use vstd::string::StringExecFns;

verus! {

/// The target level of `#[derive(Alga)]`.
#[derive(Clone, Copy, Debug, PartialEq, Eq, Structural)]
pub enum Level {
    /// Additive and multiplicative magmas through monoids.
    Monoid,
    /// `Monoid` plus the additive quasigroup and group ladder.
    Group,
    /// `Group` plus the two-operator ring ladder and the module level.
    Ring,
    /// `Ring` plus the division ring and field levels.
    Field,
}

/// One nested option of an `#[alga(...)]` attribute: `key = "value"`, or
/// a bare `key` (no value).
#[derive(Clone, Debug)]
pub struct AlgaOption {
    /// The option's name.
    pub key: String,
    /// The string literal after `=`, if any.
    pub value: Option<String>,
}

/// Why a struct cannot derive the tower.
#[derive(Clone, Debug)]
pub enum DeriveError {
    /// `level = "..."` names no level.
    UnknownLevel(String),
    /// An option other than `level`.
    UnknownOption,
    /// `level` without `= "..."`.
    MissingValue,
    /// The item is an enum or a union.
    NotAStruct,
    /// The struct has no fields.
    NoFields,
}

/// [`DeriveError`] on models.
pub ghost enum DeriveErrorView {
    /// See [`DeriveError::UnknownLevel`].
    UnknownLevel(Seq<char>),
    /// See [`DeriveError::UnknownOption`].
    UnknownOption,
    /// See [`DeriveError::MissingValue`].
    MissingValue,
    /// See [`DeriveError::NotAStruct`].
    NotAStruct,
    /// See [`DeriveError::NoFields`].
    NoFields,
}

impl View for DeriveError {
    type V = DeriveErrorView;

    open spec fn view(&self) -> DeriveErrorView {
        match self {
            DeriveError::UnknownLevel(s) => DeriveErrorView::UnknownLevel(s@),
            DeriveError::UnknownOption => DeriveErrorView::UnknownOption,
            DeriveError::MissingValue => DeriveErrorView::MissingValue,
            DeriveError::NotAStruct => DeriveErrorView::NotAStruct,
            DeriveError::NoFields => DeriveErrorView::NoFields,
        }
    }
}

/// The compiler message for a refused derivation, on models.
pub open spec fn message_of(e: DeriveErrorView) -> Seq<char> {
    match e {
        DeriveErrorView::UnknownLevel(other) => "unknown alga level `"@ + other
            + "` (expected Monoid, Group, Ring or Field)"@,
        DeriveErrorView::UnknownOption => "unknown `#[alga(...)]` option (only `level` is supported)"@,
        DeriveErrorView::MissingValue => "expected `=`"@,
        DeriveErrorView::NotAStruct => "#[derive(Alga)] supports structs only"@,
        DeriveErrorView::NoFields => "#[derive(Alga)] needs at least one field"@,
    }
}

impl DeriveError {
    /// The compiler message for this error.
    pub fn message(&self) -> (r: String)
        ensures
            r@ == message_of(self@),
    {
        match self {
            DeriveError::UnknownLevel(other) => {
                let head = String::from_str("unknown alga level `");
                let with_name = head.concat(other.as_str());
                with_name.concat("` (expected Monoid, Group, Ring or Field)")
            },
            DeriveError::UnknownOption => String::from_str(
                "unknown `#[alga(...)]` option (only `level` is supported)",
            ),
            DeriveError::MissingValue => String::from_str("expected `=`"),
            DeriveError::NotAStruct => String::from_str("#[derive(Alga)] supports structs only"),
            DeriveError::NoFields => String::from_str("#[derive(Alga)] needs at least one field"),
        }
    }
}

/// The level a level name denotes.
pub open spec fn level_named(name: Seq<char>) -> Option<Level> {
    if name == "Monoid"@ {
        Some(Level::Monoid)
    } else if name == "Group"@ {
        Some(Level::Group)
    } else if name == "Ring"@ {
        Some(Level::Ring)
    } else if name == "Field"@ {
        Some(Level::Field)
    } else {
        None
    }
}

/// The outcome of reading the options in order, starting from `level`: a
/// `level = "<name>"` sets the level (the last one wins), and the first
/// bad option is the error.
pub open spec fn parse_options(options: Seq<AlgaOption>, level: Level) -> Result<Level, DeriveErrorView>
    decreases options.len(),
{
    if options.len() == 0 {
        Ok(level)
    } else {
        let o = options[0];
        if o.key@ != "level"@ {
            Err(DeriveErrorView::UnknownOption)
        } else {
            match o.value {
                None => Err(DeriveErrorView::MissingValue),
                Some(v) => match level_named(v@) {
                    None => Err(DeriveErrorView::UnknownLevel(v@)),
                    Some(l) => parse_options(options.drop_first(), l),
                },
            }
        }
    }
}

/// The level of a name, if it is one.
fn level_of_name(name: &String) -> (r: Option<Level>)
    ensures
        r == level_named(name@),
{
    if *name == String::from_str("Monoid") {
        Some(Level::Monoid)
    } else if *name == String::from_str("Group") {
        Some(Level::Group)
    } else if *name == String::from_str("Ring") {
        Some(Level::Ring)
    } else if *name == String::from_str("Field") {
        Some(Level::Field)
    } else {
        None
    }
}

impl Level {
    /// The level set by the `#[alga(...)]` options (in source order): `Ring`
    /// when no option sets one, else the last `level = "..."`; an unknown
    /// option, a `level` without a value or an unknown level name is an
    /// error.
    pub fn parse(options: &[AlgaOption]) -> (r: Result<Level, DeriveError>)
        ensures
            match r {
                Ok(l) => parse_options(options@, Level::Ring) == Ok::<Level, DeriveErrorView>(l),
                Err(e) => parse_options(options@, Level::Ring) == Err::<Level, DeriveErrorView>(e@),
            },
    {
        let mut level = Level::Ring;
        let mut i: usize = 0;
        assert(options@.skip(0) =~= options@);
        while i < options.len()
            invariant
                i <= options@.len(),
                parse_options(options@, Level::Ring) == parse_options(options@.skip(i as int), level),
            decreases options@.len() - i,
        {
            let o = &options[i];
            assert(options@.skip(i as int)[0] == options@[i as int]);
            assert(options@.skip(i as int).drop_first() =~= options@.skip(i + 1));
            if o.key != String::from_str("level") {
                return Err(DeriveError::UnknownOption);
            }
            match &o.value {
                None => {
                    return Err(DeriveError::MissingValue);
                },
                Some(v) => match level_of_name(v) {
                    None => {
                        return Err(DeriveError::UnknownLevel(v.clone()));
                    },
                    Some(l) => {
                        level = l;
                    },
                },
            }
            i += 1;
        }
        assert(options@.skip(i as int) =~= Seq::<AlgaOption>::empty());
        Ok(level)
    }
}

/// A named field: its name and its type as written.
#[derive(Clone, Debug)]
pub struct NamedField {
    /// The field's name.
    pub name: String,
    /// The field's type, as written.
    pub ty: String,
}

/// The fields of a struct.
#[derive(Clone, Debug)]
pub enum FieldsShape {
    /// `struct S { a: A, b: B }`.
    Named(Vec<NamedField>),
    /// `struct S(A, B);` — the types in order.
    Unnamed(Vec<String>),
    /// `struct S;`.
    Unit,
}

/// The item the derive is applied to.
#[derive(Clone, Debug)]
pub enum ItemShape {
    /// A struct with its fields.
    Struct(FieldsShape),
    /// An enum.
    Enum,
    /// A union.
    Union,
}

/// A struct field: its type, its position, and its name for a named field
/// (accessed as `self.<name>`, else as `self.<index>`).
#[derive(Clone, Debug)]
pub struct FieldInfo {
    /// The field's type, as written.
    pub ty: String,
    /// The field's name, for a named field.
    pub name: Option<String>,
    /// The field's position.
    pub index: usize,
}

/// The number of fields of a shape.
pub open spec fn field_count(shape: FieldsShape) -> nat {
    match shape {
        FieldsShape::Named(n) => n@.len(),
        FieldsShape::Unnamed(u) => u@.len(),
        FieldsShape::Unit => 0,
    }
}

/// The `i`-th field of a shape with at least one field, as a [`FieldInfo`]
/// would hold it: `(type, name, index)` on models.
pub open spec fn field_at(shape: FieldsShape, i: int) -> (Seq<char>, Option<Seq<char>>, int) {
    match shape {
        FieldsShape::Named(n) => (n@[i].ty@, Some(n@[i].name@), i),
        FieldsShape::Unnamed(u) => (u@[i]@, None, i),
        FieldsShape::Unit => (Seq::empty(), None, i),
    }
}

/// A [`FieldInfo`] on models: `(type, name, index)`.
pub open spec fn field_info_view(f: FieldInfo) -> (Seq<char>, Option<Seq<char>>, int) {
    (
        f.ty@,
        match f.name {
            Some(n) => Some(n@),
            None => None,
        },
        f.index as int,
    )
}

/// The fields of a struct, in order; a struct without fields cannot
/// derive the tower.
pub fn fields_of(fields: &FieldsShape) -> (r: Result<Vec<FieldInfo>, DeriveError>)
    ensures
        field_count(*fields) == 0 <==> r is Err,
        r matches Err(e) ==> e@ == DeriveErrorView::NoFields,
        r matches Ok(v) ==> v@.len() == field_count(*fields) && forall|i: int|
            0 <= i < v@.len() ==> #[trigger] field_info_view(v@[i]) == field_at(*fields, i),
{
    let mut out: Vec<FieldInfo> = Vec::new();
    match fields {
        FieldsShape::Named(n) => {
            let mut i: usize = 0;
            while i < n.len()
                invariant
                    i <= n@.len(),
                    out@.len() == i,
                    *fields == FieldsShape::Named(*n),
                    forall|j: int| 0 <= j < i ==> #[trigger] field_info_view(out@[j]) == field_at(*fields, j),
                decreases n@.len() - i,
            {
                let f = &n[i];
                out.push(FieldInfo { ty: f.ty.clone(), name: Some(f.name.clone()), index: i });
                i += 1;
            }
        },
        FieldsShape::Unnamed(u) => {
            let mut i: usize = 0;
            while i < u.len()
                invariant
                    i <= u@.len(),
                    out@.len() == i,
                    *fields == FieldsShape::Unnamed(*u),
                    forall|j: int| 0 <= j < i ==> #[trigger] field_info_view(out@[j]) == field_at(*fields, j),
                decreases u@.len() - i,
            {
                out.push(FieldInfo { ty: u[i].clone(), name: None, index: i });
                i += 1;
            }
        },
        FieldsShape::Unit => {
            return Err(DeriveError::NoFields);
        },
    }
    if out.len() == 0 {
        return Err(DeriveError::NoFields);
    }
    Ok(out)
}

/// The distinct types among `tys`, in the order of their first occurrence.
pub open spec fn distinct_types(tys: Seq<Seq<char>>) -> Seq<Seq<char>>
    decreases tys.len(),
{
    if tys.len() == 0 {
        Seq::empty()
    } else {
        let prev = distinct_types(tys.drop_last());
        if prev.contains(tys.last()) {
            prev
        } else {
            prev.push(tys.last())
        }
    }
}

/// The types of the fields, on models.
pub open spec fn types_of(fields: Seq<FieldInfo>) -> Seq<Seq<char>> {
    fields.map_values(|f: FieldInfo| f.ty@)
}

/// The strings' models.
pub open spec fn strings_view(s: Seq<String>) -> Seq<Seq<char>> {
    s.map_values(|t: String| t@)
}

/// The distinct field types, in order of first occurrence (one `where`
/// bound per distinct type).
pub fn field_types(fields: &[FieldInfo]) -> (r: Vec<String>)
    ensures
        strings_view(r@) == distinct_types(types_of(fields@)),
{
    let mut out: Vec<String> = Vec::new();
    let mut i: usize = 0;
    while i < fields.len()
        invariant
            i <= fields@.len(),
            strings_view(out@) == distinct_types(types_of(fields@.take(i as int))),
        decreases fields@.len() - i,
    {
        let ty = &fields[i].ty;
        let mut seen = false;
        let mut j: usize = 0;
        while j < out.len()
            invariant
                j <= out@.len(),
                seen <==> strings_view(out@).take(j as int).contains(ty@),
            decreases out@.len() - j,
        {
            let ghost sv = strings_view(out@);
            assert(sv.take(j + 1) =~= sv.take(j as int).push(out@[j as int]@));
            assert(sv.take(j + 1).contains(ty@) <==> (sv.take(j as int).contains(ty@) || out@[j as int]@
                == ty@)) by {
                if sv.take(j + 1).contains(ty@) {
                    let k = choose|k: int| 0 <= k < sv.take(j + 1).len() && #[trigger] sv.take(j + 1)[k] == ty@;
                    if k < j {
                        assert(sv.take(j as int)[k] == ty@);
                    }
                }
                if out@[j as int]@ == ty@ {
                    assert(sv.take(j + 1)[j as int] == ty@);
                }
                if sv.take(j as int).contains(ty@) {
                    let k = choose|k: int| 0 <= k < j && #[trigger] sv.take(j as int)[k] == ty@;
                    assert(sv.take(j + 1)[k] == ty@);
                }
            }
            if out[j] == *ty {
                seen = true;
            }
            j += 1;
        }
        assert(strings_view(out@).take(out@.len() as int) =~= strings_view(out@));
        assert(types_of(fields@.take(i + 1)).drop_last() =~= types_of(fields@.take(i as int)));
        assert(types_of(fields@.take(i + 1)).last() == ty@);
        if !seen {
            out.push(ty.clone());
            assert(strings_view(out@) =~= distinct_types(types_of(fields@.take(i as int))).push(ty@));
        }
        i += 1;
    }
    assert(fields@.take(fields@.len() as int) =~= fields@);
    out
}

/// Whether the struct's fields are named (`Self { a: .., b: .. }`) rather
/// than positional (`Self(.., ..)`): decided by the first field.
pub fn construct_named(fields: &[FieldInfo]) -> (r: bool)
    ensures
        r == (fields@.len() > 0 && fields@[0].name is Some),
{
    if fields.len() == 0 {
        false
    } else {
        fields[0].name.is_some()
    }
}

/// An operator marker of [`crate::op`].
#[derive(Clone, Copy, Debug, PartialEq, Eq, Structural)]
pub enum OpMarker {
    /// [`crate::op::Additive`].
    Additive,
    /// [`crate::op::Multiplicative`].
    Multiplicative,
}

/// The operator arguments of a tower trait.
#[derive(Clone, Copy, Debug, PartialEq, Eq, Structural)]
pub enum Ops {
    /// No operator (`Carrier`).
    Nullary,
    /// One operator (`Magma<Op>` … `AbelianGroup<Op>`).
    Single(OpMarker),
    /// The pair `<Additive, Multiplicative>` (the ring and module levels).
    Pair,
}

/// A trait of the tower.
#[derive(Clone, Copy, Debug, PartialEq, Eq, Structural)]
pub enum TowerTrait {
    /// [`crate::tower::Carrier`].
    Carrier,
    /// [`crate::tower::Magma`].
    Magma,
    /// [`crate::tower::Semigroup`].
    Semigroup,
    /// [`crate::tower::Quasigroup`].
    Quasigroup,
    /// [`crate::tower::Loop`].
    Loop,
    /// [`crate::tower::Monoid`].
    Monoid,
    /// [`crate::tower::Group`].
    Group,
    /// [`crate::tower::AbelianGroup`].
    AbelianGroup,
    /// [`crate::tower::Semiring`].
    Semiring,
    /// [`crate::tower::Ring`].
    Ring,
    /// [`crate::tower::CommutativeRing`].
    CommutativeRing,
    /// [`crate::tower::DivisionRing`].
    DivisionRing,
    /// [`crate::tower::Field`].
    Field,
    /// [`crate::tower::Module`] (its scalar is the first field's).
    Module,
    /// [`crate::tower::VectorSpace`] (where the first field's scalar is a
    /// field).
    VectorSpace,
}

/// The executable method an impl forwards component-wise.
#[derive(Clone, Copy, Debug, PartialEq, Eq, Structural)]
pub enum Method {
    /// `model`: the tuple of the fields' models.
    Model,
    /// `combine`: each field combined with the other's.
    Combine,
    /// `identity`: each field's identity.
    Identity,
    /// `inverse`: each field's inverse.
    Inverse,
    /// `inv`: each field's field inverse.
    Inv,
    /// `scale`: each field scaled.
    Scale,
}

/// One impl of the plan: `impl <trait><ops> for S where F: <bound><ops>`
/// for every distinct field type `F`, forwarding `method` (if any).
#[derive(Clone, Copy, Debug, PartialEq, Eq, Structural)]
pub struct ImplPlan {
    /// The trait implemented.
    pub tr: TowerTrait,
    /// Its operator arguments (the bound takes the same ones).
    pub ops: Ops,
    /// The trait every distinct field type is bounded by.
    pub bound: TowerTrait,
    /// The forwarded executable method.
    pub method: Option<Method>,
}

/// An impl whose fields are bounded by the trait itself.
pub open spec fn plan(tr: TowerTrait, ops: Ops, method: Option<Method>) -> ImplPlan {
    ImplPlan { tr, ops, bound: tr, method }
}

/// The single-operator ladder for `op`, up to `max_level` (`Monoid` or
/// `Group`): Magma, Semigroup, under `Additive` the Quasigroup and Loop,
/// Monoid, and at `Group` level Group and AbelianGroup. Each impl is
/// bounded by the same trait on the fields.
pub open spec fn single_op_plan(op: OpMarker, max_level: Level) -> Seq<ImplPlan> {
    let o = Ops::Single(op);
    let quasi = if op == OpMarker::Additive {
        seq![plan(TowerTrait::Quasigroup, o, None), plan(TowerTrait::Loop, o, None)]
    } else {
        Seq::empty()
    };
    let group = if max_level == Level::Group {
        seq![
            plan(TowerTrait::Group, o, Some(Method::Inverse)),
            plan(TowerTrait::AbelianGroup, o, None),
        ]
    } else {
        Seq::empty()
    };
    seq![
        plan(TowerTrait::Magma, o, Some(Method::Combine)),
        plan(TowerTrait::Semigroup, o, None),
    ] + quasi + seq![plan(TowerTrait::Monoid, o, Some(Method::Identity))] + group
}

/// The two-operator ladder: Semiring, Ring, CommutativeRing, and at
/// `Field` level DivisionRing and Field.
pub open spec fn two_op_plan(level: Level) -> Seq<ImplPlan> {
    let base = seq![
        plan(TowerTrait::Semiring, Ops::Pair, None),
        plan(TowerTrait::Ring, Ops::Pair, None),
        plan(TowerTrait::CommutativeRing, Ops::Pair, None),
    ];
    if level == Level::Field {
        base + seq![
            plan(TowerTrait::DivisionRing, Ops::Pair, Some(Method::Inv)),
            plan(TowerTrait::Field, Ops::Pair, None),
        ]
    } else {
        base
    }
}

/// The module level: Module, with component-wise scaling by the first
/// field's scalar, then VectorSpace.
pub open spec fn module_plan() -> Seq<ImplPlan> {
    seq![
        plan(TowerTrait::Module, Ops::Pair, Some(Method::Scale)),
        plan(TowerTrait::VectorSpace, Ops::Pair, None),
    ]
}

/// The single-operator ladder for `op`, up to `max_level` (`Monoid` or
/// `Group`).
pub fn single_op_chain(op: OpMarker, max_level: Level) -> (r: Vec<ImplPlan>)
    requires
        max_level == Level::Monoid || max_level == Level::Group,
    ensures
        r@ == single_op_plan(op, max_level),
{
    let o = Ops::Single(op);
    let mut out: Vec<ImplPlan> = Vec::new();
    out.push(ImplPlan { tr: TowerTrait::Magma, ops: o, bound: TowerTrait::Magma, method: Some(Method::Combine) });
    out.push(ImplPlan { tr: TowerTrait::Semigroup, ops: o, bound: TowerTrait::Semigroup, method: None });
    // The quasigroup ladder (Quasigroup → Loop) is additive only; the
    // multiplicative side stops at Monoid.
    if op == OpMarker::Additive {
        out.push(ImplPlan { tr: TowerTrait::Quasigroup, ops: o, bound: TowerTrait::Quasigroup, method: None });
        out.push(ImplPlan { tr: TowerTrait::Loop, ops: o, bound: TowerTrait::Loop, method: None });
    }
    out.push(ImplPlan { tr: TowerTrait::Monoid, ops: o, bound: TowerTrait::Monoid, method: Some(Method::Identity) });
    // Group/AbelianGroup only when the ladder runs that far.
    if max_level == Level::Group {
        out.push(ImplPlan { tr: TowerTrait::Group, ops: o, bound: TowerTrait::Group, method: Some(Method::Inverse) });
        out.push(ImplPlan { tr: TowerTrait::AbelianGroup, ops: o, bound: TowerTrait::AbelianGroup, method: None });
    }
    assert(out@ =~= single_op_plan(op, max_level));
    out
}

/// The two-operator ladder, through CommutativeRing, and at `Field` level
/// through Field.
pub fn two_op_chain(level: Level) -> (r: Vec<ImplPlan>)
    ensures
        r@ == two_op_plan(level),
{
    let mut out: Vec<ImplPlan> = Vec::new();
    out.push(ImplPlan { tr: TowerTrait::Semiring, ops: Ops::Pair, bound: TowerTrait::Semiring, method: None });
    out.push(ImplPlan { tr: TowerTrait::Ring, ops: Ops::Pair, bound: TowerTrait::Ring, method: None });
    out.push(ImplPlan { tr: TowerTrait::CommutativeRing, ops: Ops::Pair, bound: TowerTrait::CommutativeRing, method: None });
    // DivisionRing/Field only at `Field` level.
    if level == Level::Field {
        out.push(ImplPlan { tr: TowerTrait::DivisionRing, ops: Ops::Pair, bound: TowerTrait::DivisionRing, method: Some(Method::Inv) });
        out.push(ImplPlan { tr: TowerTrait::Field, ops: Ops::Pair, bound: TowerTrait::Field, method: None });
    }
    assert(out@ =~= two_op_plan(level));
    out
}

/// The module level: Module with component-wise scaling, then
/// VectorSpace.
pub fn module_level() -> (r: Vec<ImplPlan>)
    ensures
        r@ == module_plan(),
{
    let mut out: Vec<ImplPlan> = Vec::new();
    out.push(ImplPlan { tr: TowerTrait::Module, ops: Ops::Pair, bound: TowerTrait::Module, method: Some(Method::Scale) });
    out.push(ImplPlan { tr: TowerTrait::VectorSpace, ops: Ops::Pair, bound: TowerTrait::VectorSpace, method: None });
    assert(out@ =~= module_plan());
    out
}

/// Everything the derive needs to write the impls out.
#[derive(Clone, Debug)]
pub struct Derivation {
    /// The fields, in order.
    pub fields: Vec<FieldInfo>,
    /// The distinct field types, in order of first occurrence.
    pub field_types: Vec<String>,
    /// Whether the struct's fields are named.
    pub named: bool,
    /// The level derived to.
    pub level: Level,
    /// The impls, in order.
    pub impls: Vec<ImplPlan>,
}

/// The impls a struct derives at `level`: the model, the additive ladder
/// (to `Monoid` at `Monoid` level, else to `Group`), the multiplicative
/// ladder to `Monoid`, and at `Ring` and `Field` level the two-operator
/// ladder and the module level.
pub open spec fn impls_plan(level: Level) -> Seq<ImplPlan> {
    let add_max = if level == Level::Monoid {
        Level::Monoid
    } else {
        Level::Group
    };
    let base = seq![plan(TowerTrait::Carrier, Ops::Nullary, Some(Method::Model))] + single_op_plan(
        OpMarker::Additive,
        add_max,
    ) + single_op_plan(OpMarker::Multiplicative, Level::Monoid);
    if level == Level::Ring || level == Level::Field {
        base + two_op_plan(level) + module_plan()
    } else {
        base
    }
}

/// The position of a level in the order `Monoid < Group < Ring < Field`.
pub open spec fn level_rank(level: Level) -> int {
    match level {
        Level::Monoid => 0,
        Level::Group => 1,
        Level::Ring => 2,
        Level::Field => 3,
    }
}

/// A higher level derives every impl a lower level does, and at no level
/// does the multiplicative side go beyond Magma, Semigroup and Monoid.
pub proof fn lemma_levels_grow(low: Level, high: Level)
    requires
        level_rank(low) <= level_rank(high),
    ensures
        forall|i: int|
            0 <= i < impls_plan(low).len() ==> impls_plan(high).contains(#[trigger] impls_plan(low)[i]),
        forall|i: int|
            0 <= i < impls_plan(high).len() && #[trigger] impls_plan(high)[i].ops == Ops::Single(
                OpMarker::Multiplicative,
            ) ==> impls_plan(high)[i].tr == TowerTrait::Magma || impls_plan(high)[i].tr
                == TowerTrait::Semigroup || impls_plan(high)[i].tr == TowerTrait::Monoid,
{
    let lo = impls_plan(low);
    let hi = impls_plan(high);
    assert forall|i: int| 0 <= i < lo.len() implies hi.contains(#[trigger] lo[i]) by {
        let j: int = if low == high {
            i
        } else if low == Level::Monoid {
            // Carrier, additive Magma..Monoid (5), then the multiplicative three.
            if i <= 5 { i } else { i + 2 }
        } else {
            // Group, Ring and Field share the first 14 entries; Field puts
            // DivisionRing and Field before the module level.
            if i < 14 || high != Level::Field || low == Level::Field { i } else { i + 2 }
        };
        assert(0 <= j < hi.len() && hi[j] == lo[i]);
    }
}

/// The outcome of deriving for an item with the given options: an enum or
/// a union is refused first, then a struct without fields, then a bad
/// option; otherwise the level the options set.
pub open spec fn derive_outcome(item: ItemShape, options: Seq<AlgaOption>) -> Result<Level, DeriveErrorView> {
    match item {
        ItemShape::Struct(f) => if field_count(f) == 0 {
            Err(DeriveErrorView::NoFields)
        } else {
            parse_options(options, Level::Ring)
        },
        _ => Err(DeriveErrorView::NotAStruct),
    }
}

/// The derivation for an item with the given `#[alga(...)]` options.
pub fn expand(item: &ItemShape, options: &[AlgaOption]) -> (r: Result<Derivation, DeriveError>)
    ensures
        match r {
            Err(e) => derive_outcome(*item, options@) == Err::<Level, DeriveErrorView>(e@),
            Ok(d) => {
                &&& derive_outcome(*item, options@) == Ok::<Level, DeriveErrorView>(d.level)
                &&& *item matches ItemShape::Struct(f) && d.fields@.len() == field_count(f) && forall|i: int|
                    0 <= i < d.fields@.len() ==> #[trigger] field_info_view(d.fields@[i]) == field_at(f, i)
                &&& strings_view(d.field_types@) == distinct_types(types_of(d.fields@))
                &&& d.named == (d.fields@[0].name is Some)
                &&& d.impls@ == impls_plan(d.level)
            },
        },
{
    let fields = match item {
        ItemShape::Struct(f) => match fields_of(f) {
            Ok(v) => v,
            Err(e) => {
                return Err(e);
            },
        },
        _ => {
            return Err(DeriveError::NotAStruct);
        },
    };
    let level = match Level::parse(options) {
        Ok(l) => l,
        Err(e) => {
            return Err(e);
        },
    };
    // The additive ladder runs to the group level unless the target is
    // `Monoid`; the multiplicative ladder stops at Monoid (the ring and
    // field levels are the two-operator chain).
    let add_max = if level == Level::Monoid {
        Level::Monoid
    } else {
        Level::Group
    };
    let mut impls: Vec<ImplPlan> = Vec::new();
    impls.push(ImplPlan { tr: TowerTrait::Carrier, ops: Ops::Nullary, bound: TowerTrait::Carrier, method: Some(Method::Model) });
    let mut add = single_op_chain(OpMarker::Additive, add_max);
    impls.append(&mut add);
    let mut mul = single_op_chain(OpMarker::Multiplicative, Level::Monoid);
    impls.append(&mut mul);
    if level == Level::Ring || level == Level::Field {
        let mut two = two_op_chain(level);
        impls.append(&mut two);
        let mut module = module_level();
        impls.append(&mut module);
    }
    assert(impls@ =~= impls_plan(level));
    let field_types = field_types(&fields);
    let named = construct_named(&fields);
    Ok(Derivation { fields, field_types, named, level, impls })
}


// ----- Writing the impls out as Rust source -----

/// A field on models: `(type, name, index)`.
pub type FieldView = (Seq<char>, Option<Seq<char>>, int);

/// The decimal digit `d` (below ten) as text.
pub open spec fn digit_text(d: nat) -> Seq<char> {
    if d == 0 {
        "0"@
    } else if d == 1 {
        "1"@
    } else if d == 2 {
        "2"@
    } else if d == 3 {
        "3"@
    } else if d == 4 {
        "4"@
    } else if d == 5 {
        "5"@
    } else if d == 6 {
        "6"@
    } else if d == 7 {
        "7"@
    } else if d == 8 {
        "8"@
    } else {
        "9"@
    }
}

/// `n` in decimal.
pub open spec fn decimal(n: nat) -> Seq<char>
    decreases n,
{
    if n < 10 {
        digit_text(n)
    } else {
        decimal(n / 10) + digit_text(n % 10)
    }
}

fn digit_string(d: usize) -> (r: String)
    requires
        d < 10,
    ensures
        r@ == digit_text(d as nat),
{
    if d == 0 {
        String::from_str("0")
    } else if d == 1 {
        String::from_str("1")
    } else if d == 2 {
        String::from_str("2")
    } else if d == 3 {
        String::from_str("3")
    } else if d == 4 {
        String::from_str("4")
    } else if d == 5 {
        String::from_str("5")
    } else if d == 6 {
        String::from_str("6")
    } else if d == 7 {
        String::from_str("7")
    } else if d == 8 {
        String::from_str("8")
    } else {
        String::from_str("9")
    }
}

/// `n` in decimal.
pub fn decimal_string(n: usize) -> (r: String)
    ensures
        r@ == decimal(n as nat),
    decreases n,
{
    if n < 10 {
        digit_string(n)
    } else {
        let head = decimal_string(n / 10);
        let last = digit_string(n % 10);
        head.concat(last.as_str())
    }
}

/// The name of a tower trait.
pub open spec fn trait_name(t: TowerTrait) -> Seq<char> {
    match t {
        TowerTrait::Carrier => "Carrier"@,
        TowerTrait::Magma => "Magma"@,
        TowerTrait::Semigroup => "Semigroup"@,
        TowerTrait::Quasigroup => "Quasigroup"@,
        TowerTrait::Loop => "Loop"@,
        TowerTrait::Monoid => "Monoid"@,
        TowerTrait::Group => "Group"@,
        TowerTrait::AbelianGroup => "AbelianGroup"@,
        TowerTrait::Semiring => "Semiring"@,
        TowerTrait::Ring => "Ring"@,
        TowerTrait::CommutativeRing => "CommutativeRing"@,
        TowerTrait::DivisionRing => "DivisionRing"@,
        TowerTrait::Field => "Field"@,
        TowerTrait::Module => "Module"@,
        TowerTrait::VectorSpace => "VectorSpace"@,
    }
}

fn trait_name_str(t: TowerTrait) -> (r: &'static str)
    ensures
        r@ == trait_name(t),
{
    match t {
        TowerTrait::Carrier => "Carrier",
        TowerTrait::Magma => "Magma",
        TowerTrait::Semigroup => "Semigroup",
        TowerTrait::Quasigroup => "Quasigroup",
        TowerTrait::Loop => "Loop",
        TowerTrait::Monoid => "Monoid",
        TowerTrait::Group => "Group",
        TowerTrait::AbelianGroup => "AbelianGroup",
        TowerTrait::Semiring => "Semiring",
        TowerTrait::Ring => "Ring",
        TowerTrait::CommutativeRing => "CommutativeRing",
        TowerTrait::DivisionRing => "DivisionRing",
        TowerTrait::Field => "Field",
        TowerTrait::Module => "Module",
        TowerTrait::VectorSpace => "VectorSpace",
    }
}

/// The operator arguments of a trait path: none, `<Op>`, or
/// `<Additive, Multiplicative>`, by full path.
pub open spec fn ops_text(ops: Ops) -> Seq<char> {
    match ops {
        Ops::Nullary => ""@,
        Ops::Single(OpMarker::Additive) => "<::alga2::op::Additive>"@,
        Ops::Single(OpMarker::Multiplicative) => "<::alga2::op::Multiplicative>"@,
        Ops::Pair => "<::alga2::op::Additive, ::alga2::op::Multiplicative>"@,
    }
}

fn ops_str(ops: Ops) -> (r: &'static str)
    ensures
        r@ == ops_text(ops),
{
    match ops {
        Ops::Nullary => "",
        Ops::Single(OpMarker::Additive) => "<::alga2::op::Additive>",
        Ops::Single(OpMarker::Multiplicative) => "<::alga2::op::Multiplicative>",
        Ops::Pair => "<::alga2::op::Additive, ::alga2::op::Multiplicative>",
    }
}

/// A tower trait with its operator arguments, by full path:
/// `::alga2::tower::Magma<::alga2::op::Additive>`.
pub open spec fn trait_text(t: TowerTrait, ops: Ops) -> Seq<char> {
    "::alga2::tower::"@ + trait_name(t) + ops_text(ops)
}

/// See [`trait_text`].
pub fn trait_string(t: TowerTrait, ops: Ops) -> (r: String)
    ensures
        r@ == trait_text(t, ops),
{
    String::from_str("::alga2::tower::").concat(trait_name_str(t)).concat(ops_str(ops))
}

/// How a field is named after a dot: its name, or its index.
pub open spec fn member_text(f: FieldView) -> Seq<char> {
    match f.1 {
        Some(n) => n,
        None => decimal(f.2 as nat),
    }
}

/// A field of `base`: `base.x` or `base.0`.
pub open spec fn access_text(base: Seq<char>, f: FieldView) -> Seq<char> {
    base + "."@ + member_text(f)
}

fn member_string(f: &FieldInfo) -> (r: String)
    ensures
        r@ == member_text(field_info_view(*f)),
{
    match &f.name {
        Some(n) => n.clone(),
        None => decimal_string(f.index),
    }
}

fn access_string(base: &str, f: &FieldInfo) -> (r: String)
    ensures
        r@ == access_text(base@, field_info_view(*f)),
{
    let m = member_string(f);
    String::from_str(base).concat(".").concat(m.as_str())
}

/// The per-field expressions the impls are written from.
#[derive(Clone, Copy, Debug, PartialEq, Eq, Structural)]
pub enum Piece {
    /// `<T as Carrier>::Model`
    ModelType,
    /// `self.f.model()`
    ModelOf,
    /// `<T as Carrier>::contains(m.i)`
    Contains,
    /// `<T as Tr>::spec_combine(a.i, b.i)`
    SpecCombine,
    /// `<T as Tr>::combine(&self.f, &rhs.f)`
    Combine,
    /// `<T as Tr>::spec_identity()`
    SpecIdentity,
    /// `<T as Tr>::identity()`
    Identity,
    /// `<T as Tr>::spec_inverse(a.i)`
    SpecInverse,
    /// `<T as Tr>::inverse(&self.f)`
    Inverse,
    /// `<T as Tr>::inverses_exist()`
    InversesExist,
    /// `<T as Tr>::spec_inv(a.i)`
    SpecInv,
    /// `<T as Tr>::inv(&self.f)`
    Inv,
    /// `<T as Tr>::spec_scale(s, v.i)`
    SpecScale,
    /// `<T as Tr>::scale(s, v.f)`
    Scale,
}

/// `<ty as tr>`.
pub open spec fn qualified_text(ty: Seq<char>, tr: Seq<char>) -> Seq<char> {
    "<"@ + ty + " as "@ + tr + ">"@
}

/// The expression `piece` for the field `f` at position `i`, with the
/// trait path `tr`.
pub open spec fn piece_text(piece: Piece, tr: Seq<char>, f: FieldView, i: nat) -> Seq<char> {
    let q = qualified_text(f.0, tr);
    let at = decimal(i);
    match piece {
        Piece::ModelType => q + "::Model"@,
        Piece::ModelOf => access_text("self"@, f) + ".model()"@,
        Piece::Contains => q + "::contains(m."@ + at + ")"@,
        Piece::SpecCombine => q + "::spec_combine(a."@ + at + ", b."@ + at + ")"@,
        Piece::Combine => q + "::combine(&"@ + access_text("self"@, f) + ", &"@ + access_text(
            "rhs"@,
            f,
        ) + ")"@,
        Piece::SpecIdentity => q + "::spec_identity()"@,
        Piece::Identity => q + "::identity()"@,
        Piece::SpecInverse => q + "::spec_inverse(a."@ + at + ")"@,
        Piece::Inverse => q + "::inverse(&"@ + access_text("self"@, f) + ")"@,
        Piece::InversesExist => q + "::inverses_exist()"@,
        Piece::SpecInv => q + "::spec_inv(a."@ + at + ")"@,
        Piece::Inv => q + "::inv(&"@ + access_text("self"@, f) + ")"@,
        Piece::SpecScale => q + "::spec_scale(s, v."@ + at + ")"@,
        Piece::Scale => q + "::scale(s, "@ + access_text("v"@, f) + ")"@,
    }
}

fn qualified_string(ty: &str, tr: &str) -> (r: String)
    ensures
        r@ == qualified_text(ty@, tr@),
{
    String::from_str("<").concat(ty).concat(" as ").concat(tr).concat(">")
}

/// See [`piece_text`].
pub fn piece_string(piece: Piece, tr: &str, f: &FieldInfo, i: usize) -> (r: String)
    ensures
        r@ == piece_text(piece, tr@, field_info_view(*f), i as nat),
{
    let q = qualified_string(f.ty.as_str(), tr);
    let at = decimal_string(i);
    let at = at.as_str();
    match piece {
        Piece::ModelType => q.concat("::Model"),
        Piece::ModelOf => access_string("self", f).concat(".model()"),
        Piece::Contains => q.concat("::contains(m.").concat(at).concat(")"),
        Piece::SpecCombine => q.concat("::spec_combine(a.").concat(at).concat(", b.").concat(at).concat(
            ")",
        ),
        Piece::Combine => {
            let a = access_string("self", f);
            let b = access_string("rhs", f);
            q.concat("::combine(&").concat(a.as_str()).concat(", &").concat(b.as_str()).concat(")")
        },
        Piece::SpecIdentity => q.concat("::spec_identity()"),
        Piece::Identity => q.concat("::identity()"),
        Piece::SpecInverse => q.concat("::spec_inverse(a.").concat(at).concat(")"),
        Piece::Inverse => {
            let a = access_string("self", f);
            q.concat("::inverse(&").concat(a.as_str()).concat(")")
        },
        Piece::InversesExist => q.concat("::inverses_exist()"),
        Piece::SpecInv => q.concat("::spec_inv(a.").concat(at).concat(")"),
        Piece::Inv => {
            let a = access_string("self", f);
            q.concat("::inv(&").concat(a.as_str()).concat(")")
        },
        Piece::SpecScale => q.concat("::spec_scale(s, v.").concat(at).concat(")"),
        Piece::Scale => {
            let a = access_string("v", f);
            q.concat("::scale(s, ").concat(a.as_str()).concat(")")
        },
    }
}

/// The fields on models.
pub open spec fn field_views(fields: Seq<FieldInfo>) -> Seq<FieldView> {
    fields.map_values(|f: FieldInfo| field_info_view(f))
}

/// `name: ` before a field's expression in a struct literal, or nothing.
pub open spec fn label_text(f: FieldView, labelled: bool) -> Seq<char> {
    if labelled {
        member_text(f) + ": "@
    } else {
        Seq::empty()
    }
}

/// For each field of `fs` in order: `before`, the label, the expression
/// `piece`, `after`.
pub open spec fn parts_text(
    piece: Piece,
    tr: Seq<char>,
    fs: Seq<FieldView>,
    labelled: bool,
    before: Seq<char>,
    after: Seq<char>,
) -> Seq<char>
    decreases fs.len(),
{
    if fs.len() == 0 {
        Seq::empty()
    } else {
        parts_text(piece, tr, fs.drop_last(), labelled, before, after) + before + label_text(
            fs.last(),
            labelled,
        ) + piece_text(piece, tr, fs.last(), (fs.len() - 1) as nat) + after
    }
}

/// See [`parts_text`].
pub fn parts_string(
    piece: Piece,
    tr: &str,
    fields: &[FieldInfo],
    labelled: bool,
    before: &str,
    after: &str,
) -> (r: String)
    ensures
        r@ == parts_text(piece, tr@, field_views(fields@), labelled, before@, after@),
{
    let ghost fs = field_views(fields@);
    let mut out = String::new();
    let mut i: usize = 0;
    while i < fields.len()
        invariant
            i <= fields@.len(),
            fs == field_views(fields@),
            out@ == parts_text(piece, tr@, fs.take(i as int), labelled, before@, after@),
        decreases fields@.len() - i,
    {
        let label = if labelled {
            member_string(&fields[i]).concat(": ")
        } else {
            String::new()
        };
        let pc = piece_string(piece, tr, &fields[i], i);
        out = out.concat(before).concat(label.as_str()).concat(pc.as_str()).concat(after);
        proof {
            assert(fs.take(i + 1).drop_last() =~= fs.take(i as int));
            assert(fs.take(i + 1).last() == field_info_view(fields@[i as int]));
        }
        i += 1;
    }
    proof {
        assert(fs.take(fields@.len() as int) =~= fs);
    }
    out
}

/// A tuple of the fields' expressions: `(e0, e1, )`.
pub open spec fn tuple_text(piece: Piece, tr: Seq<char>, fs: Seq<FieldView>) -> Seq<char> {
    "("@ + parts_text(piece, tr, fs, false, ""@, ", "@) + ")"@
}

/// The struct built from the fields' expressions: `Self { x: e0, y: e1, }`
/// for named fields, `Self(e0, e1, )` for positional ones.
pub open spec fn construct_text(named: bool, piece: Piece, tr: Seq<char>, fs: Seq<FieldView>) -> Seq<char> {
    if named {
        "Self { "@ + parts_text(piece, tr, fs, true, ""@, ", "@) + "}"@
    } else {
        "Self("@ + parts_text(piece, tr, fs, false, ""@, ", "@) + ")"@
    }
}

fn tuple_string(piece: Piece, tr: &str, fields: &[FieldInfo]) -> (r: String)
    ensures
        r@ == tuple_text(piece, tr@, field_views(fields@)),
{
    let body = parts_string(piece, tr, fields, false, "", ", ");
    String::from_str("(").concat(body.as_str()).concat(")")
}

fn construct_string(named: bool, piece: Piece, tr: &str, fields: &[FieldInfo]) -> (r: String)
    ensures
        r@ == construct_text(named, piece, tr@, field_views(fields@)),
{
    if named {
        let body = parts_string(piece, tr, fields, true, "", ", ");
        String::from_str("Self { ").concat(body.as_str()).concat("}")
    } else {
        let body = parts_string(piece, tr, fields, false, "", ", ");
        String::from_str("Self(").concat(body.as_str()).concat(")")
    }
}

/// The bound `T: bound, ` for each distinct field type `T`.
pub open spec fn bounds_text(tys: Seq<Seq<char>>, bound: Seq<char>) -> Seq<char>
    decreases tys.len(),
{
    if tys.len() == 0 {
        Seq::empty()
    } else {
        bounds_text(tys.drop_last(), bound) + tys.last() + ": "@ + bound + ", "@
    }
}

fn bounds_string(tys: &[String], bound: &str) -> (r: String)
    ensures
        r@ == bounds_text(strings_view(tys@), bound@),
{
    let ghost ts = strings_view(tys@);
    let mut out = String::new();
    let mut i: usize = 0;
    while i < tys.len()
        invariant
            i <= tys@.len(),
            ts == strings_view(tys@),
            out@ == bounds_text(ts.take(i as int), bound@),
        decreases tys@.len() - i,
    {
        out = out.concat(tys[i].as_str()).concat(": ").concat(bound).concat(", ");
        proof {
            assert(ts.take(i + 1).drop_last() =~= ts.take(i as int));
            assert(ts.take(i + 1).last() == tys@[i as int]@);
        }
        i += 1;
    }
    proof {
        assert(ts.take(tys@.len() as int) =~= ts);
    }
    out
}

/// The items of the impl of `p`'s trait, written component-wise: the spec
/// side as tuples of the fields' specs, the executable side as the struct
/// built from the fields' results. Proof items are left empty.
pub open spec fn items_text(p: ImplPlan, fs: Seq<FieldView>, named: bool) -> Seq<char> {
    let tr = trait_text(p.tr, p.ops);
    let carrier = trait_text(TowerTrait::Carrier, Ops::Nullary);
    match p.tr {
        TowerTrait::Carrier => "type Model = "@ + tuple_text(Piece::ModelType, tr, fs)
            + "; fn model(self) -> Self::Model { "@ + tuple_text(Piece::ModelOf, tr, fs)
            + " } fn contains(m: Self::Model) -> bool { true"@ + parts_text(
            Piece::Contains,
            tr,
            fs,
            false,
            " && "@,
            ""@,
        ) + " } fn lemma_model_contained(_x: &Self) {} "@,
        TowerTrait::Magma => "fn spec_combine(a: Self::Model, b: Self::Model) -> Self::Model { "@
            + tuple_text(Piece::SpecCombine, tr, fs)
            + " } fn lemma_closed(_a: Self::Model, _b: Self::Model) {} fn combine(&self, rhs: &Self) -> Self { "@
            + construct_text(named, Piece::Combine, tr, fs) + " } "@,
        TowerTrait::Semigroup => "fn lemma_associative(_a: Self::Model, _b: Self::Model, _c: Self::Model) {} "@,
        TowerTrait::Quasigroup => "fn lemma_latin_square(_a: Self::Model, _b: Self::Model) {} "@,
        TowerTrait::Monoid => "fn spec_identity() -> Self::Model { "@ + tuple_text(
            Piece::SpecIdentity,
            tr,
            fs,
        ) + " } fn lemma_identity(_a: Self::Model) {} fn identity() -> Self { "@ + construct_text(
            named,
            Piece::Identity,
            tr,
            fs,
        ) + " } "@,
        TowerTrait::Group => "fn spec_inverse(a: Self::Model) -> Self::Model { "@ + tuple_text(
            Piece::SpecInverse,
            tr,
            fs,
        ) + " } fn lemma_inverse(_a: Self::Model) {} fn inverse(&self) -> Self { "@ + construct_text(
            named,
            Piece::Inverse,
            tr,
            fs,
        ) + " } "@,
        TowerTrait::AbelianGroup => "fn lemma_commutative(_a: Self::Model, _b: Self::Model) {} "@,
        TowerTrait::Semiring => "fn lemma_distributive(_a: Self::Model, _b: Self::Model, _c: Self::Model) {} "@,
        TowerTrait::CommutativeRing => "fn lemma_multiplication_commutes(_a: Self::Model, _b: Self::Model) {} "@,
        TowerTrait::DivisionRing => "fn inverses_exist() -> bool { true"@ + parts_text(
            Piece::InversesExist,
            tr,
            fs,
            false,
            " && "@,
            ""@,
        ) + " } fn spec_inv(a: Self::Model) -> Self::Model { "@ + tuple_text(Piece::SpecInv, tr, fs)
            + " } fn lemma_inv_closed(_a: Self::Model) {} fn lemma_inv(_a: Self::Model) {} fn inv(&self) -> Self { "@
            + construct_text(named, Piece::Inv, tr, fs) + " } "@,
        TowerTrait::Field => "fn lemma_zero_is_not_one() {} "@,
        TowerTrait::Module => "type Scalar = "@ + qualified_text(fs[0].0, tr)
            + "::Scalar; fn spec_scale(s: <Self::Scalar as "@ + carrier
            + ">::Model, v: Self::Model) -> Self::Model { "@ + tuple_text(Piece::SpecScale, tr, fs)
            + " } fn lemma_module(_s: <Self::Scalar as "@ + carrier + ">::Model, _t: <Self::Scalar as "@
            + carrier + ">::Model, _u: Self::Model, _v: Self::Model) {} fn scale(s: &Self::Scalar, v: Self) -> Self { "@
            + construct_text(named, Piece::Scale, tr, fs) + " } "@,
        TowerTrait::Loop | TowerTrait::Ring | TowerTrait::VectorSpace => Seq::empty(),
    }
}

fn items_string(p: &ImplPlan, fields: &[FieldInfo], named: bool) -> (r: String)
    requires
        fields@.len() > 0,
    ensures
        r@ == items_text(*p, field_views(fields@), named),
{
    let tr = trait_string(p.tr, p.ops);
    let tr = tr.as_str();
    let carrier = trait_string(TowerTrait::Carrier, Ops::Nullary);
    let carrier = carrier.as_str();
    match p.tr {
        TowerTrait::Carrier => {
            let types = tuple_string(Piece::ModelType, tr, fields);
            let models = tuple_string(Piece::ModelOf, tr, fields);
            let contained = parts_string(Piece::Contains, tr, fields, false, " && ", "");
            String::from_str("type Model = ").concat(types.as_str()).concat(
                "; fn model(self) -> Self::Model { ",
            ).concat(models.as_str()).concat(" } fn contains(m: Self::Model) -> bool { true").concat(
                contained.as_str(),
            ).concat(" } fn lemma_model_contained(_x: &Self) {} ")
        },
        TowerTrait::Magma => {
            let specs = tuple_string(Piece::SpecCombine, tr, fields);
            let body = construct_string(named, Piece::Combine, tr, fields);
            String::from_str("fn spec_combine(a: Self::Model, b: Self::Model) -> Self::Model { ").concat(
                specs.as_str(),
            ).concat(
                " } fn lemma_closed(_a: Self::Model, _b: Self::Model) {} fn combine(&self, rhs: &Self) -> Self { ",
            ).concat(body.as_str()).concat(" } ")
        },
        TowerTrait::Semigroup => String::from_str(
            "fn lemma_associative(_a: Self::Model, _b: Self::Model, _c: Self::Model) {} ",
        ),
        TowerTrait::Quasigroup => String::from_str(
            "fn lemma_latin_square(_a: Self::Model, _b: Self::Model) {} ",
        ),
        TowerTrait::Monoid => {
            let specs = tuple_string(Piece::SpecIdentity, tr, fields);
            let body = construct_string(named, Piece::Identity, tr, fields);
            String::from_str("fn spec_identity() -> Self::Model { ").concat(specs.as_str()).concat(
                " } fn lemma_identity(_a: Self::Model) {} fn identity() -> Self { ",
            ).concat(body.as_str()).concat(" } ")
        },
        TowerTrait::Group => {
            let specs = tuple_string(Piece::SpecInverse, tr, fields);
            let body = construct_string(named, Piece::Inverse, tr, fields);
            String::from_str("fn spec_inverse(a: Self::Model) -> Self::Model { ").concat(
                specs.as_str(),
            ).concat(" } fn lemma_inverse(_a: Self::Model) {} fn inverse(&self) -> Self { ").concat(
                body.as_str(),
            ).concat(" } ")
        },
        TowerTrait::AbelianGroup => String::from_str(
            "fn lemma_commutative(_a: Self::Model, _b: Self::Model) {} ",
        ),
        TowerTrait::Semiring => String::from_str(
            "fn lemma_distributive(_a: Self::Model, _b: Self::Model, _c: Self::Model) {} ",
        ),
        TowerTrait::CommutativeRing => String::from_str(
            "fn lemma_multiplication_commutes(_a: Self::Model, _b: Self::Model) {} ",
        ),
        TowerTrait::DivisionRing => {
            let exist = parts_string(Piece::InversesExist, tr, fields, false, " && ", "");
            let specs = tuple_string(Piece::SpecInv, tr, fields);
            let body = construct_string(named, Piece::Inv, tr, fields);
            String::from_str("fn inverses_exist() -> bool { true").concat(exist.as_str()).concat(
                " } fn spec_inv(a: Self::Model) -> Self::Model { ",
            ).concat(specs.as_str()).concat(
                " } fn lemma_inv_closed(_a: Self::Model) {} fn lemma_inv(_a: Self::Model) {} fn inv(&self) -> Self { ",
            ).concat(body.as_str()).concat(" } ")
        },
        TowerTrait::Field => String::from_str("fn lemma_zero_is_not_one() {} "),
        TowerTrait::Module => {
            let scalar = qualified_string(fields[0].ty.as_str(), tr);
            let specs = tuple_string(Piece::SpecScale, tr, fields);
            let body = construct_string(named, Piece::Scale, tr, fields);
            String::from_str("type Scalar = ").concat(scalar.as_str()).concat(
                "::Scalar; fn spec_scale(s: <Self::Scalar as ",
            ).concat(carrier).concat(">::Model, v: Self::Model) -> Self::Model { ").concat(
                specs.as_str(),
            ).concat(" } fn lemma_module(_s: <Self::Scalar as ").concat(carrier).concat(
                ">::Model, _t: <Self::Scalar as ",
            ).concat(carrier).concat(
                ">::Model, _u: Self::Model, _v: Self::Model) {} fn scale(s: &Self::Scalar, v: Self) -> Self { ",
            ).concat(body.as_str()).concat(" } ")
        },
        TowerTrait::Loop | TowerTrait::Ring | TowerTrait::VectorSpace => String::new(),
    }
}

/// The extra where-predicate of a vector space: the first field's scalar
/// is a field (the trait's own requirement, which the fields' bounds do not
/// carry).
pub open spec fn scalar_field_text(p: ImplPlan, fs: Seq<FieldView>) -> Seq<char> {
    if p.tr == TowerTrait::VectorSpace {
        qualified_text(fs[0].0, trait_text(TowerTrait::Module, p.ops)) + "::Scalar: "@ + trait_text(
            TowerTrait::Field,
            p.ops,
        ) + ", "@
    } else {
        Seq::empty()
    }
}

/// The impl of `p` for the struct `ty_name` as Rust source: the header with
/// the struct's generics, one `where` holding the struct's own predicates,
/// the vector-space predicate and a bound per distinct field type, and the
/// component-wise items.
pub open spec fn impl_text(
    d: Derivation,
    ty_name: Seq<char>,
    impl_generics: Seq<char>,
    ty_generics: Seq<char>,
    where_predicates: Seq<char>,
    p: ImplPlan,
) -> Seq<char> {
    let fs = field_views(d.fields@);
    "impl"@ + impl_generics + " "@ + trait_text(p.tr, p.ops) + " for "@ + ty_name + ty_generics
        + " where "@ + where_predicates + scalar_field_text(p, fs) + bounds_text(
        strings_view(d.field_types@),
        trait_text(p.bound, p.ops),
    ) + "{ "@ + items_text(p, fs, d.named) + "}"@
}

/// The impl of `p` for the struct `ty_name` as Rust source. The generics are
/// the struct's, as text; `where_predicates` is the struct's own
/// where-clause predicates, each followed by a comma (empty for none).
pub fn render_impl(
    d: &Derivation,
    ty_name: &str,
    impl_generics: &str,
    ty_generics: &str,
    where_predicates: &str,
    p: &ImplPlan,
) -> (r: String)
    requires
        d.fields@.len() > 0,
    ensures
        r@ == impl_text(*d, ty_name@, impl_generics@, ty_generics@, where_predicates@, *p),
{
    let fields = d.fields.as_slice();
    let tr = trait_string(p.tr, p.ops);
    let scalar = if p.tr == TowerTrait::VectorSpace {
        let module = trait_string(TowerTrait::Module, p.ops);
        let field = trait_string(TowerTrait::Field, p.ops);
        qualified_string(fields[0].ty.as_str(), module.as_str()).concat("::Scalar: ").concat(
            field.as_str(),
        ).concat(", ")
    } else {
        String::new()
    };
    let bound = trait_string(p.bound, p.ops);
    let bounds = bounds_string(d.field_types.as_slice(), bound.as_str());
    let items = items_string(p, fields, d.named);
    String::from_str("impl").concat(impl_generics).concat(" ").concat(tr.as_str()).concat(
        " for ",
    ).concat(ty_name).concat(ty_generics).concat(" where ").concat(where_predicates).concat(
        scalar.as_str(),
    ).concat(bounds.as_str()).concat("{ ").concat(items.as_str()).concat("}")
}

/// The impls of `plans` in order, as Rust source, one after the other.
pub open spec fn impls_text(
    d: Derivation,
    ty_name: Seq<char>,
    impl_generics: Seq<char>,
    ty_generics: Seq<char>,
    where_predicates: Seq<char>,
    plans: Seq<ImplPlan>,
) -> Seq<char>
    decreases plans.len(),
{
    if plans.len() == 0 {
        Seq::empty()
    } else {
        impls_text(d, ty_name, impl_generics, ty_generics, where_predicates, plans.drop_last())
            + impl_text(d, ty_name, impl_generics, ty_generics, where_predicates, plans.last())
    }
}

/// Everything the derivation writes, as Rust source: the impl of each of
/// its plans, in order.
pub fn render(
    d: &Derivation,
    ty_name: &str,
    impl_generics: &str,
    ty_generics: &str,
    where_predicates: &str,
) -> (r: String)
    requires
        d.fields@.len() > 0,
    ensures
        r@ == impls_text(*d, ty_name@, impl_generics@, ty_generics@, where_predicates@, d.impls@),
{
    let mut out = String::new();
    let mut i: usize = 0;
    while i < d.impls.len()
        invariant
            i <= d.impls@.len(),
            d.fields@.len() > 0,
            out@ == impls_text(
                *d,
                ty_name@,
                impl_generics@,
                ty_generics@,
                where_predicates@,
                d.impls@.take(i as int),
            ),
        decreases d.impls@.len() - i,
    {
        let one = render_impl(d, ty_name, impl_generics, ty_generics, where_predicates, &d.impls[i]);
        out = out.concat(one.as_str());
        proof {
            assert(d.impls@.take(i + 1).drop_last() =~= d.impls@.take(i as int));
        }
        i += 1;
    }
    proof {
        assert(d.impls@.take(d.impls@.len() as int) =~= d.impls@);
    }
    out
}

/// The method an impl of a trait forwards to the fields, if any.
pub open spec fn forwarded_method(t: TowerTrait) -> Option<Method> {
    match t {
        TowerTrait::Carrier => Some(Method::Model),
        TowerTrait::Magma => Some(Method::Combine),
        TowerTrait::Monoid => Some(Method::Identity),
        TowerTrait::Group => Some(Method::Inverse),
        TowerTrait::DivisionRing => Some(Method::Inv),
        TowerTrait::Module => Some(Method::Scale),
        _ => None,
    }
}

/// Every impl a derivation plans forwards the method of its trait.
pub proof fn lemma_plans_forward_their_method(level: Level)
    ensures
        forall|i: int|
            0 <= i < impls_plan(level).len() ==> #[trigger] impls_plan(level)[i].method
                == forwarded_method(impls_plan(level)[i].tr),
{
    assert forall|i: int|
        0 <= i < impls_plan(level).len() implies #[trigger] impls_plan(level)[i].method
        == forwarded_method(impls_plan(level)[i].tr) by {
        let s = impls_plan(level);
        let add = single_op_plan(OpMarker::Additive, if level == Level::Monoid {
            Level::Monoid
        } else {
            Level::Group
        });
        let mul = single_op_plan(OpMarker::Multiplicative, Level::Monoid);
        assert(forall|j: int|
            0 <= j < add.len() ==> #[trigger] add[j].method == forwarded_method(add[j].tr));
        assert(forall|j: int|
            0 <= j < mul.len() ==> #[trigger] mul[j].method == forwarded_method(mul[j].tr));
        assert(forall|j: int|
            0 <= j < two_op_plan(level).len() ==> #[trigger] two_op_plan(level)[j].method
                == forwarded_method(two_op_plan(level)[j].tr));
        assert(forall|j: int|
            0 <= j < module_plan().len() ==> #[trigger] module_plan()[j].method == forwarded_method(
                module_plan()[j].tr,
            ));
    }
}

/// The name of a forwarded method.
pub open spec fn method_name(m: Method) -> Seq<char> {
    match m {
        Method::Model => "model"@,
        Method::Combine => "combine"@,
        Method::Identity => "identity"@,
        Method::Inverse => "inverse"@,
        Method::Inv => "inv"@,
        Method::Scale => "scale"@,
    }
}

/// The per-field expression that calls method `m` of the field.
pub open spec fn exec_piece(m: Method) -> Piece {
    match m {
        Method::Model => Piece::ModelOf,
        Method::Combine => Piece::Combine,
        Method::Identity => Piece::Identity,
        Method::Inverse => Piece::Inverse,
        Method::Inv => Piece::Inv,
        Method::Scale => Piece::Scale,
    }
}

/// The per-field expression that calls the spec counterpart of method `m`
/// (for `model`, the field's model type).
pub open spec fn spec_piece(m: Method) -> Piece {
    match m {
        Method::Model => Piece::ModelType,
        Method::Combine => Piece::SpecCombine,
        Method::Identity => Piece::SpecIdentity,
        Method::Inverse => Piece::SpecInverse,
        Method::Inv => Piece::SpecInv,
        Method::Scale => Piece::SpecScale,
    }
}

/// `t` occurs in `s`.
pub open spec fn contains_text(s: Seq<char>, t: Seq<char>) -> bool {
    exists|k: int| 0 <= k && k + t.len() <= s.len() && #[trigger] s.subrange(k, k + t.len()) == t
}

proof fn lemma_contains_self(t: Seq<char>)
    ensures
        contains_text(t, t),
{
    let k: int = 0;
    assert(t.subrange(k, k + t.len()) =~= t);
}

proof fn lemma_contains_left(x: Seq<char>, y: Seq<char>, t: Seq<char>)
    requires
        contains_text(x, t),
    ensures
        contains_text(x + y, t),
{
    let k = choose|k: int| 0 <= k && k + t.len() <= x.len() && #[trigger] x.subrange(k, k + t.len()) == t;
    assert((x + y).subrange(k, k + t.len()) =~= x.subrange(k, k + t.len()));
}

proof fn lemma_contains_right(x: Seq<char>, y: Seq<char>, t: Seq<char>)
    requires
        contains_text(y, t),
    ensures
        contains_text(x + y, t),
{
    let k = choose|k: int| 0 <= k && k + t.len() <= y.len() && #[trigger] y.subrange(k, k + t.len()) == t;
    assert((x + y).subrange(x.len() + k, x.len() + k + t.len()) =~= y.subrange(k, k + t.len()));
}

/// The executable side of a forwarded method, written out: the struct built
/// from each field's own call of the method (for the model, the tuple of
/// the fields' models).
pub open spec fn exec_text(m: Method, named: bool, tr: Seq<char>, fs: Seq<FieldView>) -> Seq<char> {
    if m == Method::Model {
        tuple_text(Piece::ModelOf, tr, fs)
    } else {
        construct_text(named, exec_piece(m), tr, fs)
    }
}

/// `t` occurs in `(x + t) + y`.
proof fn lemma_contains_between(x: Seq<char>, t: Seq<char>, y: Seq<char>)
    ensures
        contains_text((x + t) + y, t),
{
    lemma_contains_self(t);
    lemma_contains_right(x, t, t);
    lemma_contains_left(x + t, y, t);
}

/// The impl written for a trait that forwards a method holds both sides of
/// that method: the spec side as the tuple of the fields' spec counterparts,
/// and the executable side built from each field's own call of the method.
pub proof fn lemma_rendered_items_forward(p: ImplPlan, fs: Seq<FieldView>, named: bool)
    requires
        p.method == forwarded_method(p.tr),
        p.method is Some,
    ensures
        contains_text(
            items_text(p, fs, named),
            exec_text(p.method->0, named, trait_text(p.tr, p.ops), fs),
        ),
        contains_text(
            items_text(p, fs, named),
            tuple_text(spec_piece(p.method->0), trait_text(p.tr, p.ops), fs),
        ),
{
    let tr = trait_text(p.tr, p.ops);
    let carrier = trait_text(TowerTrait::Carrier, Ops::Nullary);
    let m = p.method->0;
    let e = exec_text(m, named, tr, fs);
    let t = tuple_text(spec_piece(m), tr, fs);
    let s = items_text(p, fs, named);
    match p.tr {
        TowerTrait::Carrier => {
            let l1 = "type Model = "@;
            let l2 = "; fn model(self) -> Self::Model { "@;
            let l3 = " } fn contains(m: Self::Model) -> bool { true"@;
            let c = parts_text(Piece::Contains, tr, fs, false, " && "@, ""@);
            let l4 = " } fn lemma_model_contained(_x: &Self) {} "@;
            assert(s == (((((l1 + t) + l2) + e) + l3) + c) + l4);
            lemma_contains_between(l1, t, l2);
            lemma_contains_left((l1 + t) + l2, e, t);
            lemma_contains_left(((l1 + t) + l2) + e, l3, t);
            lemma_contains_left((((l1 + t) + l2) + e) + l3, c, t);
            lemma_contains_left(((((l1 + t) + l2) + e) + l3) + c, l4, t);
            lemma_contains_between((l1 + t) + l2, e, l3);
            lemma_contains_left((((l1 + t) + l2) + e) + l3, c, e);
            lemma_contains_left(((((l1 + t) + l2) + e) + l3) + c, l4, e);
        },
        TowerTrait::Magma | TowerTrait::Monoid | TowerTrait::Group => {
            let l1 = if p.tr == TowerTrait::Magma {
                "fn spec_combine(a: Self::Model, b: Self::Model) -> Self::Model { "@
            } else if p.tr == TowerTrait::Monoid {
                "fn spec_identity() -> Self::Model { "@
            } else {
                "fn spec_inverse(a: Self::Model) -> Self::Model { "@
            };
            let l2 = if p.tr == TowerTrait::Magma {
                " } fn lemma_closed(_a: Self::Model, _b: Self::Model) {} fn combine(&self, rhs: &Self) -> Self { "@
            } else if p.tr == TowerTrait::Monoid {
                " } fn lemma_identity(_a: Self::Model) {} fn identity() -> Self { "@
            } else {
                " } fn lemma_inverse(_a: Self::Model) {} fn inverse(&self) -> Self { "@
            };
            let l3 = " } "@;
            assert(s == (((l1 + t) + l2) + e) + l3);
            lemma_contains_between(l1, t, l2);
            lemma_contains_left((l1 + t) + l2, e, t);
            lemma_contains_left(((l1 + t) + l2) + e, l3, t);
            lemma_contains_between((l1 + t) + l2, e, l3);
        },
        TowerTrait::DivisionRing => {
            let l1 = "fn inverses_exist() -> bool { true"@;
            let x = parts_text(Piece::InversesExist, tr, fs, false, " && "@, ""@);
            let l2 = " } fn spec_inv(a: Self::Model) -> Self::Model { "@;
            let l3 = " } fn lemma_inv_closed(_a: Self::Model) {} fn lemma_inv(_a: Self::Model) {} fn inv(&self) -> Self { "@;
            let l4 = " } "@;
            assert(s == (((((l1 + x) + l2) + t) + l3) + e) + l4);
            lemma_contains_between((l1 + x) + l2, t, l3);
            lemma_contains_left((((l1 + x) + l2) + t) + l3, e, t);
            lemma_contains_left(((((l1 + x) + l2) + t) + l3) + e, l4, t);
            lemma_contains_between((((l1 + x) + l2) + t) + l3, e, l4);
        },
        TowerTrait::Module => {
            let l1 = "type Scalar = "@;
            let q = qualified_text(fs[0].0, tr);
            let l2 = "::Scalar; fn spec_scale(s: <Self::Scalar as "@;
            let l3 = ">::Model, v: Self::Model) -> Self::Model { "@;
            let l4 = " } fn lemma_module(_s: <Self::Scalar as "@;
            let l5 = ">::Model, _t: <Self::Scalar as "@;
            let l6 = ">::Model, _u: Self::Model, _v: Self::Model) {} fn scale(s: &Self::Scalar, v: Self) -> Self { "@;
            let l7 = " } "@;
            let a = ((((l1 + q) + l2) + carrier) + l3);
            let b = (((((a + t) + l4) + carrier) + l5) + carrier) + l6;
            assert(s == (b + e) + l7);
            lemma_contains_between(a, t, l4);
            lemma_contains_left((a + t) + l4, carrier, t);
            lemma_contains_left(((a + t) + l4) + carrier, l5, t);
            lemma_contains_left((((a + t) + l4) + carrier) + l5, carrier, t);
            lemma_contains_left(((((a + t) + l4) + carrier) + l5) + carrier, l6, t);
            lemma_contains_left(b, e, t);
            lemma_contains_left(b + e, l7, t);
            lemma_contains_between(b, e, l7);
        },
        _ => {},
    }
}

/// Each field's expression calls the method it is named for: the executable
/// side calls `<F as Tr>::m(`, the spec side `<F as Tr>::spec_m(` (for the
/// model, `self.f.model(` on the field itself).
pub proof fn lemma_pieces_call_their_method(m: Method, tr: Seq<char>, f: FieldView, i: nat)
    ensures
        m != Method::Model ==> (qualified_text(f.0, tr) + "::"@ + method_name(m) + "("@).is_prefix_of(
            piece_text(exec_piece(m), tr, f, i),
        ),
        m != Method::Model ==> (qualified_text(f.0, tr) + "::spec_"@ + method_name(m)
            + "("@).is_prefix_of(piece_text(spec_piece(m), tr, f, i)),
        m == Method::Model ==> (access_text("self"@, f) + "."@ + method_name(m) + "("@).is_prefix_of(
            piece_text(exec_piece(m), tr, f, i),
        ),
{
    reveal_strlit("::Model");
    reveal_strlit(".model()");
    reveal_strlit("::contains(m.");
    reveal_strlit("::spec_combine(a.");
    reveal_strlit(", b.");
    reveal_strlit("::combine(&");
    reveal_strlit(", &");
    reveal_strlit("::spec_identity()");
    reveal_strlit("::identity()");
    reveal_strlit("::spec_inverse(a.");
    reveal_strlit("::inverse(&");
    reveal_strlit("::inverses_exist()");
    reveal_strlit("::spec_inv(a.");
    reveal_strlit("::inv(&");
    reveal_strlit("::spec_scale(s, v.");
    reveal_strlit("::scale(s, ");
    reveal_strlit("::");
    reveal_strlit("::spec_");
    reveal_strlit("(");
    reveal_strlit("model");
    reveal_strlit("combine");
    reveal_strlit("identity");
    reveal_strlit("inverse");
    reveal_strlit("inv");
    reveal_strlit("scale");
    reveal_strlit(".");
    reveal_strlit(")");
    let q = qualified_text(f.0, tr);
    let exec = piece_text(exec_piece(m), tr, f, i);
    let spec = piece_text(spec_piece(m), tr, f, i);
    if m == Method::Model {
        let pre = access_text("self"@, f) + "."@ + method_name(m) + "("@;
        assert(exec.subrange(0, pre.len() as int) =~= pre);
    } else {
        let pre = q + "::"@ + method_name(m) + "("@;
        let spre = q + "::spec_"@ + method_name(m) + "("@;
        assert(exec.subrange(0, pre.len() as int) =~= pre);
        assert(spec.subrange(0, spre.len() as int) =~= spre);
    }
}

} // verus!
