use alga2::derive::{
    expand, field_types, fields_of, AlgaOption, DeriveError, FieldsShape, ImplPlan, ItemShape,
    Level, Method, NamedField, OpMarker, Ops, TowerTrait,
};

fn level_option(name: &str) -> AlgaOption {
    AlgaOption { key: String::from("level"), value: Some(String::from(name)) }
}

fn named(fields: &[(&str, &str)]) -> ItemShape {
    ItemShape::Struct(FieldsShape::Named(
        fields
            .iter()
            .map(|(n, t)| NamedField { name: String::from(*n), ty: String::from(*t) })
            .collect(),
    ))
}

fn traits(impls: &[ImplPlan]) -> Vec<(TowerTrait, Ops)> {
    impls.iter().map(|p| (p.tr, p.ops)).collect()
}

#[test]
fn group_level_plan_is_the_additive_group_ladder() {
    let d = expand(&named(&[("x", "T"), ("y", "T")]), &[level_option("Group")]).unwrap();
    assert_eq!(d.level, Level::Group);
    let add = Ops::Single(OpMarker::Additive);
    let mul = Ops::Single(OpMarker::Multiplicative);
    assert_eq!(
        traits(&d.impls),
        vec![
            (TowerTrait::Carrier, Ops::Nullary),
            (TowerTrait::Magma, add),
            (TowerTrait::Semigroup, add),
            (TowerTrait::Quasigroup, add),
            (TowerTrait::Loop, add),
            (TowerTrait::Monoid, add),
            (TowerTrait::Group, add),
            (TowerTrait::AbelianGroup, add),
            (TowerTrait::Magma, mul),
            (TowerTrait::Semigroup, mul),
            (TowerTrait::Monoid, mul),
        ]
    );
    // Every impl is bounded by the same trait on the fields.
    assert_eq!(d.impls[3].bound, TowerTrait::Quasigroup);
    assert_eq!(d.impls[4].bound, TowerTrait::Loop);
    assert!(d.impls.iter().all(|p| p.bound == p.tr));
    assert_eq!(d.impls[6].method, Some(Method::Inverse));
    assert_eq!(d.field_types, vec![String::from("T")]);
    assert!(d.named);
}

#[test]
fn default_level_is_ring_with_the_module_level() {
    let d = expand(&ItemShape::Struct(FieldsShape::Unnamed(vec![String::from("i32")])), &[])
        .unwrap();
    assert_eq!(d.level, Level::Ring);
    let tail: Vec<TowerTrait> = d.impls.iter().skip(11).map(|p| p.tr).collect();
    assert_eq!(
        tail,
        vec![
            TowerTrait::Semiring,
            TowerTrait::Ring,
            TowerTrait::CommutativeRing,
            TowerTrait::Module,
            TowerTrait::VectorSpace
        ]
    );
    assert_eq!(d.impls[14].method, Some(Method::Scale));
    assert_eq!(d.impls.last().unwrap().method, None);
    assert!(!d.named);
}

#[test]
fn field_level_adds_the_division_ring() {
    let d = expand(&named(&[("x", "f64"), ("y", "f64")]), &[level_option("Field")]).unwrap();
    let trs: Vec<TowerTrait> = d.impls.iter().map(|p| p.tr).collect();
    assert!(trs.contains(&TowerTrait::DivisionRing));
    assert!(trs.contains(&TowerTrait::Field));
    assert_eq!(d.impls.len(), 18);
    assert_eq!(d.impls.last().unwrap().tr, TowerTrait::VectorSpace);
}

#[test]
fn monoid_level_stops_both_ladders_at_monoid() {
    let d = expand(&ItemShape::Struct(FieldsShape::Unnamed(vec![String::from("u8")])), &[
        level_option("Monoid"),
    ])
    .unwrap();
    let trs: Vec<TowerTrait> = d.impls.iter().map(|p| p.tr).collect();
    assert!(!trs.contains(&TowerTrait::Group));
    assert!(!trs.contains(&TowerTrait::Ring));
    assert_eq!(d.impls.len(), 9);
}

#[test]
fn last_level_option_wins() {
    let l = Level::parse(&[level_option("Field"), level_option("Monoid")]).unwrap();
    assert_eq!(l, Level::Monoid);
    assert_eq!(Level::parse(&[]).unwrap(), Level::Ring);
}

#[test]
fn bad_options_and_shapes_are_refused() {
    match Level::parse(&[level_option("Lattice")]) {
        Err(DeriveError::UnknownLevel(s)) => assert_eq!(s, "Lattice"),
        other => panic!("unexpected {:?}", other),
    }
    let unknown = AlgaOption { key: String::from("order"), value: Some(String::from("Ring")) };
    assert!(matches!(Level::parse(&[unknown]), Err(DeriveError::UnknownOption)));
    let bare = AlgaOption { key: String::from("level"), value: None };
    assert!(matches!(Level::parse(&[bare]), Err(DeriveError::MissingValue)));
    assert!(matches!(expand(&ItemShape::Enum, &[]), Err(DeriveError::NotAStruct)));
    assert!(matches!(
        expand(&ItemShape::Struct(FieldsShape::Unit), &[]),
        Err(DeriveError::NoFields)
    ));
    assert!(matches!(
        expand(&ItemShape::Struct(FieldsShape::Named(vec![])), &[]),
        Err(DeriveError::NoFields)
    ));
    // A non-struct is refused before its options are read.
    assert!(matches!(
        expand(&ItemShape::Union, &[level_option("Nope")]),
        Err(DeriveError::NotAStruct)
    ));
}

#[test]
fn field_types_are_deduplicated_in_order() {
    let fields = fields_of(&FieldsShape::Unnamed(vec![
        String::from("T"),
        String::from("i32"),
        String::from("T"),
        String::from("U"),
        String::from("i32"),
    ]))
    .unwrap();
    assert_eq!(fields[2].index, 2);
    assert!(fields[2].name.is_none());
    assert_eq!(
        field_types(&fields),
        vec![String::from("T"), String::from("i32"), String::from("U")]
    );
}

#[test]
fn each_error_has_its_message() {
    assert_eq!(
        DeriveError::UnknownLevel(String::from("Lattice")).message(),
        "unknown alga level `Lattice` (expected Monoid, Group, Ring or Field)"
    );
    assert_eq!(
        DeriveError::UnknownOption.message(),
        "unknown `#[alga(...)]` option (only `level` is supported)"
    );
    assert_eq!(DeriveError::MissingValue.message(), "expected `=`");
    assert_eq!(DeriveError::NotAStruct.message(), "#[derive(Alga)] supports structs only");
    assert_eq!(DeriveError::NoFields.message(), "#[derive(Alga)] needs at least one field");
}
