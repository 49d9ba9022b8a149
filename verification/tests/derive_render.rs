use alga2::derive::{
    decimal_string, expand, render, render_impl, AlgaOption, FieldsShape, ItemShape, NamedField,
    TowerTrait,
};

fn level_option(name: &str) -> AlgaOption {
    AlgaOption { key: String::from("level"), value: Some(String::from(name)) }
}

fn named(fields: &[(&str, &str)]) -> ItemShape {
    ItemShape::Struct(FieldsShape::Named(
        fields
            .iter()
            .map(|(n, t)| NamedField { name: String::from(*n), ty: String::from(*t) })
            .collect(),
    ))
}

fn unnamed(types: &[&str]) -> ItemShape {
    ItemShape::Struct(FieldsShape::Unnamed(types.iter().map(|t| String::from(*t)).collect()))
}

#[test]
fn magma_impl_forwards_to_named_fields() {
    let d = expand(&named(&[("x", "T"), ("y", "T")]), &[level_option("Group")]).unwrap();
    let p = d.impls.iter().find(|p| p.tr == TowerTrait::Magma).unwrap();
    let text = render_impl(&d, "V", "< T >", "< T >", "T : Clone, ", p);
    let m = "::alga2::tower::Magma<::alga2::op::Additive>";
    let expected = format!(
        "impl< T > {m} for V< T > where T : Clone, T: {m}, {{ \
         fn spec_combine(a: Self::Model, b: Self::Model) -> Self::Model {{ \
         (<T as {m}>::spec_combine(a.0, b.0), <T as {m}>::spec_combine(a.1, b.1), ) }} \
         fn lemma_closed(_a: Self::Model, _b: Self::Model) {{}} \
         fn combine(&self, rhs: &Self) -> Self {{ \
         Self {{ x: <T as {m}>::combine(&self.x, &rhs.x), y: <T as {m}>::combine(&self.y, &rhs.y), }} }} }}"
    );
    assert_eq!(text, expected);
}

#[test]
fn vector_space_impl_requires_a_field_scalar() {
    let d = expand(&unnamed(&["f64", "f64"]), &[]).unwrap();
    let p = d.impls.last().unwrap();
    assert_eq!(p.tr, TowerTrait::VectorSpace);
    let text = render_impl(&d, "P", "", "", "", p);
    let ops = "<::alga2::op::Additive, ::alga2::op::Multiplicative>";
    let expected = format!(
        "impl ::alga2::tower::VectorSpace{ops} for P where \
         <f64 as ::alga2::tower::Module{ops}>::Scalar: ::alga2::tower::Field{ops}, \
         f64: ::alga2::tower::VectorSpace{ops}, {{ }}"
    );
    assert_eq!(text, expected);
}

#[test]
fn positional_fields_are_built_by_position() {
    let types: Vec<&str> = vec!["u8"; 11];
    let d = expand(&unnamed(&types), &[level_option("Monoid")]).unwrap();
    let p = d.impls.iter().find(|p| p.tr == TowerTrait::Monoid).unwrap();
    let text = render_impl(&d, "W", "", "", "", p);
    assert!(text.contains("fn identity() -> Self { Self(<u8 as ::alga2::tower::Monoid<::alga2::op::Additive>>::identity(), "));
    // Only one bound: the distinct field types.
    assert_eq!(text.matches("u8: ").count(), 1);
    let magma = d.impls.iter().find(|p| p.tr == TowerTrait::Magma).unwrap();
    let text = render_impl(&d, "W", "", "", "", magma);
    assert!(text.contains("spec_combine(a.10, b.10)"));
    assert!(text.contains("combine(&self.10, &rhs.10)"));
}

#[test]
fn decimal_indices() {
    assert_eq!(decimal_string(0), "0");
    assert_eq!(decimal_string(7), "7");
    assert_eq!(decimal_string(10), "10");
    assert_eq!(decimal_string(1496), "1496");
}

#[test]
fn every_level_renders_one_impl_per_plan() {
    for level in ["Monoid", "Group", "Ring", "Field"] {
        let d = expand(&named(&[("x", "f64"), ("y", "i32")]), &[level_option(level)]).unwrap();
        let text = render(&d, "S", "", "", "");
        let tokens: proc_macro2::TokenStream = text.parse().unwrap();
        // At top level: `impl`, its header, then its braced body, per impl.
        let impls = tokens
            .into_iter()
            .filter(|t| matches!(t, proc_macro2::TokenTree::Ident(i) if i == "impl"))
            .count();
        assert_eq!(impls, d.impls.len());
        // One `where` per impl.
        assert_eq!(text.matches(" where ").count(), d.impls.len());
    }
}
