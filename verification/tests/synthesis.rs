//! Whole-declaration synthesis: records, tagged unions, skipping, bounds,
//! and the run-time selection semantics.

use derive_quickcheck_arbitrary::config::Configuration;
use derive_quickcheck_arbitrary::decl::{
    FieldDecl, RawAnnotation, TypeBody, TypeDeclaration, VariantDecl,
};
use derive_quickcheck_arbitrary::errors::{ConfigFault, DeriveError, SiteKind};
use derive_quickcheck_arbitrary::synth::{
    expand_arbitrary, select_variant, Member, Recipe, Strategy,
};

fn marker(content: &[u8]) -> RawAnnotation {
    RawAnnotation {
        marker: "arbitrary".to_owned(),
        inner_style: false,
        content: content.to_vec(),
    }
}

fn field(name: &str, ty: &[u8], attrs: Vec<RawAnnotation>) -> FieldDecl {
    FieldDecl { name: Some(name.to_owned()), ty: ty.to_vec(), attrs }
}

fn positional(ty: &[u8], attrs: Vec<RawAnnotation>) -> FieldDecl {
    FieldDecl { name: None, ty: ty.to_vec(), attrs }
}

fn variant(name: &str, fields: Vec<FieldDecl>, attrs: Vec<RawAnnotation>) -> VariantDecl {
    VariantDecl { name: name.to_owned(), fields, attrs }
}

fn decl(name: &str, attrs: Vec<RawAnnotation>, body: TypeBody) -> TypeDeclaration {
    TypeDeclaration { name: name.to_owned(), generics: Vec::new(), attrs, body }
}

#[test]
fn trybuild() {
    // an unrecognized key on a field fails the whole declaration
    let foo = decl(
        "Foo",
        vec![],
        TypeBody::Record(vec![field("_foo", b"()", vec![marker(b"does_not_exist")])]),
    );
    assert_eq!(
        expand_arbitrary(&foo),
        Err(DeriveError::MalformedConfiguration(ConfigFault::UnknownKey)),
    );

    // `skip` on a field is inapplicable
    let bar = decl(
        "Bar",
        vec![],
        TypeBody::Record(vec![field("_bar", b"()", vec![marker(b"skip")])]),
    );
    let r = expand_arbitrary(&bar);
    assert_eq!(r, Err(DeriveError::InapplicableAtSite(SiteKind::Field)));
    assert_eq!(r.unwrap_err().message(), "`skip` and `where` are not valid for members");

    // a field whose type offers no constructor of its own still generates:
    // the recipe recurses, and only the surrounding program's build fails
    let no_impl = decl(
        "Foo",
        vec![],
        TypeBody::Record(vec![field("_does_not_impl_arbitrary", b"DoesNotImplArbitrary", vec![])]),
    );
    let g = expand_arbitrary(&no_impl).expect("generation itself succeeds");
    match g.recipe {
        Recipe::Record(c) => assert_eq!(c.fields[0].strategy, Strategy::Recurse),
        Recipe::Selection(_) => panic!("a record synthesizes a record recipe"),
    }
}

#[test]
fn unannotated_record_recurses_every_field() {
    let d = decl(
        "Record",
        vec![],
        TypeBody::Record(vec![field("id", b"usize", vec![]), field("name", b"String", vec![])]),
    );
    let g = expand_arbitrary(&d).unwrap();
    assert_eq!(g.name, "Record");
    assert_eq!(g.bounds, Vec::<Vec<u8>>::new());
    match g.recipe {
        Recipe::Record(c) => {
            assert_eq!(c.path, vec!["Record".to_owned()]);
            assert_eq!(c.fields.len(), 2);
            assert_eq!(c.fields[0].member, Member::Named("id".to_owned()));
            assert_eq!(c.fields[0].ty, b"usize".to_vec());
            assert_eq!(c.fields[0].strategy, Strategy::Recurse);
            assert_eq!(c.fields[1].member, Member::Named("name".to_owned()));
            assert_eq!(c.fields[1].ty, b"String".to_vec());
            assert_eq!(c.fields[1].strategy, Strategy::Recurse);
        },
        Recipe::Selection(_) => panic!("a record synthesizes a record recipe"),
    }
}

#[test]
fn default_field_is_deterministic_and_gen_forwards_the_handle() {
    let d = decl(
        "Yakshaver",
        vec![],
        TypeBody::Record(vec![
            field("id", b"usize", vec![marker(b"gen(|g| num::clamp(usize::arbitrary(g), 0, 10_000))")]),
            field("name", b"String", vec![]),
            field("always_false", b"bool", vec![marker(b"default")]),
        ]),
    );
    let g = expand_arbitrary(&d).unwrap();
    match g.recipe {
        Recipe::Record(c) => {
            assert_eq!(
                c.fields[0].strategy,
                Strategy::UseGenerator(b"|g| num::clamp(usize::arbitrary(g), 0, 10_000)".to_vec()),
            );
            assert_eq!(c.fields[1].strategy, Strategy::Recurse);
            assert_eq!(c.fields[2].strategy, Strategy::UseDefault);
        },
        Recipe::Selection(_) => panic!("a record synthesizes a record recipe"),
    }
}

#[test]
fn enum_candidates_stand_in_declaration_order() {
    let d = decl(
        "Enum",
        vec![],
        TypeBody::TaggedUnion(vec![
            variant("Standard", vec![], vec![]),
            variant("Custom", vec![field("len", b"usize", vec![])], vec![]),
        ]),
    );
    let g = expand_arbitrary(&d).unwrap();
    match g.recipe {
        Recipe::Selection(cs) => {
            assert_eq!(cs.len(), 2);
            assert_eq!(cs[0].path, vec!["Enum".to_owned(), "Standard".to_owned()]);
            assert!(cs[0].fields.is_empty());
            assert_eq!(cs[1].path, vec!["Enum".to_owned(), "Custom".to_owned()]);
            assert_eq!(cs[1].fields[0].member, Member::Named("len".to_owned()));
            assert_eq!(cs[1].fields[0].strategy, Strategy::Recurse);
        },
        Recipe::Record(_) => panic!("a tagged union synthesizes a selection recipe"),
    }
}

#[test]
fn skipped_variant_leaves_the_collection() {
    let d = decl(
        "Enum",
        vec![],
        TypeBody::TaggedUnion(vec![
            variant("Standard", vec![], vec![]),
            variant("Custom", vec![field("len", b"usize", vec![])], vec![marker(b"skip")]),
        ]),
    );
    let g = expand_arbitrary(&d).unwrap();
    match g.recipe {
        Recipe::Selection(cs) => {
            assert_eq!(cs.len(), 1);
            assert_eq!(cs[0].path, vec!["Enum".to_owned(), "Standard".to_owned()]);
        },
        Recipe::Record(_) => panic!("a tagged union synthesizes a selection recipe"),
    }
}

#[test]
fn selection_never_yields_a_skipped_variant() {
    let d = decl(
        "Shape",
        vec![],
        TypeBody::TaggedUnion(vec![
            variant("A", vec![], vec![]),
            variant("B", vec![], vec![]),
            variant("C", vec![], vec![marker(b"skip")]),
        ]),
    );
    let g = expand_arbitrary(&d).unwrap();
    let cs = match g.recipe {
        Recipe::Selection(cs) => cs,
        Recipe::Record(_) => panic!("a tagged union synthesizes a selection recipe"),
    };
    let mut seen_a = 0usize;
    let mut seen_b = 0usize;
    for pick in 0..100usize {
        let chosen = select_variant(&cs, pick).expect("two variants remain");
        assert_ne!(chosen.path[1], "C".to_owned());
        if chosen.path[1] == "A" {
            seen_a += 1;
        } else {
            seen_b += 1;
        }
    }
    // a pick that walks the collection evenly selects the remaining two
    // variants equally often
    assert_eq!(seen_a, 50);
    assert_eq!(seen_b, 50);
}

#[test]
fn all_variants_skipped_fails_at_selection_time() {
    let d = decl(
        "Never",
        vec![],
        TypeBody::TaggedUnion(vec![
            variant("A", vec![], vec![marker(b"skip")]),
            variant("B", vec![], vec![marker(b"skip")]),
        ]),
    );
    // generation itself succeeds: the failure is deferred to the selector
    let g = expand_arbitrary(&d).unwrap();
    let cs = match g.recipe {
        Recipe::Selection(cs) => cs,
        Recipe::Record(_) => panic!("a tagged union synthesizes a selection recipe"),
    };
    assert!(cs.is_empty());
    let r = select_variant(&cs, 0);
    assert_eq!(r, Err(DeriveError::EmptyVariantSet));
    assert_eq!(r.unwrap_err().message(), "no variants to choose from");
}

#[test]
fn item_bounds_replace_the_constraint_clause() {
    let d = TypeDeclaration {
        name: "GenericYak".to_owned(),
        generics: b"<T>".to_vec(),
        attrs: vec![marker(b"where(T: Default + Clone + 'static)")],
        body: TypeBody::Record(vec![field("inner", b"T", vec![marker(b"default")])]),
    };
    let g = expand_arbitrary(&d).unwrap();
    assert_eq!(g.generics, b"<T>".to_vec());
    assert_eq!(g.bounds, vec![b"T: Default + Clone + 'static".to_vec()]);
    match g.recipe {
        Recipe::Record(c) => assert_eq!(c.fields[0].strategy, Strategy::UseDefault),
        Recipe::Selection(_) => panic!("a record synthesizes a record recipe"),
    }
}

#[test]
fn item_site_admits_only_where() {
    let d = decl("Foo", vec![marker(b"default")], TypeBody::Record(vec![]));
    let r = expand_arbitrary(&d);
    assert_eq!(r, Err(DeriveError::InapplicableAtSite(SiteKind::Item)));
    assert_eq!(r.unwrap_err().message(), "only `where` is valid for items");
}

#[test]
fn raw_memory_union_is_rejected() {
    let d = decl("Mixed", vec![], TypeBody::RawMemoryUnion);
    let r = expand_arbitrary(&d);
    assert_eq!(r, Err(DeriveError::UnsupportedDeclarationKind));
    assert_eq!(r.unwrap_err().message(), "#[derive(Arbitrary)] is not supported on `union`s");
}

#[test]
fn duplicate_on_a_variant_names_the_variant_site() {
    let d = decl(
        "Enum",
        vec![],
        TypeBody::TaggedUnion(vec![variant("A", vec![], vec![marker(b"skip"), marker(b"skip")])]),
    );
    assert_eq!(
        expand_arbitrary(&d),
        Err(DeriveError::DuplicateAnnotation(SiteKind::Variant)),
    );
}

#[test]
fn positional_fields_are_identified_by_position() {
    let d = decl(
        "Named",
        vec![],
        TypeBody::TaggedUnion(vec![
            variant("Empty", vec![positional(b"String", vec![marker(b"gen(|_| String::new())")])], vec![]),
        ]),
    );
    let g = expand_arbitrary(&d).unwrap();
    match g.recipe {
        Recipe::Selection(cs) => {
            assert_eq!(cs[0].fields[0].member, Member::Positional(0));
            assert_eq!(
                cs[0].fields[0].strategy,
                Strategy::UseGenerator(b"|_| String::new()".to_vec()),
            );
        },
        Recipe::Record(_) => panic!("a tagged union synthesizes a selection recipe"),
    }
}
