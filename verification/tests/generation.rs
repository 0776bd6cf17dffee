//! Generation-time behaviour: schema extraction, type classification
//! and the assembly diagnostics.

use tlayuda::assemble::{assemble, first_unnamed_field, AssemblyError, Registry, RegistryEntry};
use tlayuda::schema::{extract_schema, Marker, RawField, TypeShape};
use tlayuda::select::{classify, NumKind, TypeCategory};

fn named(ty: &str) -> TypeShape {
    TypeShape::Path(vec![ty.to_string()])
}

fn field_with(name: Option<&str>, shape: TypeShape, markers: Vec<Marker>) -> RawField {
    RawField { name: name.map(|n| n.to_string()), shape, markers }
}

#[test]
fn anonymous_fields_silently_dropped() {
    let schema = extract_schema(vec![
        field_with(Some("kept"), named("u32"), Vec::new()),
        field_with(None, named("u32"), Vec::new()),
        field_with(Some("also_kept"), named("bool"), Vec::new()),
    ]);
    assert_eq!(schema.len(), 2);
    assert_eq!(schema[0].name, "kept");
    assert_eq!(schema[1].name, "also_kept");
}

#[test]
fn ignore_marker_excludes() {
    let schema = extract_schema(vec![field_with(
        Some("tag"),
        named("String"),
        vec![Marker::Bare("tlayuda_ignore".to_string())],
    )]);
    assert!(schema[0].excluded);
}

#[test]
fn other_annotations_do_not_exclude() {
    let schema = extract_schema(vec![
        field_with(Some("a"), named("u8"), vec![Marker::Bare("serde".to_string())]),
        field_with(Some("b"), named("u8"), vec![Marker::OtherForm]),
        field_with(Some("c"), named("u8"), vec![Marker::Malformed]),
    ]);
    assert!(schema.iter().all(|d| !d.excluded));
}

#[test]
fn classification_by_name() {
    assert_eq!(classify(&"String".to_string()), TypeCategory::Text);
    assert_eq!(classify(&"OsString".to_string()), TypeCategory::Text);
    assert_eq!(classify(&"char".to_string()), TypeCategory::Character);
    assert_eq!(classify(&"bool".to_string()), TypeCategory::Boolean);
    assert_eq!(classify(&"u8".to_string()), TypeCategory::Number(NumKind::U8));
    assert_eq!(classify(&"i128".to_string()), TypeCategory::Number(NumKind::I128));
    assert_eq!(classify(&"usize".to_string()), TypeCategory::Number(NumKind::USize));
    assert_eq!(classify(&"f32".to_string()), TypeCategory::Float);
    assert_eq!(classify(&"f64".to_string()), TypeCategory::Float);
    assert_eq!(classify(&"Widget".to_string()), TypeCategory::Nested);
}

#[test]
fn classification_uses_last_segment() {
    let schema = extract_schema(vec![field_with(
        Some("s"),
        TypeShape::Path(vec!["std".to_string(), "string".to_string(), "String".to_string()]),
        Vec::new(),
    )]);
    let registry = Registry { entries: Vec::new() };
    assert!(assemble(&schema, &registry).is_ok());
}

#[test]
fn unsupported_shape_is_fatal_and_names_the_field() {
    let schema = extract_schema(vec![
        field_with(Some("fine"), named("u32"), Vec::new()),
        field_with(Some("pair"), TypeShape::Other, Vec::new()),
    ]);
    let registry = Registry { entries: Vec::new() };
    assert_eq!(
        assemble(&schema, &registry),
        Err(AssemblyError::UnsupportedFieldType { field: "pair".to_string() })
    );
}

#[test]
fn float_field_rejected_by_the_model() {
    let schema = extract_schema(vec![field_with(Some("ratio"), named("f64"), Vec::new())]);
    let registry = Registry { entries: Vec::new() };
    assert_eq!(
        assemble(&schema, &registry),
        Err(AssemblyError::UnsupportedFieldType { field: "ratio".to_string() })
    );
}

#[test]
fn excluded_field_of_unsupported_shape_still_fatal() {
    // A non-path type is fatal for every field, excluded ones
    // included.
    let schema = extract_schema(vec![field_with(
        Some("anything"),
        TypeShape::Other,
        vec![Marker::Bare("tlayuda_ignore".to_string())],
    )]);
    let registry = Registry { entries: Vec::new() };
    assert_eq!(
        assemble(&schema, &registry),
        Err(AssemblyError::UnsupportedFieldType { field: "anything".to_string() })
    );
}

#[test]
fn excluded_field_category_unconstrained() {
    // An excluded field only needs a named type: a float or an
    // unregistered record name assembles, since its value comes from
    // the constructor alone.
    let schema = extract_schema(vec![
        field_with(
            Some("ratio"),
            named("f64"),
            vec![Marker::Bare("tlayuda_ignore".to_string())],
        ),
        field_with(
            Some("extra"),
            named("Mystery"),
            vec![Marker::Bare("tlayuda_ignore".to_string())],
        ),
    ]);
    let registry = Registry { entries: Vec::new() };
    assert!(assemble(&schema, &registry).is_ok());
}

#[test]
fn first_unnamed_field_checks_every_field() {
    let named_only = extract_schema(vec![
        field_with(Some("a"), named("u8"), Vec::new()),
        field_with(
            Some("b"),
            named("Mystery"),
            vec![Marker::Bare("tlayuda_ignore".to_string())],
        ),
    ]);
    assert_eq!(first_unnamed_field(&named_only), None);
    let with_offender = extract_schema(vec![
        field_with(Some("a"), named("u8"), Vec::new()),
        field_with(
            Some("pair"),
            TypeShape::Other,
            vec![Marker::Bare("tlayuda_ignore".to_string())],
        ),
    ]);
    assert_eq!(first_unnamed_field(&with_offender), Some(1));
}

#[test]
fn unregistered_nested_type_is_missing_capability() {
    let schema = extract_schema(vec![field_with(Some("inner"), named("Mystery"), Vec::new())]);
    let registry = Registry { entries: Vec::new() };
    assert_eq!(
        assemble(&schema, &registry),
        Err(AssemblyError::MissingNestedCapability {
            field: "inner".to_string(),
            nested_type: "Mystery".to_string(),
        })
    );
}

#[test]
fn nested_type_with_excluded_field_is_missing_capability() {
    // A nested builder is invoked with no constructor arguments, so a
    // nested record with an excluded field cannot be built.
    let inner_schema = extract_schema(vec![field_with(
        Some("tag"),
        named("String"),
        vec![Marker::Bare("tlayuda_ignore".to_string())],
    )]);
    let registry = Registry {
        entries: vec![RegistryEntry { name: "Inner".to_string(), schema: inner_schema }],
    };
    let schema = extract_schema(vec![field_with(Some("inner"), named("Inner"), Vec::new())]);
    assert_eq!(
        assemble(&schema, &registry),
        Err(AssemblyError::MissingNestedCapability {
            field: "inner".to_string(),
            nested_type: "Inner".to_string(),
        })
    );
}

#[test]
fn cyclic_nesting_is_too_deep() {
    let loop_schema = extract_schema(vec![field_with(Some("next"), named("Node"), Vec::new())]);
    let registry = Registry {
        entries: vec![RegistryEntry { name: "Node".to_string(), schema: loop_schema }],
    };
    let schema = extract_schema(vec![field_with(Some("head"), named("Node"), Vec::new())]);
    match assemble(&schema, &registry) {
        Err(AssemblyError::NestingTooDeep { field }) => assert_eq!(field, "next"),
        other => panic!("expected a nesting diagnostic, got {:?}", other),
    }
}

#[test]
fn first_failing_field_reported() {
    let schema = extract_schema(vec![
        field_with(Some("bad_one"), TypeShape::Other, Vec::new()),
        field_with(Some("bad_two"), named("f32"), Vec::new()),
    ]);
    let registry = Registry { entries: Vec::new() };
    assert_eq!(
        assemble(&schema, &registry),
        Err(AssemblyError::UnsupportedFieldType { field: "bad_one".to_string() })
    );
}

#[test]
fn empty_schema_assembles_empty_builder() {
    let registry = Registry { entries: Vec::new() };
    let empty: Vec<tlayuda::schema::FieldDescriptor> = Vec::new();
    let def = assemble(&empty, &registry).unwrap();
    let mut b = tlayuda::builder::Builder::new(def, Vec::new());
    assert_eq!(b.build(), Vec::new());
}
