//! Runtime behaviour of assembled builders: sequential indices,
//! per-category defaults, overrides, fixed slots and nesting.

use tlayuda::assemble::{assemble, Registry, RegistryEntry};
use tlayuda::builder::{Builder, Generator};
use tlayuda::schema::{extract_schema, FieldDescriptor, Marker, RawField, TypeShape};
use tlayuda::value::Value;

fn named(ty: &str) -> TypeShape {
    TypeShape::Path(vec![ty.to_string()])
}

fn plain_field(name: &str, ty: &str) -> RawField {
    RawField { name: Some(name.to_string()), shape: named(ty), markers: Vec::new() }
}

fn ignored_field(name: &str, ty: &str) -> RawField {
    RawField {
        name: Some(name.to_string()),
        shape: named(ty),
        markers: vec![Marker::Bare("tlayuda_ignore".to_string())],
    }
}

/// The record of the worked scenario: `Widget { name: String, count:
/// u32, active: bool, id: char, tag: String (excluded) }`.
fn widget_schema() -> Vec<FieldDescriptor> {
    extract_schema(vec![
        plain_field("name", "String"),
        plain_field("count", "u32"),
        plain_field("active", "bool"),
        plain_field("id", "char"),
        ignored_field("tag", "String"),
    ])
}

fn widget_builder(tag: &str) -> Builder {
    let registry = Registry { entries: Vec::new() };
    let def = assemble(&widget_schema(), &registry).unwrap();
    Builder::new(def, vec![Value::Text(tag.to_string())])
}

#[test]
fn widget_first_build() {
    let mut b = widget_builder("fixed-tag");
    let inst = b.build();
    assert_eq!(
        inst,
        vec![
            Value::Text("name0".to_string()),
            Value::U32(0),
            Value::Boolean(false),
            Value::Character('0'),
            Value::Text("fixed-tag".to_string()),
        ]
    );
}

#[test]
fn widget_second_build_advances() {
    let mut b = widget_builder("fixed-tag");
    let _ = b.build();
    let inst = b.build();
    assert_eq!(
        inst,
        vec![
            Value::Text("name1".to_string()),
            Value::U32(1),
            Value::Boolean(false),
            Value::Character('1'),
            Value::Text("fixed-tag".to_string()),
        ]
    );
}

#[test]
fn widget_build_vec_twelfth_item() {
    let mut b = widget_builder("fixed-tag");
    let all = b.build_vec(12);
    assert_eq!(all.len(), 12);
    let last = &all[11];
    assert_eq!(last[0], Value::Text("name11".to_string()));
    assert_eq!(last[3], Value::Character('a'));
}

#[test]
fn sequential_builds_count_up() {
    // Three non-excluded fields, three builds: indices 0, 1, 2.
    let schema = extract_schema(vec![
        plain_field("a", "usize"),
        plain_field("b", "usize"),
        plain_field("c", "usize"),
    ]);
    let registry = Registry { entries: Vec::new() };
    let def = assemble(&schema, &registry).unwrap();
    let mut b = Builder::new(def, Vec::new());
    for i in 0..3usize {
        let inst = b.build();
        assert_eq!(inst, vec![Value::USize(i), Value::USize(i), Value::USize(i)]);
    }
}

#[test]
fn text_default_concatenates_name_and_index() {
    let schema = extract_schema(vec![plain_field("name", "String")]);
    let registry = Registry { entries: Vec::new() };
    let def = assemble(&schema, &registry).unwrap();
    let mut b = Builder::new(def, Vec::new()).with_index(3);
    assert_eq!(b.build(), vec![Value::Text("name3".to_string())]);
    let mut b10 = widget_builder("t").with_index(10);
    assert_eq!(b10.build()[0], Value::Text("name10".to_string()));
}

#[test]
fn numeric_default_converts_index() {
    let schema = extract_schema(vec![
        plain_field("tiny", "u8"),
        plain_field("wide", "i64"),
    ]);
    let registry = Registry { entries: Vec::new() };
    let def = assemble(&schema, &registry).unwrap();
    let mut b = Builder::new(def, Vec::new()).with_index(300);
    // 300 as u8 truncates to 44; 300 as i64 is 300.
    assert_eq!(b.build(), vec![Value::U8(44), Value::I64(300)]);
}

#[test]
fn boolean_default_never_varies() {
    let schema = extract_schema(vec![plain_field("active", "bool")]);
    let registry = Registry { entries: Vec::new() };
    let def = assemble(&schema, &registry).unwrap();
    let mut b = Builder::new(def, Vec::new());
    for _ in 0..15 {
        assert_eq!(b.build(), vec![Value::Boolean(false)]);
    }
}

#[test]
fn character_default_digit_then_fallback() {
    let schema = extract_schema(vec![plain_field("id", "char")]);
    let registry = Registry { entries: Vec::new() };
    let def = assemble(&schema, &registry).unwrap();
    let mut b = Builder::new(def, Vec::new());
    let expected = ['0', '1', '2', '3', '4', '5', '6', '7', '8', '9', 'a', 'a'];
    for c in expected {
        assert_eq!(b.build(), vec![Value::Character(c)]);
    }
}

#[test]
fn build_vec_equals_sequential_builds() {
    let mut bulk = widget_builder("x");
    let mut one_by_one = widget_builder("x");
    let all = bulk.build_vec(5);
    for inst in all {
        assert_eq!(inst, one_by_one.build());
    }
    // Both counters advanced by five: the next builds still agree.
    assert_eq!(bulk.build(), one_by_one.build());
}

#[test]
fn with_index_seeds_and_advances() {
    let mut b = widget_builder("x").with_index(7);
    assert_eq!(b.build()[1], Value::U32(7));
    // The counter stood at 8 after the seeded build.
    assert_eq!(b.build()[1], Value::U32(8));
    // Moving backward is allowed.
    let mut back = widget_builder("x").with_index(5).with_index(2);
    assert_eq!(back.build()[1], Value::U32(2));
}

#[test]
fn override_replaces_generator() {
    // Field 0 of the widget is `name`; override its rule.
    let mut b = widget_builder("x").set_field(0, Generator::Text("other".to_string()));
    let first = b.build();
    assert_eq!(first[0], Value::Text("other0".to_string()));
    // The other fields keep their defaults and the same index.
    assert_eq!(first[1], Value::U32(0));
    // The override persists until replaced again.
    assert_eq!(b.build()[0], Value::Text("other1".to_string()));
    let mut c = b.set_field(0, Generator::Constant(Value::Text("pinned".to_string())));
    assert_eq!(c.build()[0], Value::Text("pinned".to_string()));
    assert_eq!(c.build()[0], Value::Text("pinned".to_string()));
}

#[test]
fn excluded_value_duplicated_every_build() {
    let mut b = widget_builder("fixed-tag");
    for _ in 0..4 {
        assert_eq!(b.build()[4], Value::Text("fixed-tag".to_string()));
    }
    let mut far = widget_builder("fixed-tag").with_index(1000);
    assert_eq!(far.build()[4], Value::Text("fixed-tag".to_string()));
}

#[test]
fn nested_record_seeded_with_outer_index() {
    let inner_schema = extract_schema(vec![plain_field("value", "u32")]);
    let registry = Registry {
        entries: vec![RegistryEntry { name: "Inner".to_string(), schema: inner_schema }],
    };
    let outer_schema = extract_schema(vec![
        plain_field("inner", "Inner"),
        plain_field("count", "u32"),
    ]);
    let def = assemble(&outer_schema, &registry).unwrap();
    let mut b = Builder::new(def, Vec::new()).with_index(2);
    let inst = b.build();
    // The nested builder is fresh and seeded with the outer index.
    assert_eq!(inst, vec![Value::Record(vec![Value::U32(2)]), Value::U32(2)]);
}

#[test]
fn every_integer_kind_converts() {
    let schema = extract_schema(vec![
        plain_field("a", "i8"),
        plain_field("b", "i16"),
        plain_field("c", "i32"),
        plain_field("d", "i64"),
        plain_field("e", "i128"),
        plain_field("f", "isize"),
        plain_field("g", "u8"),
        plain_field("h", "u16"),
        plain_field("i", "u32"),
        plain_field("j", "u64"),
        plain_field("k", "u128"),
        plain_field("l", "usize"),
    ]);
    let registry = Registry { entries: Vec::new() };
    let def = assemble(&schema, &registry).unwrap();
    let mut b = Builder::new(def, Vec::new()).with_index(200);
    // 200 as i8 wraps to -56; every other type holds 200.
    assert_eq!(
        b.build(),
        vec![
            Value::I8(-56),
            Value::I16(200),
            Value::I32(200),
            Value::I64(200),
            Value::I128(200),
            Value::ISize(200),
            Value::U8(200),
            Value::U16(200),
            Value::U32(200),
            Value::U64(200),
            Value::U128(200),
            Value::USize(200),
        ]
    );
}

#[test]
fn os_string_counts_as_text() {
    let schema = extract_schema(vec![plain_field("path", "OsString")]);
    let registry = Registry { entries: Vec::new() };
    let def = assemble(&schema, &registry).unwrap();
    let mut b = Builder::new(def, Vec::new());
    assert_eq!(b.build(), vec![Value::Text("path0".to_string())]);
}

#[test]
fn multi_digit_decimal_text() {
    let schema = extract_schema(vec![plain_field("name", "String")]);
    let registry = Registry { entries: Vec::new() };
    let def = assemble(&schema, &registry).unwrap();
    let mut b = Builder::new(def, Vec::new()).with_index(1203);
    assert_eq!(b.build(), vec![Value::Text("name1203".to_string())]);
    assert_eq!(b.build(), vec![Value::Text("name1204".to_string())]);
}

#[test]
fn nested_two_levels() {
    let inner_schema = extract_schema(vec![plain_field("value", "u16")]);
    let middle_schema = extract_schema(vec![plain_field("inner", "Inner")]);
    let registry = Registry {
        entries: vec![
            RegistryEntry { name: "Inner".to_string(), schema: inner_schema },
            RegistryEntry { name: "Middle".to_string(), schema: middle_schema },
        ],
    };
    let outer_schema = extract_schema(vec![plain_field("middle", "Middle")]);
    let def = assemble(&outer_schema, &registry).unwrap();
    let mut b = Builder::new(def, Vec::new()).with_index(3);
    assert_eq!(
        b.build(),
        vec![Value::Record(vec![Value::Record(vec![Value::U16(3)])])]
    );
}
