//! Default-generator selection: the closed set of type categories and
//! the classification of a declared type name into one of them.
//!
//! Classification is keyed on the final segment of the field's type
//! path alone. Anything outside the known text, character, boolean and
//! numeric names is treated as a record type expected to support the
//! same builder contract.

use vstd::prelude::*;
use vstd::string::*;

verus! {

/// The integer types a numeric field can declare.
#[derive(Debug, Clone, Copy, PartialEq, Eq, Structural)]
pub enum NumKind {
    I8,
    I16,
    I32,
    I64,
    I128,
    ISize,
    U8,
    U16,
    U32,
    U64,
    U128,
    USize,
}

/// The category a declared type name falls into, which fixes the
/// default generator of every non-excluded field of that type.
#[derive(Debug, Clone, Copy, PartialEq, Eq, Structural)]
pub enum TypeCategory {
    /// A text-string type: `String` or `OsString`.
    Text,
    /// The single-character type `char`.
    Character,
    /// The boolean type.
    Boolean,
    /// An integer type of any width and signedness.
    Number(NumKind),
    /// A floating-point type, `f32` or `f64`. Recognized so that code
    /// synthesis can treat it, though float values lie outside the
    /// value domain of the runtime model in this crate.
    Float,
    /// Any other name: treated as a record type with its own builder.
    Nested,
}

/// The category of a declared type name.
pub open spec fn category_of(name: Seq<char>) -> TypeCategory {
    if name == "String"@ || name == "OsString"@ {
        TypeCategory::Text
    } else if name == "char"@ {
        TypeCategory::Character
    } else if name == "bool"@ {
        TypeCategory::Boolean
    } else if name == "i8"@ {
        TypeCategory::Number(NumKind::I8)
    } else if name == "i16"@ {
        TypeCategory::Number(NumKind::I16)
    } else if name == "i32"@ {
        TypeCategory::Number(NumKind::I32)
    } else if name == "i64"@ {
        TypeCategory::Number(NumKind::I64)
    } else if name == "i128"@ {
        TypeCategory::Number(NumKind::I128)
    } else if name == "isize"@ {
        TypeCategory::Number(NumKind::ISize)
    } else if name == "u8"@ {
        TypeCategory::Number(NumKind::U8)
    } else if name == "u16"@ {
        TypeCategory::Number(NumKind::U16)
    } else if name == "u32"@ {
        TypeCategory::Number(NumKind::U32)
    } else if name == "u64"@ {
        TypeCategory::Number(NumKind::U64)
    } else if name == "u128"@ {
        TypeCategory::Number(NumKind::U128)
    } else if name == "usize"@ {
        TypeCategory::Number(NumKind::USize)
    } else if name == "f32"@ || name == "f64"@ {
        TypeCategory::Float
    } else {
        TypeCategory::Nested
    }
}

fn name_is(name: &String, lit: &str) -> (r: bool)
    ensures
        r == (name@ == lit@),
{
    let owned = String::from_str(lit);
    *name == owned
}

/// Classifies a declared type name into its category.
pub fn classify(name: &String) -> (c: TypeCategory)
    ensures
        c == category_of(name@),
{
    if name_is(name, "String") || name_is(name, "OsString") {
        TypeCategory::Text
    } else if name_is(name, "char") {
        TypeCategory::Character
    } else if name_is(name, "bool") {
        TypeCategory::Boolean
    } else if name_is(name, "i8") {
        TypeCategory::Number(NumKind::I8)
    } else if name_is(name, "i16") {
        TypeCategory::Number(NumKind::I16)
    } else if name_is(name, "i32") {
        TypeCategory::Number(NumKind::I32)
    } else if name_is(name, "i64") {
        TypeCategory::Number(NumKind::I64)
    } else if name_is(name, "i128") {
        TypeCategory::Number(NumKind::I128)
    } else if name_is(name, "isize") {
        TypeCategory::Number(NumKind::ISize)
    } else if name_is(name, "u8") {
        TypeCategory::Number(NumKind::U8)
    } else if name_is(name, "u16") {
        TypeCategory::Number(NumKind::U16)
    } else if name_is(name, "u32") {
        TypeCategory::Number(NumKind::U32)
    } else if name_is(name, "u64") {
        TypeCategory::Number(NumKind::U64)
    } else if name_is(name, "u128") {
        TypeCategory::Number(NumKind::U128)
    } else if name_is(name, "usize") {
        TypeCategory::Number(NumKind::USize)
    } else if name_is(name, "f32") || name_is(name, "f64") {
        TypeCategory::Float
    } else {
        TypeCategory::Nested
    }
}

} // verus!
