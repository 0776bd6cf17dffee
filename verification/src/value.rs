//! The value domain of the runtime builder model: text, characters,
//! booleans, integers of every width and signedness, and nested
//! record instances.

use vstd::prelude::*;
use crate::select::NumKind;

verus! {

/// A field value of a produced record instance.
#[derive(Debug, PartialEq)]
pub enum Value {
    Text(String),
    Character(char),
    Boolean(bool),
    I8(i8),
    I16(i16),
    I32(i32),
    I64(i64),
    I128(i128),
    ISize(isize),
    U8(u8),
    U16(u16),
    U32(u32),
    U64(u64),
    U128(u128),
    USize(usize),
    Record(Vec<Value>),
}

/// Mathematical image of a value: text as a character sequence,
/// numbers as unbounded integers tagged with their type, nested
/// records as sequences.
pub enum ValueModel {
    Text(Seq<char>),
    Character(char),
    Boolean(bool),
    Number(NumKind, int),
    Record(Seq<ValueModel>),
}

pub open spec fn value_model(v: Value) -> ValueModel
    decreases v,
{
    match v {
        Value::Text(s) => ValueModel::Text(s@),
        Value::Character(c) => ValueModel::Character(c),
        Value::Boolean(b) => ValueModel::Boolean(b),
        Value::I8(x) => ValueModel::Number(NumKind::I8, x as int),
        Value::I16(x) => ValueModel::Number(NumKind::I16, x as int),
        Value::I32(x) => ValueModel::Number(NumKind::I32, x as int),
        Value::I64(x) => ValueModel::Number(NumKind::I64, x as int),
        Value::I128(x) => ValueModel::Number(NumKind::I128, x as int),
        Value::ISize(x) => ValueModel::Number(NumKind::ISize, x as int),
        Value::U8(x) => ValueModel::Number(NumKind::U8, x as int),
        Value::U16(x) => ValueModel::Number(NumKind::U16, x as int),
        Value::U32(x) => ValueModel::Number(NumKind::U32, x as int),
        Value::U64(x) => ValueModel::Number(NumKind::U64, x as int),
        Value::U128(x) => ValueModel::Number(NumKind::U128, x as int),
        Value::USize(x) => ValueModel::Number(NumKind::USize, x as int),
        Value::Record(vs) => ValueModel::Record(record_model(vs@)),
    }
}

/// The models of a sequence of values, element for element.
pub open spec fn record_model(s: Seq<Value>) -> Seq<ValueModel>
    decreases s,
{
    if s.len() == 0 {
        Seq::empty()
    } else {
        record_model(s.drop_last()).push(value_model(s.last()))
    }
}

pub proof fn lemma_record_model(s: Seq<Value>)
    ensures
        record_model(s).len() == s.len(),
        forall|j: int| 0 <= j < s.len() ==> record_model(s)[j] == value_model(#[trigger] s[j]),
    decreases s.len(),
{
    if s.len() > 0 {
        lemma_record_model(s.drop_last());
        assert forall|j: int| 0 <= j < s.len() implies record_model(s)[j] == value_model(
            s[j],
        ) by {
            if j < s.len() - 1 {
                assert(s.drop_last()[j] == s[j]);
                assert(record_model(s.drop_last())[j] == value_model(s.drop_last()[j]));
            } else {
                assert(record_model(s)[j] == value_model(s.last()));
            }
        }
    }
}

impl Value {
    /// A copy of the value whose model is the same; the original is
    /// left in place, so a builder can hand out a fixed value again
    /// and again.
    pub fn duplicate(&self) -> (r: Value)
        ensures
            value_model(r) == value_model(*self),
        decreases self,
    {
        match self {
            Value::Text(s) => Value::Text(s.clone()),
            Value::Character(c) => Value::Character(*c),
            Value::Boolean(b) => Value::Boolean(*b),
            Value::I8(x) => Value::I8(*x),
            Value::I16(x) => Value::I16(*x),
            Value::I32(x) => Value::I32(*x),
            Value::I64(x) => Value::I64(*x),
            Value::I128(x) => Value::I128(*x),
            Value::ISize(x) => Value::ISize(*x),
            Value::U8(x) => Value::U8(*x),
            Value::U16(x) => Value::U16(*x),
            Value::U32(x) => Value::U32(*x),
            Value::U64(x) => Value::U64(*x),
            Value::U128(x) => Value::U128(*x),
            Value::USize(x) => Value::USize(*x),
            Value::Record(vs) => {
                let mut out: Vec<Value> = Vec::new();
                let mut j: usize = 0;
                while j < vs.len()
                    invariant
                        *self == Value::Record(*vs),
                        j <= vs.len(),
                        out@.len() == j,
                        forall|m: int|
                            0 <= m < j ==> value_model(out@[m]) == value_model(#[trigger] vs@[m]),
                    decreases vs.len() - j,
                {
                    proof {
                        assert(decreases_to!(*self => self->Record_0));
                        assert(self->Record_0 == *vs);
                        assert(decreases_to!(*vs => vs@[j as int]));
                    }
                    let d = vs[j].duplicate();
                    out.push(d);
                    j = j + 1;
                }
                proof {
                    lemma_record_model(out@);
                    lemma_record_model(vs@);
                    assert forall|m: int|
                        0 <= m < vs@.len() implies record_model(out@)[m] == record_model(
                        vs@,
                    )[m] by {
                        assert(value_model(out@[m]) == value_model(vs@[m]));
                    }
                    assert(record_model(out@) =~= record_model(vs@));
                }
                Value::Record(out)
            },
        }
    }
}

} // verus!
