//! The assembled builder: its definition (one slot per schema field),
//! the generators a slot can hold, the index allocator, and the build
//! operations that produce record instances.

use vstd::prelude::*;
use vstd::pervasive::unreached;
use vstd::string::*;
use crate::digits::{decimal_seq, decimal_string, digit_char, digit_or_fallback};
use crate::select::NumKind;
use crate::value::{record_model, value_model, Value, ValueModel, lemma_record_model};

verus! {

/// A replaceable generation rule: from the allocated index to a value.
///
/// The default rules are `Text` (the field's own name followed by the
/// decimal text of the index), `Digit` (the decimal digit character of
/// the index, `'a'` from ten upward), `Number` (the index converted to
/// the declared integer type) and `Nested` (a fresh builder for the
/// nested record, seeded with the index, built once). `Constant` is
/// the override rule that ignores the index; the constant-`false`
/// boolean default is expressed with it.
#[derive(Debug, PartialEq)]
pub enum Generator {
    Text(String),
    Digit,
    Number(NumKind),
    Constant(Value),
    Nested(Box<BuilderDefinition>),
}

/// One slot of a builder definition: either generated by a replaceable
/// rule, or fixed to a constructor-supplied value (an excluded field).
#[derive(Debug, PartialEq)]
pub enum Slot {
    Fixed,
    Generated(Generator),
}

/// One field of a builder definition, in schema order.
#[derive(Debug, PartialEq)]
pub struct FieldPlan {
    pub name: String,
    pub slot: Slot,
}

/// The synthesized definition of a builder: one plan per schema field.
#[derive(Debug, PartialEq)]
pub struct BuilderDefinition {
    pub fields: Vec<FieldPlan>,
}

/// The index converted to the given integer type, as the conversion
/// operator of the language truncates it.
pub open spec fn cast_index(k: NumKind, i: usize) -> int {
    match k {
        NumKind::I8 => (i as i8) as int,
        NumKind::I16 => (i as i16) as int,
        NumKind::I32 => (i as i32) as int,
        NumKind::I64 => (i as i64) as int,
        NumKind::I128 => (i as i128) as int,
        NumKind::ISize => (i as isize) as int,
        NumKind::U8 => (i as u8) as int,
        NumKind::U16 => (i as u16) as int,
        NumKind::U32 => (i as u32) as int,
        NumKind::U64 => (i as u64) as int,
        NumKind::U128 => (i as u128) as int,
        NumKind::USize => i as int,
    }
}

/// The value a generation rule yields at a given index. A nested rule
/// yields the instance a fresh default builder seeded with that index
/// builds: every generated field of the nested record uses the same
/// index, nested records of the nested record again included.
pub open spec fn gen_value(g: Generator, i: usize) -> ValueModel
    decreases g,
{
    match g {
        Generator::Text(prefix) => ValueModel::Text(prefix@ + decimal_seq(i as nat)),
        Generator::Digit => ValueModel::Character(digit_char(i as nat)),
        Generator::Number(k) => ValueModel::Number(k, cast_index(k, i)),
        Generator::Constant(v) => value_model(v),
        Generator::Nested(d) => ValueModel::Record(plans_instance(d.fields@, i)),
    }
}

/// The value one plan contributes to a default-built instance.
pub open spec fn plan_value(p: FieldPlan, i: usize) -> ValueModel
    decreases p,
{
    match p.slot {
        Slot::Generated(g) => gen_value(g, i),
        Slot::Fixed => vstd::pervasive::arbitrary(),
    }
}

/// The instance a fresh default builder for these plans builds at one
/// index.
pub open spec fn plans_instance(s: Seq<FieldPlan>, i: usize) -> Seq<ValueModel>
    decreases s,
{
    if s.len() == 0 {
        Seq::empty()
    } else {
        plans_instance(s.drop_last(), i).push(plan_value(s.last(), i))
    }
}

/// Whether a plan is a generated slot holding a well-formed rule.
pub open spec fn plan_generated_wf(p: FieldPlan) -> bool
    decreases p,
{
    p.slot matches Slot::Generated(g) && gen_wf(g)
}

/// A generation rule is well formed when every nested definition in it
/// consists of generated slots only: a nested builder is invoked with
/// no constructor arguments, so a fixed slot inside it has no value to
/// draw from.
pub open spec fn gen_wf(g: Generator) -> bool
    decreases g,
{
    match g {
        Generator::Nested(d) => all_generated(d.fields@),
        _ => true,
    }
}

/// Every plan is a generated slot with a well-formed rule.
pub open spec fn all_generated(s: Seq<FieldPlan>) -> bool
    decreases s,
{
    if s.len() == 0 {
        true
    } else {
        all_generated(s.drop_last()) && plan_generated_wf(s.last())
    }
}

/// A plan of a top-level definition: fixed, or generated and well
/// formed.
pub open spec fn plan_wf(p: FieldPlan) -> bool
    decreases p,
{
    match p.slot {
        Slot::Generated(g) => gen_wf(g),
        Slot::Fixed => true,
    }
}

/// Every plan of a top-level definition is well formed.
pub open spec fn def_wf(s: Seq<FieldPlan>) -> bool
    decreases s,
{
    if s.len() == 0 {
        true
    } else {
        def_wf(s.drop_last()) && plan_wf(s.last())
    }
}

/// How many plans are fixed slots; their values come in this order
/// from the builder's constructor arguments.
pub open spec fn num_fixed(s: Seq<FieldPlan>) -> nat
    decreases s,
{
    if s.len() == 0 {
        0
    } else {
        num_fixed(s.drop_last()) + if s.last().slot is Fixed {
            1nat
        } else {
            0nat
        }
    }
}

pub proof fn lemma_plans_instance(s: Seq<FieldPlan>, i: usize)
    ensures
        plans_instance(s, i).len() == s.len(),
        forall|j: int| 0 <= j < s.len() ==> plans_instance(s, i)[j] == plan_value(
            #[trigger] s[j],
            i,
        ),
    decreases s.len(),
{
    if s.len() > 0 {
        lemma_plans_instance(s.drop_last(), i);
        assert forall|j: int| 0 <= j < s.len() implies plans_instance(s, i)[j] == plan_value(
            s[j],
            i,
        ) by {
            if j < s.len() - 1 {
                assert(s.drop_last()[j] == s[j]);
                assert(plans_instance(s.drop_last(), i)[j] == plan_value(s.drop_last()[j], i));
            } else {
                assert(plans_instance(s, i)[j] == plan_value(s.last(), i));
            }
        }
    }
}

pub proof fn lemma_all_generated(s: Seq<FieldPlan>)
    ensures
        all_generated(s) <==> (forall|j: int|
            0 <= j < s.len() ==> plan_generated_wf(#[trigger] s[j])),
    decreases s.len(),
{
    if s.len() > 0 {
        lemma_all_generated(s.drop_last());
        assert(forall|j: int| 0 <= j < s.len() - 1 ==> s.drop_last()[j] == #[trigger] s[j]);
        if forall|j: int| 0 <= j < s.len() ==> plan_generated_wf(#[trigger] s[j]) {
            assert(forall|j: int|
                0 <= j < s.drop_last().len() ==> plan_generated_wf(#[trigger] s.drop_last()[j]));
        }
    }
}

pub proof fn lemma_def_wf(s: Seq<FieldPlan>)
    ensures
        def_wf(s) <==> (forall|j: int| 0 <= j < s.len() ==> plan_wf(#[trigger] s[j])),
    decreases s.len(),
{
    if s.len() > 0 {
        lemma_def_wf(s.drop_last());
        assert(forall|j: int| 0 <= j < s.len() - 1 ==> s.drop_last()[j] == #[trigger] s[j]);
        if forall|j: int| 0 <= j < s.len() ==> plan_wf(#[trigger] s[j]) {
            assert(forall|j: int|
                0 <= j < s.drop_last().len() ==> plan_wf(#[trigger] s.drop_last()[j]));
        }
    }
}

pub proof fn lemma_num_fixed_cat(a: Seq<FieldPlan>, b: Seq<FieldPlan>)
    ensures
        num_fixed(a + b) == num_fixed(a) + num_fixed(b),
    decreases b.len(),
{
    if b.len() == 0 {
        assert(a + b =~= a);
    } else {
        lemma_num_fixed_cat(a, b.drop_last());
        assert((a + b).drop_last() =~= a + b.drop_last());
        assert((a + b).last() == b.last());
    }
}

fn make_number(k: NumKind, i: usize) -> (v: Value)
    ensures
        value_model(v) == ValueModel::Number(k, cast_index(k, i)),
{
    match k {
        NumKind::I8 => Value::I8(i as i8),
        NumKind::I16 => Value::I16(i as i16),
        NumKind::I32 => Value::I32(i as i32),
        NumKind::I64 => Value::I64(i as i64),
        NumKind::I128 => Value::I128(i as i128),
        NumKind::ISize => Value::ISize(i as isize),
        NumKind::U8 => Value::U8(i as u8),
        NumKind::U16 => Value::U16(i as u16),
        NumKind::U32 => Value::U32(i as u32),
        NumKind::U64 => Value::U64(i as u64),
        NumKind::U128 => Value::U128(i as u128),
        NumKind::USize => Value::USize(i),
    }
}

/// Applies a generation rule at one index.
fn generate(g: &Generator, i: usize) -> (v: Value)
    requires
        gen_wf(*g),
    ensures
        value_model(v) == gen_value(*g, i),
    decreases g,
{
    match g {
        Generator::Text(prefix) => {
            let n = decimal_string(i);
            Value::Text(prefix.clone().concat(n.as_str()))
        },
        Generator::Digit => Value::Character(digit_or_fallback(i)),
        Generator::Number(k) => make_number(*k, i),
        Generator::Constant(v) => v.duplicate(),
        Generator::Nested(d) => {
            proof {
                assert(decreases_to!(*g => g->Nested_0));
                assert(decreases_to!(**d => d.fields));
            }
            Value::Record(build_defaults(&d.fields, i))
        },
    }
}

/// Builds the instance of a fresh default builder at one index: every
/// slot must be generated.
fn build_defaults(plans: &Vec<FieldPlan>, i: usize) -> (r: Vec<Value>)
    requires
        all_generated(plans@),
    ensures
        record_model(r@) == plans_instance(plans@, i),
    decreases plans,
{
    proof {
        lemma_all_generated(plans@);
    }
    let mut r: Vec<Value> = Vec::new();
    let mut j: usize = 0;
    while j < plans.len()
        invariant
            all_generated(plans@),
            j <= plans@.len(),
            r@.len() == j,
            forall|m: int| 0 <= m < j ==> value_model(r@[m]) == plan_value(#[trigger] plans@[m], i),
        decreases plans@.len() - j,
    {
        proof {
            lemma_all_generated(plans@);
            assert(plan_generated_wf(plans@[j as int]));
            assert(decreases_to!(*plans => plans@[j as int]));
        }
        let v = match &plans[j].slot {
            Slot::Generated(g) => generate(g, i),
            Slot::Fixed => unreached(),
        };
        r.push(v);
        j = j + 1;
    }
    proof {
        lemma_record_model(r@);
        lemma_plans_instance(plans@, i);
        assert forall|m: int| 0 <= m < plans@.len() implies record_model(r@)[m] == plans_instance(
            plans@,
            i,
        )[m] by {
            assert(value_model(r@[m]) == plan_value(plans@[m], i));
        }
        assert(record_model(r@) =~= plans_instance(plans@, i));
    }
    r
}

/// One slot of a live builder: the fixed value of an excluded field,
/// or the current generation rule of a generated field.
#[derive(Debug, PartialEq)]
pub enum SlotState {
    Fixed(Value),
    Generated(Generator),
}

pub open spec fn slot_wf(s: SlotState) -> bool {
    match s {
        SlotState::Generated(g) => gen_wf(g),
        SlotState::Fixed(_) => true,
    }
}

/// The value one slot contributes to the instance built at one index:
/// a fixed slot contributes its stored value whatever the index, a
/// generated slot applies its current rule to the index.
pub open spec fn slot_value(s: SlotState, i: usize) -> ValueModel {
    match s {
        SlotState::Fixed(v) => value_model(v),
        SlotState::Generated(g) => gen_value(g, i),
    }
}

/// The instance a builder with these slots builds at one index.
pub open spec fn instance_model(slots: Seq<SlotState>, i: usize) -> Seq<ValueModel> {
    Seq::new(slots.len(), |j: int| slot_value(slots[j], i))
}

/// How a live slot relates to its plan: a generated plan's rule is
/// taken over unchanged; a fixed plan takes the constructor argument
/// of its rank among the fixed plans.
pub open spec fn slot_matches_plan(s: SlotState, p: FieldPlan, fixed: Seq<Value>, rank: nat) -> bool {
    match p.slot {
        Slot::Generated(g) => s == SlotState::Generated(g),
        Slot::Fixed => rank < fixed.len() && s == SlotState::Fixed(fixed[rank as int]),
    }
}

/// A live builder: the index allocator's counter and one slot per
/// schema field, in schema order.
#[derive(Debug)]
pub struct Builder {
    pub index: usize,
    pub slots: Vec<SlotState>,
}

impl Builder {
    /// Every generated slot holds a well-formed rule.
    pub open spec fn wf(self) -> bool {
        forall|j: int| 0 <= j < self.slots@.len() ==> slot_wf(#[trigger] self.slots@[j])
    }

    /// A fresh builder for a definition: the counter at zero, every
    /// generated plan's rule taken over, every fixed plan populated
    /// with the constructor arguments in schema order.
    pub fn new(def: BuilderDefinition, fixed: Vec<Value>) -> (b: Builder)
        requires
            def_wf(def.fields@),
            fixed@.len() == num_fixed(def.fields@),
        ensures
            b.wf(),
            b.index == 0,
            b.slots@.len() == def.fields@.len(),
            forall|j: int| 0 <= j < def.fields@.len() ==> slot_matches_plan(
                b.slots@[j],
                #[trigger] def.fields@[j],
                fixed@,
                num_fixed(def.fields@.take(j)),
            ),
    {
        let ghost orig_plans = def.fields@;
        let ghost orig_fixed = fixed@;
        let mut plans = def.fields;
        let mut fixed = fixed;
        let total: usize = plans.len();
        let mut slots: Vec<SlotState> = Vec::new();
        let mut k: usize = 0;
        proof {
            assert(orig_plans.take(0) =~= Seq::<FieldPlan>::empty());
        }
        while plans.len() > 0
            invariant
                orig_plans.len() == total,
                def_wf(orig_plans),
                orig_fixed.len() == num_fixed(orig_plans),
                k + plans.len() == orig_plans.len(),
                plans@ == orig_plans.skip(k as int),
                fixed@ == orig_fixed.skip(num_fixed(orig_plans.take(k as int)) as int),
                num_fixed(orig_plans.take(k as int)) <= orig_fixed.len(),
                slots@.len() == k,
                forall|j: int| 0 <= j < k ==> slot_matches_plan(
                    slots@[j],
                    #[trigger] orig_plans[j],
                    orig_fixed,
                    num_fixed(orig_plans.take(j)),
                ),
                forall|j: int| 0 <= j < k ==> slot_wf(#[trigger] slots@[j]),
            decreases plans.len(),
        {
            let ghost rank = num_fixed(orig_plans.take(k as int));
            proof {
                assert(orig_plans.take(k as int + 1).drop_last() =~= orig_plans.take(k as int));
                assert(orig_plans.take(k as int + 1).last() == orig_plans[k as int]);
                assert(orig_plans.take(k as int) + orig_plans.skip(k as int) =~= orig_plans);
                lemma_num_fixed_cat(orig_plans.take(k as int), orig_plans.skip(k as int));
                assert(orig_plans.take(k as int + 1) + orig_plans.skip(k as int + 1)
                    =~= orig_plans);
                lemma_num_fixed_cat(orig_plans.take(k as int + 1), orig_plans.skip(k as int + 1));
                lemma_def_wf(orig_plans);
                assert(plan_wf(orig_plans[k as int]));
            }
            let p = plans.remove(0);
            proof {
                assert(p == orig_plans[k as int]);
                assert(plans@ =~= orig_plans.skip(k as int + 1));
            }
            match p.slot {
                Slot::Generated(g) => {
                    slots.push(SlotState::Generated(g));
                    proof {
                        assert(num_fixed(orig_plans.take(k as int + 1)) == rank);
                    }
                },
                Slot::Fixed => {
                    proof {
                        assert(num_fixed(orig_plans.take(k as int + 1)) == rank + 1);
                        assert(fixed@.len() == orig_fixed.len() - rank);
                    }
                    let v = fixed.remove(0);
                    proof {
                        assert(v == orig_fixed[rank as int]);
                        assert(fixed@ =~= orig_fixed.skip(rank as int + 1));
                    }
                    slots.push(SlotState::Fixed(v));
                },
            }
            k = k + 1;
        }
        proof {
            assert(orig_plans.take(k as int) =~= orig_plans);
        }
        Builder { index: 0, slots }
    }

    /// Returns the current counter value and advances the counter by
    /// one; every single build call allocates its index here.
    fn take_index(&mut self) -> (i: usize)
        requires
            old(self).index < usize::MAX,
        ensures
            i == old(self).index,
            final(self).index == old(self).index + 1,
            final(self).slots == old(self).slots,
    {
        self.index = self.index + 1;
        self.index - 1
    }

    /// Sets the counter to `index` unconditionally, forward or
    /// backward, and returns the builder for chaining.
    pub fn with_index(self, index: usize) -> (b: Builder)
        ensures
            b.index == index,
            b.slots == self.slots,
    {
        Builder { index, slots: self.slots }
    }

    /// Replaces the generation rule of field `j` with `g`, with no
    /// memory of the previous rule, and returns the builder for
    /// chaining. The replacement is any rule of the closed
    /// `Generator` language; later builds apply it to the very index
    /// the previous rule would have received. Only a generated
    /// (non-excluded) field has a rule to replace.
    pub fn set_field(self, j: usize, g: Generator) -> (b: Builder)
        requires
            j < self.slots@.len(),
            self.slots@[j as int] is Generated,
            gen_wf(g),
        ensures
            b.index == self.index,
            b.slots@ == self.slots@.update(j as int, SlotState::Generated(g)),
            self.wf() ==> b.wf(),
    {
        let mut slots = self.slots;
        slots.remove(j);
        slots.insert(j, SlotState::Generated(g));
        proof {
            assert(slots@ =~= self.slots@.update(j as int, SlotState::Generated(g)));
        }
        Builder { index: self.index, slots }
    }

    /// Builds one record instance: allocates one index, copies every
    /// fixed slot's value unchanged, and applies every generated
    /// slot's current rule to the allocated index. The builder keeps
    /// its slots and can be used again; only the counter advances.
    pub fn build(&mut self) -> (r: Vec<Value>)
        requires
            old(self).wf(),
            old(self).index < usize::MAX,
        ensures
            final(self).slots == old(self).slots,
            final(self).index == old(self).index + 1,
            final(self).wf(),
            record_model(r@) == instance_model(old(self).slots@, old(self).index),
    {
        let i = self.take_index();
        let mut r: Vec<Value> = Vec::new();
        let mut j: usize = 0;
        while j < self.slots.len()
            invariant
                self.slots == old(self).slots,
                self.index == old(self).index + 1,
                old(self).wf(),
                j <= self.slots@.len(),
                r@.len() == j,
                i == old(self).index,
                forall|m: int| 0 <= m < j ==> value_model(r@[m]) == slot_value(
                    #[trigger] self.slots@[m],
                    i,
                ),
            decreases self.slots@.len() - j,
        {
            let v = match &self.slots[j] {
                SlotState::Fixed(v) => v.duplicate(),
                SlotState::Generated(g) => generate(g, i),
            };
            r.push(v);
            j = j + 1;
        }
        proof {
            lemma_record_model(r@);
            assert(record_model(r@) =~= instance_model(old(self).slots@, i));
        }
        r
    }

    /// Builds exactly `count` instances by `count` sequential single
    /// build calls, in call order; the counter advances by `count` in
    /// all.
    pub fn build_vec(&mut self, count: usize) -> (rs: Vec<Vec<Value>>)
        requires
            old(self).wf(),
            old(self).index + count <= usize::MAX,
        ensures
            final(self).slots == old(self).slots,
            final(self).index == old(self).index + count,
            final(self).wf(),
            rs@.len() == count,
            forall|m: int| 0 <= m < count ==> record_model(#[trigger] rs@[m]@) == instance_model(
                old(self).slots@,
                (old(self).index + m) as usize,
            ),
    {
        let mut rs: Vec<Vec<Value>> = Vec::new();
        let mut m: usize = 0;
        while m < count
            invariant
                old(self).wf(),
                old(self).index + count <= usize::MAX,
                self.slots == old(self).slots,
                self.index == old(self).index + m,
                m <= count,
                rs@.len() == m,
                forall|n: int| 0 <= n < m ==> record_model(#[trigger] rs@[n]@) == instance_model(
                    old(self).slots@,
                    (old(self).index + n) as usize,
                ),
            decreases count - m,
        {
            let one = self.build();
            rs.push(one);
            m = m + 1;
        }
        rs
    }
}

} // verus!
