//! The laws of default generation and overriding, stated over the
//! models that the builder's contracts use and proved once and for
//! all. Together with the contracts of `Builder::new`, `build` and
//! `build_vec` — a fresh counter starts at zero, every single build
//! reads the counter and advances it by one, and a bulk build is
//! exactly its count of sequential single builds — they pin down
//! every produced instance.

use vstd::prelude::*;
use crate::assemble::{category_of_descriptor, plan_matches, RegistryEntry};
use crate::builder::{
    gen_value, instance_model, plans_instance, FieldPlan, Generator, Slot, SlotState,
};
use crate::digits::{decimal_seq, digit_char};
use crate::schema::FieldDescriptor;
use crate::select::{NumKind, TypeCategory};
use crate::value::{value_model, Value, ValueModel};

verus! {

/// Law: the default rule selected for a text-typed field generates,
/// at index `i`, the field's own name followed by the decimal text of
/// `i`.
pub proof fn law_text_default(
    p: FieldPlan,
    d: FieldDescriptor,
    reg: Seq<RegistryEntry>,
    fuel: nat,
    i: usize,
)
    requires
        plan_matches(p, d, reg, fuel),
        !d.excluded,
        category_of_descriptor(d) == Some(TypeCategory::Text),
    ensures
        p.slot matches Slot::Generated(g) && gen_value(g, i) == ValueModel::Text(
            d.name@ + decimal_seq(i as nat),
        ),
{
}

/// Law: the default rule selected for an integer-typed field
/// generates, at index `i`, the index converted to that type.
pub proof fn law_number_default(
    p: FieldPlan,
    d: FieldDescriptor,
    reg: Seq<RegistryEntry>,
    fuel: nat,
    i: usize,
    k: NumKind,
)
    requires
        plan_matches(p, d, reg, fuel),
        !d.excluded,
        category_of_descriptor(d) == Some(TypeCategory::Number(k)),
    ensures
        p.slot matches Slot::Generated(g) && gen_value(g, i) == ValueModel::Number(
            k,
            crate::builder::cast_index(k, i),
        ),
{
}

/// Law: the default rule selected for a boolean field generates
/// `false` at every index, with no exception.
pub proof fn law_boolean_default(
    p: FieldPlan,
    d: FieldDescriptor,
    reg: Seq<RegistryEntry>,
    fuel: nat,
    i: usize,
)
    requires
        plan_matches(p, d, reg, fuel),
        !d.excluded,
        category_of_descriptor(d) == Some(TypeCategory::Boolean),
    ensures
        p.slot matches Slot::Generated(g) && gen_value(g, i) == ValueModel::Boolean(false),
{
}

/// Law: the default rule selected for a character field generates the
/// decimal digit character of `i` while `i` is at most nine — the
/// single character of the decimal text of `i` — and the fallback
/// `'a'` from ten upward.
pub proof fn law_character_default(
    p: FieldPlan,
    d: FieldDescriptor,
    reg: Seq<RegistryEntry>,
    fuel: nat,
    i: usize,
)
    requires
        plan_matches(p, d, reg, fuel),
        !d.excluded,
        category_of_descriptor(d) == Some(TypeCategory::Character),
    ensures
        p.slot matches Slot::Generated(g) && gen_value(g, i) == ValueModel::Character(
            digit_char(i as nat),
        ),
        i <= 9 ==> digit_char(i as nat) == decimal_seq(i as nat)[0],
        i >= 10 ==> digit_char(i as nat) == 'a',
{
}

/// The instances of `count` sequential single builds from counter
/// `start`, in call order: each call computes the instance at the
/// counter it read and advances the counter by one, exactly as
/// `Builder::build`'s contract describes one call.
pub open spec fn sequential_instances(slots: Seq<SlotState>, start: usize, count: nat) -> Seq<
    Seq<ValueModel>,
>
    decreases count,
{
    if count == 0 {
        Seq::empty()
    } else {
        sequential_instances(slots, start, (count - 1) as nat).push(
            instance_model(slots, ((start + count - 1) as usize)),
        )
    }
}

/// Law: `count` sequential single builds from counter `start` compute
/// their instances at the indices `start`, `start + 1`, …, in call
/// order — from a fresh builder, whose counter is zero, at `0` up to
/// `count - 1`. This is also the sequence `Builder::build_vec`
/// promises, so a bulk build equals its count of sequential single
/// builds, with the counter advanced by the count in all.
pub proof fn law_sequential_builds(slots: Seq<SlotState>, start: usize, count: nat)
    requires
        start + count <= usize::MAX,
    ensures
        sequential_instances(slots, start, count).len() == count,
        forall|m: int|
            0 <= m < count ==> sequential_instances(slots, start, count)[m] == instance_model(
                slots,
                ((start + m) as usize),
            ),
    decreases count,
{
    if count > 0 {
        law_sequential_builds(slots, start, (count - 1) as nat);
    }
}

/// Law: overriding the rule of field `j` replaces it in full — the
/// built instance computes field `j` with the new rule at the very
/// index the previous rule would have received, and every other field
/// is untouched. (`Builder::set_field` leaves the counter unchanged,
/// so the allocated index is the same.)
pub proof fn law_override_replaces(slots: Seq<SlotState>, j: int, g: Generator, i: usize)
    requires
        0 <= j < slots.len(),
    ensures
        instance_model(slots.update(j, SlotState::Generated(g)), i)[j] == gen_value(g, i),
        forall|m: int|
            0 <= m < slots.len() && m != j ==> instance_model(
                slots.update(j, SlotState::Generated(g)),
                i,
            )[m] == instance_model(slots, i)[m],
{
}

/// Law: an excluded field's fixed slot contributes its stored value
/// to every instance the same builder produces, unchanged and
/// regardless of the allocated index.
pub proof fn law_fixed_value_constant(slots: Seq<SlotState>, j: int, v: Value, i1: usize, i2: usize)
    requires
        0 <= j < slots.len(),
        slots[j] == SlotState::Fixed(v),
    ensures
        instance_model(slots, i1)[j] == value_model(v),
        instance_model(slots, i1)[j] == instance_model(slots, i2)[j],
{
}

/// Law: a nested record field is built by a fresh default builder
/// each time, seeded with the outer allocated index: its value is a
/// function of the nested definition and that index alone. No
/// override and no counter state persists from one build to the
/// next, and every generated field of the nested record uses the same
/// seeded index.
pub proof fn law_nested_fresh(d: Box<crate::builder::BuilderDefinition>, i: usize)
    ensures
        gen_value(Generator::Nested(d), i) == ValueModel::Record(plans_instance(d.fields@, i)),
{
}

} // verus!
