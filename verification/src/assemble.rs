//! Builder assembly: from an extracted record schema and a registry
//! of the record types known to support the builder contract to a
//! builder definition, or to a structured generation-time diagnostic.
//!
//! Every field must declare a simple named type. An excluded field
//! becomes a fixed slot; any other field receives the default
//! generation rule of its type category. A name outside the known
//! categories is treated as a nested record type: it must stand in
//! the registry, its schema must consist of non-excluded fields (a
//! nested builder is invoked with no constructor arguments), and the
//! chain of nested records must be shorter than the registry — a
//! longer chain can only arise from a cycle, which no finite instance
//! could satisfy. All of this is validated here, at assembly time, so
//! that build operations can never fail.

use vstd::prelude::*;
use vstd::string::*;
use crate::builder::{
    all_generated, def_wf, num_fixed, plan_generated_wf, BuilderDefinition, FieldPlan, Generator,
    Slot,
};
use crate::schema::{FieldDescriptor, TypeShape};
use crate::select::{category_of, classify, NumKind, TypeCategory};
use crate::value::Value;

verus! {

/// One record type known to support the builder contract, with its
/// extracted schema.
#[derive(Debug)]
pub struct RegistryEntry {
    pub name: String,
    pub schema: Vec<FieldDescriptor>,
}

/// The record types whose builders a nested field may invoke.
#[derive(Debug)]
pub struct Registry {
    pub entries: Vec<RegistryEntry>,
}

/// A generation-time diagnostic; each one halts assembly of the whole
/// record type and names the offending field.
#[derive(Debug, PartialEq)]
pub enum AssemblyError {
    /// The field's declared type is not a simple named-type path —
    /// fatal for every field, excluded ones included — or the field
    /// is generated and names a floating-point type, whose values lie
    /// outside the value domain of this model.
    UnsupportedFieldType { field: String },
    /// The field's type falls to the nested-record rule but does not
    /// support the builder contract: it is not in the registry, or
    /// its builder cannot be invoked without constructor arguments.
    MissingNestedCapability { field: String, nested_type: String },
    /// The chain of nested record types is longer than the registry,
    /// which only a cyclic nesting can produce.
    NestingTooDeep { field: String },
}

/// Mathematical image of a diagnostic.
pub enum ErrorModel {
    Unsupported(Seq<char>),
    MissingNested(Seq<char>, Seq<char>),
    TooDeep(Seq<char>),
}

pub open spec fn error_model(e: AssemblyError) -> ErrorModel {
    match e {
        AssemblyError::UnsupportedFieldType { field } => ErrorModel::Unsupported(field@),
        AssemblyError::MissingNestedCapability { field, nested_type } => ErrorModel::MissingNested(
            field@,
            nested_type@,
        ),
        AssemblyError::NestingTooDeep { field } => ErrorModel::TooDeep(field@),
    }
}

/// The schema of the first registry entry of the given name.
pub open spec fn reg_lookup(entries: Seq<RegistryEntry>, name: Seq<char>) -> Option<
    Seq<FieldDescriptor>,
>
    decreases entries.len(),
{
    if entries.len() == 0 {
        None
    } else if entries[0].name@ == name {
        Some(entries[0].schema@)
    } else {
        reg_lookup(entries.skip(1), name)
    }
}

/// Whether some field of the schema is excluded.
pub open spec fn schema_has_excluded(s: Seq<FieldDescriptor>) -> bool {
    exists|j: int| 0 <= j < s.len() && (#[trigger] s[j]).excluded
}

/// The declared type name a shape offers for classification: the last
/// segment of a non-empty path.
pub open spec fn declared_name(t: TypeShape) -> Option<Seq<char>> {
    match t {
        TypeShape::Path(segments) => if segments@.len() > 0 {
            Some(segments@.last()@)
        } else {
            None
        },
        TypeShape::Other => None,
    }
}

/// The category of a field's declared type, where the shape offers a
/// name to classify.
pub open spec fn category_of_descriptor(d: FieldDescriptor) -> Option<TypeCategory> {
    match declared_name(d.shape) {
        Option::Some(n) => Some(category_of(n)),
        Option::None => None,
    }
}

/// The number of excluded fields; the builder constructor takes one
/// value for each, in schema order.
pub open spec fn num_excluded(s: Seq<FieldDescriptor>) -> nat
    decreases s,
{
    if s.len() == 0 {
        0
    } else {
        num_excluded(s.drop_last()) + if s.last().excluded {
            1nat
        } else {
            0nat
        }
    }
}

/// Whether one field assembles, with `fuel` nesting steps left. Every
/// field, excluded or not, must declare a simple named-type path; an
/// excluded field's type is otherwise unconstrained, since its value
/// comes from the constructor alone.
pub open spec fn field_ok(d: FieldDescriptor, reg: Seq<RegistryEntry>, fuel: nat) -> bool
    decreases fuel, 0int, 0int,
{
    match declared_name(d.shape) {
        Option::None => false,
        Option::Some(n) => d.excluded || match category_of(n) {
            TypeCategory::Text => true,
            TypeCategory::Character => true,
            TypeCategory::Boolean => true,
            TypeCategory::Number(_) => true,
            TypeCategory::Float => false,
            TypeCategory::Nested => match reg_lookup(reg, n) {
                Option::None => false,
                Option::Some(s2) => !schema_has_excluded(s2) && fuel > 0 && schema_ok(
                    s2,
                    reg,
                    (fuel - 1) as nat,
                ),
            },
        },
    }
}

/// Whether a whole schema assembles.
pub open spec fn schema_ok(s: Seq<FieldDescriptor>, reg: Seq<RegistryEntry>, fuel: nat) -> bool
    decreases fuel, 1int, 0int,
{
    forall|j: int| 0 <= j < s.len() ==> field_ok(#[trigger] s[j], reg, fuel)
}

/// The diagnostic a failing field produces.
pub open spec fn field_error(d: FieldDescriptor, reg: Seq<RegistryEntry>, fuel: nat) -> ErrorModel
    decreases fuel, 0int, 0int,
{
    match declared_name(d.shape) {
        Option::None => ErrorModel::Unsupported(d.name@),
        Option::Some(n) => match category_of(n) {
            TypeCategory::Float => ErrorModel::Unsupported(d.name@),
            TypeCategory::Nested => match reg_lookup(reg, n) {
                Option::None => ErrorModel::MissingNested(d.name@, n),
                Option::Some(s2) => if schema_has_excluded(s2) {
                    ErrorModel::MissingNested(d.name@, n)
                } else if fuel == 0 {
                    ErrorModel::TooDeep(d.name@)
                } else {
                    first_error(s2, reg, (fuel - 1) as nat)
                },
            },
            _ => vstd::pervasive::arbitrary(),
        },
    }
}

/// The diagnostic of the first failing field, in schema order.
pub open spec fn first_error(s: Seq<FieldDescriptor>, reg: Seq<RegistryEntry>, fuel: nat) -> ErrorModel
    decreases fuel, 1int, s.len(),
{
    if s.len() == 0 {
        vstd::pervasive::arbitrary()
    } else if !field_ok(s[0], reg, fuel) {
        field_error(s[0], reg, fuel)
    } else {
        first_error(s.skip(1), reg, fuel)
    }
}

/// How one assembled plan relates to its schema field.
pub open spec fn plan_matches(
    p: FieldPlan,
    d: FieldDescriptor,
    reg: Seq<RegistryEntry>,
    fuel: nat,
) -> bool
    decreases fuel, 0int, 0int,
{
    p.name@ == d.name@ && if d.excluded {
        p.slot is Fixed
    } else {
        match declared_name(d.shape) {
            Option::None => false,
            Option::Some(n) => match category_of(n) {
                TypeCategory::Text => p.slot matches Slot::Generated(g) && (g matches Generator::Text(q)
                    && q@ == d.name@),
                TypeCategory::Character => p.slot == Slot::Generated(Generator::Digit),
                TypeCategory::Boolean => p.slot == Slot::Generated(
                    Generator::Constant(Value::Boolean(false)),
                ),
                TypeCategory::Number(k) => p.slot == Slot::Generated(Generator::Number(k)),
                TypeCategory::Float => false,
                TypeCategory::Nested => p.slot matches Slot::Generated(g) && (g matches Generator::Nested(d2)
                    && (fuel > 0 && (reg_lookup(reg, n) matches Some(s2) && (!schema_has_excluded(
                    s2,
                ) && def_matches(d2.fields@, s2, reg, (fuel - 1) as nat))))),
            },
        }
    }
}

/// How a whole assembled definition relates to its schema.
pub open spec fn def_matches(
    plans: Seq<FieldPlan>,
    s: Seq<FieldDescriptor>,
    reg: Seq<RegistryEntry>,
    fuel: nat,
) -> bool
    decreases fuel, 1int, 0int,
{
    plans.len() == s.len() && forall|j: int|
        0 <= j < s.len() ==> plan_matches(#[trigger] plans[j], s[j], reg, fuel)
}

pub proof fn lemma_first_error_locate(
    s: Seq<FieldDescriptor>,
    reg: Seq<RegistryEntry>,
    fuel: nat,
    j: int,
)
    requires
        0 <= j < s.len(),
        forall|m: int| 0 <= m < j ==> field_ok(#[trigger] s[m], reg, fuel),
        !field_ok(s[j], reg, fuel),
    ensures
        first_error(s, reg, fuel) == field_error(s[j], reg, fuel),
    decreases j,
{
    if j > 0 {
        assert forall|m: int| 0 <= m < j - 1 implies field_ok(#[trigger] s.skip(1)[m], reg, fuel) by {
            assert(s.skip(1)[m] == s[m + 1]);
        }
        assert(s.skip(1)[j - 1] == s[j]);
        lemma_first_error_locate(s.skip(1), reg, fuel, j - 1);
    }
}

/// An assembled definition is well formed, and consists of generated
/// slots only where its schema has no excluded field.
pub proof fn lemma_matches_wf(
    plans: Seq<FieldPlan>,
    s: Seq<FieldDescriptor>,
    reg: Seq<RegistryEntry>,
    fuel: nat,
)
    requires
        def_matches(plans, s, reg, fuel),
    ensures
        def_wf(plans),
        !schema_has_excluded(s) ==> all_generated(plans),
    decreases fuel, 1int, plans.len(),
{
    if plans.len() > 0 {
        assert forall|m: int| 0 <= m < s.len() - 1 implies plan_matches(
            #[trigger] plans.drop_last()[m],
            s.drop_last()[m],
            reg,
            fuel,
        ) by {
            assert(plans.drop_last()[m] == plans[m]);
            assert(s.drop_last()[m] == s[m]);
        }
        lemma_matches_wf(plans.drop_last(), s.drop_last(), reg, fuel);
        let p = plans.last();
        let d = s.last();
        assert(plan_matches(plans[plans.len() - 1], s[s.len() - 1], reg, fuel));
        assert(p == plans[plans.len() - 1]);
        assert(d == s[s.len() - 1]);
        if !d.excluded {
            let n = declared_name(d.shape)->0;
            match category_of(n) {
                TypeCategory::Nested => {
                    let s2 = reg_lookup(reg, n)->0;
                    match p.slot {
                        Slot::Generated(g) => match g {
                            Generator::Nested(d2) => {
                                lemma_matches_wf(d2.fields@, s2, reg, (fuel - 1) as nat);
                            },
                            _ => {},
                        },
                        _ => {},
                    }
                },
                _ => {},
            }
        }
        if !schema_has_excluded(s) {
            assert(!schema_has_excluded(s.drop_last())) by {
                if schema_has_excluded(s.drop_last()) {
                    let w = choose|w: int|
                        0 <= w < s.drop_last().len() && (#[trigger] s.drop_last()[w]).excluded;
                    assert(s[w].excluded);
                }
            }
            assert(!s[s.len() - 1].excluded);
            assert(all_generated(plans.drop_last()));
            let n = declared_name(d.shape)->0;
            match category_of(n) {
                TypeCategory::Text => {
                    assert(plan_generated_wf(p));
                },
                TypeCategory::Character => {
                    assert(plan_generated_wf(p));
                },
                TypeCategory::Boolean => {
                    assert(plan_generated_wf(p));
                },
                TypeCategory::Number(_) => {
                    assert(plan_generated_wf(p));
                },
                TypeCategory::Float => {
                    assert(false);
                },
                TypeCategory::Nested => {
                    assert(plan_generated_wf(p));
                },
            }
            assert(all_generated(plans));
        }
    }
}

/// An assembled definition has exactly one fixed slot for each
/// excluded schema field.
pub proof fn lemma_matches_num_fixed(
    plans: Seq<FieldPlan>,
    s: Seq<FieldDescriptor>,
    reg: Seq<RegistryEntry>,
    fuel: nat,
)
    requires
        def_matches(plans, s, reg, fuel),
    ensures
        num_fixed(plans) == num_excluded(s),
    decreases plans.len(),
{
    if plans.len() > 0 {
        assert forall|m: int| 0 <= m < s.len() - 1 implies plan_matches(
            #[trigger] plans.drop_last()[m],
            s.drop_last()[m],
            reg,
            fuel,
        ) by {
            assert(plans.drop_last()[m] == plans[m]);
            assert(s.drop_last()[m] == s[m]);
        }
        lemma_matches_num_fixed(plans.drop_last(), s.drop_last(), reg, fuel);
        assert(plan_matches(plans[plans.len() - 1], s[s.len() - 1], reg, fuel));
        assert(plans.last() == plans[plans.len() - 1]);
        assert(s.last() == s[s.len() - 1]);
        assert(plans.last().slot is Fixed <==> s.last().excluded);
    }
}

fn schema_excluded_any(s: &Vec<FieldDescriptor>) -> (r: bool)
    ensures
        r == schema_has_excluded(s@),
{
    let mut j: usize = 0;
    while j < s.len()
        invariant
            j <= s@.len(),
            forall|m: int| 0 <= m < j ==> !(#[trigger] s@[m]).excluded,
        decreases s@.len() - j,
    {
        if s[j].excluded {
            return true;
        }
        j = j + 1;
    }
    false
}

fn lookup_entry(registry: &Registry, name: &String) -> (r: Option<usize>)
    ensures
        match r {
            Some(idx) => idx < registry.entries@.len() && reg_lookup(registry.entries@, name@)
                == Some(registry.entries@[idx as int].schema@),
            None => reg_lookup(registry.entries@, name@) is None,
        },
{
    let ghost entries = registry.entries@;
    let mut j: usize = 0;
    proof {
        assert(entries.skip(0) =~= entries);
    }
    while j < registry.entries.len()
        invariant
            entries == registry.entries@,
            j <= entries.len(),
            reg_lookup(entries, name@) == reg_lookup(entries.skip(j as int), name@),
        decreases entries.len() - j,
    {
        proof {
            assert(entries.skip(j as int)[0] == entries[j as int]);
            assert(entries.skip(j as int).skip(1) =~= entries.skip(j as int + 1));
        }
        if registry.entries[j].name == *name {
            return Some(j);
        }
        j = j + 1;
    }
    proof {
        assert(entries.skip(j as int).len() == 0);
    }
    None
}

/// Assembles the plans for one schema with `fuel` nesting steps left.
fn assemble_schema(
    schema: &Vec<FieldDescriptor>,
    registry: &Registry,
    fuel: usize,
) -> (r: Result<Vec<FieldPlan>, AssemblyError>)
    ensures
        r is Ok <==> schema_ok(schema@, registry.entries@, fuel as nat),
        (r matches Ok(plans) ==> def_matches(plans@, schema@, registry.entries@, fuel as nat)),
        (r matches Err(e) ==> error_model(e) == first_error(
            schema@,
            registry.entries@,
            fuel as nat,
        )),
    decreases fuel,
{
    let ghost reg = registry.entries@;
    let mut plans: Vec<FieldPlan> = Vec::new();
    let mut j: usize = 0;
    while j < schema.len()
        invariant
            reg == registry.entries@,
            j <= schema@.len(),
            plans@.len() == j,
            forall|m: int| 0 <= m < j ==> field_ok(#[trigger] schema@[m], reg, fuel as nat),
            forall|m: int| 0 <= m < j ==> plan_matches(
                #[trigger] plans@[m],
                schema@[m],
                reg,
                fuel as nat,
            ),
        decreases schema@.len() - j,
    {
        let d = &schema[j];
        match &d.shape {
            TypeShape::Other => {
                proof {
                    lemma_first_error_locate(schema@, reg, fuel as nat, j as int);
                }
                return Err(AssemblyError::UnsupportedFieldType { field: d.name.clone() });
            },
            TypeShape::Path(segments) => {
                if segments.len() == 0 {
                    proof {
                        lemma_first_error_locate(schema@, reg, fuel as nat, j as int);
                    }
                    return Err(AssemblyError::UnsupportedFieldType { field: d.name.clone() });
                }
                let n = &segments[segments.len() - 1];
                proof {
                    assert(declared_name(d.shape) == Some(n@));
                }
                if d.excluded {
                    plans.push(FieldPlan { name: d.name.clone(), slot: Slot::Fixed });
                } else {
                    match classify(n) {
                        TypeCategory::Text => {
                            plans.push(
                                FieldPlan {
                                    name: d.name.clone(),
                                    slot: Slot::Generated(Generator::Text(d.name.clone())),
                                },
                            );
                        },
                        TypeCategory::Character => {
                            plans.push(
                                FieldPlan {
                                    name: d.name.clone(),
                                    slot: Slot::Generated(Generator::Digit),
                                },
                            );
                        },
                        TypeCategory::Boolean => {
                            plans.push(
                                FieldPlan {
                                    name: d.name.clone(),
                                    slot: Slot::Generated(
                                        Generator::Constant(Value::Boolean(false)),
                                    ),
                                },
                            );
                        },
                        TypeCategory::Number(k) => {
                            plans.push(
                                FieldPlan {
                                    name: d.name.clone(),
                                    slot: Slot::Generated(Generator::Number(k)),
                                },
                            );
                        },
                        TypeCategory::Float => {
                            proof {
                                lemma_first_error_locate(schema@, reg, fuel as nat, j as int);
                            }
                            return Err(
                                AssemblyError::UnsupportedFieldType { field: d.name.clone() },
                            );
                        },
                        TypeCategory::Nested => {
                            match lookup_entry(registry, n) {
                                None => {
                                    proof {
                                        lemma_first_error_locate(
                                            schema@,
                                            reg,
                                            fuel as nat,
                                            j as int,
                                        );
                                    }
                                    return Err(
                                        AssemblyError::MissingNestedCapability {
                                            field: d.name.clone(),
                                            nested_type: n.clone(),
                                        },
                                    );
                                },
                                Some(idx) => {
                                    let s2 = &registry.entries[idx].schema;
                                    if schema_excluded_any(s2) {
                                        proof {
                                            lemma_first_error_locate(
                                                schema@,
                                                reg,
                                                fuel as nat,
                                                j as int,
                                            );
                                        }
                                        return Err(
                                            AssemblyError::MissingNestedCapability {
                                                field: d.name.clone(),
                                                nested_type: n.clone(),
                                            },
                                        );
                                    }
                                    if fuel == 0 {
                                        proof {
                                            lemma_first_error_locate(
                                                schema@,
                                                reg,
                                                fuel as nat,
                                                j as int,
                                            );
                                        }
                                        return Err(
                                            AssemblyError::NestingTooDeep {
                                                field: d.name.clone(),
                                            },
                                        );
                                    }
                                    match assemble_schema(s2, registry, fuel - 1) {
                                        Ok(inner) => {
                                            plans.push(
                                                FieldPlan {
                                                    name: d.name.clone(),
                                                    slot: Slot::Generated(
                                                        Generator::Nested(
                                                            Box::new(
                                                                BuilderDefinition { fields: inner },
                                                            ),
                                                        ),
                                                    ),
                                                },
                                            );
                                        },
                                        Err(e) => {
                                            proof {
                                                lemma_first_error_locate(
                                                    schema@,
                                                    reg,
                                                    fuel as nat,
                                                    j as int,
                                                );
                                            }
                                            return Err(e);
                                        },
                                    }
                                },
                            }
                        },
                    }
                }
            },
        }
        j = j + 1;
    }
    Ok(plans)
}

/// Assembles the builder definition for a record schema against a
/// registry of nested-capable record types, or reports the first
/// offending field. Success is owed exactly when every field declares
/// a simple named-type path and every non-excluded field's type is of
/// a supported category or a registered, acyclically nested record;
/// the returned definition then mirrors the schema field for field,
/// is well formed, and has one fixed slot per excluded field.
pub fn assemble(schema: &Vec<FieldDescriptor>, registry: &Registry) -> (r: Result<
    BuilderDefinition,
    AssemblyError,
>)
    ensures
        r is Ok <==> schema_ok(schema@, registry.entries@, registry.entries@.len() as nat),
        (r matches Ok(def) ==> {
            &&& def_matches(def.fields@, schema@, registry.entries@, registry.entries@.len() as nat)
            &&& def_wf(def.fields@)
            &&& num_fixed(def.fields@) == num_excluded(schema@)
        }),
        (r matches Err(e) ==> error_model(e) == first_error(
            schema@,
            registry.entries@,
            registry.entries@.len() as nat,
        )),
{
    let fuel = registry.entries.len();
    match assemble_schema(schema, registry, fuel) {
        Ok(fields) => {
            proof {
                lemma_matches_wf(fields@, schema@, registry.entries@, fuel as nat);
                lemma_matches_num_fixed(fields@, schema@, registry.entries@, fuel as nat);
            }
            Ok(BuilderDefinition { fields })
        },
        Err(e) => Err(e),
    }
}

/// The first field, in schema order, whose declared type is not a
/// simple named-type path — the shape every field must have, excluded
/// ones included, before any other rule is consulted. Code synthesis
/// runs this check and fails fatally on the returned field.
pub fn first_unnamed_field(schema: &Vec<FieldDescriptor>) -> (r: Option<usize>)
    ensures
        match r {
            Some(j) => j < schema@.len() && declared_name(schema@[j as int].shape) is None
                && forall|m: int|
                0 <= m < j ==> declared_name((#[trigger] schema@[m]).shape) is Some,
            None => forall|m: int|
                0 <= m < schema@.len() ==> declared_name((#[trigger] schema@[m]).shape) is Some,
        },
{
    let mut j: usize = 0;
    while j < schema.len()
        invariant
            j <= schema@.len(),
            forall|m: int| 0 <= m < j ==> declared_name((#[trigger] schema@[m]).shape) is Some,
        decreases schema@.len() - j,
    {
        let named = match &schema[j].shape {
            TypeShape::Path(segments) => segments.len() > 0,
            TypeShape::Other => false,
        };
        if !named {
            return Some(j);
        }
        j = j + 1;
    }
    None
}

} // verus!
