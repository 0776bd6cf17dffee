//! Schema extraction: from the raw field listing of a record type to
//! the ordered schema the assembler works on.
//!
//! A raw field carries what the external type-introspection facility
//! reports: an optional name, the shape of its declared type, and the
//! annotations attached to it. Extraction silently drops fields
//! without a name and marks a field excluded exactly when a bare
//! zero-argument `tlayuda_ignore` marker stands on it. An annotation
//! whose inspection failed to parse is deliberately treated as not
//! excluding the field rather than reported; the contracts state this
//! choice so that a caller can see it.

use vstd::prelude::*;
use vstd::string::*;

verus! {

/// One annotation on a field, as marker inspection reports it: a bare
/// zero-argument marker with its name, some other well-formed
/// annotation shape, or an annotation that failed to parse.
#[derive(Debug)]
pub enum Marker {
    Bare(String),
    OtherForm,
    Malformed,
}

/// The shape of a field's declared type: a named path of segments, or
/// any other shape (tuple, array, reference, generic parameter, ...).
#[derive(Debug)]
pub enum TypeShape {
    Path(Vec<String>),
    Other,
}

/// One field as the external type-introspection facility reports it.
#[derive(Debug)]
pub struct RawField {
    pub name: Option<String>,
    pub shape: TypeShape,
    pub markers: Vec<Marker>,
}

/// One field of the extracted record schema.
#[derive(Debug)]
pub struct FieldDescriptor {
    pub name: String,
    pub shape: TypeShape,
    pub excluded: bool,
}

/// Mathematical image of a type shape.
pub enum ShapeModel {
    Path(Seq<Seq<char>>),
    Other,
}

/// Mathematical image of a schema field.
pub struct FieldModel {
    pub name: Seq<char>,
    pub shape: ShapeModel,
    pub excluded: bool,
}

pub open spec fn shape_model(t: TypeShape) -> ShapeModel {
    match t {
        TypeShape::Path(segments) => ShapeModel::Path(segments@.map_values(|s: String| s@)),
        TypeShape::Other => ShapeModel::Other,
    }
}

pub open spec fn descriptor_model(d: FieldDescriptor) -> FieldModel {
    FieldModel { name: d.name@, shape: shape_model(d.shape), excluded: d.excluded }
}

/// The one annotation this system recognizes: a bare marker named
/// `tlayuda_ignore`.
pub open spec fn is_ignore_marker(m: Marker) -> bool {
    m matches Marker::Bare(n) && n@ == "tlayuda_ignore"@
}

/// Whether some annotation on the field is the ignore marker. A
/// malformed annotation never excludes.
pub open spec fn marked_excluded(ms: Seq<Marker>) -> bool {
    exists|j: int| 0 <= j < ms.len() && is_ignore_marker(#[trigger] ms[j])
}

/// The schema field a named raw field turns into.
pub open spec fn raw_field_model(f: RawField) -> FieldModel {
    FieldModel {
        name: (f.name->0)@,
        shape: shape_model(f.shape),
        excluded: marked_excluded(f.markers@),
    }
}

/// The schema of a raw field listing: the named fields, in order, each
/// with its shape and its exclusion flag; unnamed fields are dropped.
pub open spec fn schema_of(s: Seq<RawField>) -> Seq<FieldModel>
    decreases s.len(),
{
    if s.len() == 0 {
        Seq::empty()
    } else {
        let rest = schema_of(s.drop_last());
        if s.last().name is Some {
            rest.push(raw_field_model(s.last()))
        } else {
            rest
        }
    }
}

fn marker_is_ignore(m: &Marker) -> (r: bool)
    ensures
        r == is_ignore_marker(*m),
{
    match m {
        Marker::Bare(n) => {
            let lit = String::from_str("tlayuda_ignore");
            *n == lit
        },
        _ => false,
    }
}

fn field_excluded(ms: &Vec<Marker>) -> (r: bool)
    ensures
        r == marked_excluded(ms@),
{
    let mut j: usize = 0;
    while j < ms.len()
        invariant
            j <= ms.len(),
            forall|k: int| 0 <= k < j ==> !is_ignore_marker(#[trigger] ms@[k]),
        decreases ms.len() - j,
    {
        if marker_is_ignore(&ms[j]) {
            return true;
        }
        j = j + 1;
    }
    false
}

/// Extracts the record schema from a raw field listing. Fields without
/// a name are silently omitted; every named field keeps its position,
/// its declared type shape, and carries `excluded` exactly when a bare
/// `tlayuda_ignore` marker stands on it.
pub fn extract_schema(fields: Vec<RawField>) -> (schema: Vec<FieldDescriptor>)
    ensures
        schema@.map_values(|d: FieldDescriptor| descriptor_model(d)) == schema_of(fields@),
{
    let ghost orig = fields@;
    let mut fields = fields;
    let total: usize = fields.len();
    let mut schema: Vec<FieldDescriptor> = Vec::new();
    let mut k: usize = 0;
    proof {
        assert(orig.take(0) =~= Seq::<RawField>::empty());
        assert(schema@.map_values(|d: FieldDescriptor| descriptor_model(d)) =~= schema_of(
            orig.take(0),
        ));
    }
    while fields.len() > 0
        invariant
            orig.len() == total,
            k + fields.len() == orig.len(),
            fields@ == orig.skip(k as int),
            schema@.map_values(|d: FieldDescriptor| descriptor_model(d)) == schema_of(
                orig.take(k as int),
            ),
        decreases fields.len(),
    {
        let f = fields.remove(0);
        proof {
            assert(f == orig[k as int]);
            assert(fields@ =~= orig.skip(k as int + 1));
            assert(orig.take(k as int + 1).drop_last() =~= orig.take(k as int));
            assert(orig.take(k as int + 1).last() == orig[k as int]);
        }
        let excluded = field_excluded(&f.markers);
        match f.name {
            Some(n) => {
                let d = FieldDescriptor { name: n, shape: f.shape, excluded };
                schema.push(d);
                proof {
                    assert(schema@.map_values(|d: FieldDescriptor| descriptor_model(d))
                        =~= schema_of(orig.take(k as int + 1)));
                }
            },
            None => {
                proof {
                    assert(schema@.map_values(|d: FieldDescriptor| descriptor_model(d))
                        =~= schema_of(orig.take(k as int + 1)));
                }
            },
        }
        k = k + 1;
    }
    proof {
        assert(orig.take(k as int) =~= orig);
    }
    schema
}

} // verus!
