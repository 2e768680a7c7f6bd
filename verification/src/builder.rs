//! The normalized schema of a builder derivation: one record per field and
//! one record for the type being built.

use vstd::prelude::*;

verus! {

/// Mathematical model of one field: its name, its type descriptor (carried
/// verbatim), its optional default expression and whether setters are
/// suppressed for it.
pub ghost struct FieldSpecV {
    pub name: Seq<char>,
    pub ty: Seq<char>,
    pub default: Option<Seq<char>>,
    pub skip: bool,
}

/// Represents a field in the builder struct.
#[derive(Debug)]
pub struct BuilderField {
    /// The name of the field.
    pub name: String,
    /// The type of the field, as source text.
    pub ty: String,
    /// The default value of the field, as source text.
    pub default: Option<String>,
    /// Whether the field should be skipped.
    pub skip: bool,
}

impl View for BuilderField {
    type V = FieldSpecV;

    open spec fn view(&self) -> FieldSpecV {
        FieldSpecV {
            name: self.name@,
            ty: self.ty@,
            default: match self.default {
                Some(d) => Some(d@),
                None => None,
            },
            skip: self.skip,
        }
    }
}

impl DeepView for BuilderField {
    type V = FieldSpecV;

    open spec fn deep_view(&self) -> FieldSpecV {
        self.view()
    }
}

impl BuilderField {
    /// Creates a new builder field.
    pub fn new(name: String, ty: String, default: Option<String>, skip: bool) -> (r: Self)
        ensures
            r@ == (FieldSpecV {
                name: name@,
                ty: ty@,
                default: match default {
                    Some(d) => Some(d@),
                    None => None,
                },
                skip,
            }),
    {
        Self { name, ty, default, skip }
    }
}

/// A field record is internally consistent when a skipped field carries a
/// default expression: a skipped field has no setter, so its value can come
/// from nowhere else.
pub open spec fn field_wf(f: FieldSpecV) -> bool {
    f.skip ==> f.default is Some
}

/// A field list is well formed when field names are unique (they name fields
/// of one host type) and every field is internally consistent.
pub open spec fn fields_wf(fs: Seq<FieldSpecV>) -> bool {
    &&& forall|i: int, j: int| 0 <= i < j < fs.len() ==> fs[i].name != fs[j].name
    &&& forall|i: int| 0 <= i < fs.len() ==> field_wf(#[trigger] fs[i])
}

/// Mathematical model of a builder schema without generic parameters.
pub ghost struct BuilderV {
    pub name: Seq<char>,
    pub fields: Seq<FieldSpecV>,
}

/// Represents the builder struct.
#[derive(Debug)]
pub struct Builder {
    /// The name of the struct being built.
    pub name: String,
    /// The fields of the builder struct.
    pub fields: Vec<BuilderField>,
}

impl View for Builder {
    type V = BuilderV;

    open spec fn view(&self) -> BuilderV {
        BuilderV { name: self.name@, fields: self.fields.deep_view() }
    }
}

impl Builder {
    /// Creates a new builder.
    pub fn new(name: String) -> (r: Self)
        ensures
            r@.name == name@,
            r@.fields == Seq::<FieldSpecV>::empty(),
    {
        Self { name, fields: Vec::new() }
    }

    /// Adds a field to the builder.
    pub fn add_field(&mut self, field: BuilderField)
        ensures
            final(self)@.name == old(self)@.name,
            final(self)@.fields == old(self)@.fields.push(field@),
    {
        self.fields.push(field);
    }
}

} // verus!
