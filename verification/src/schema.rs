//! Assembly of a full type schema from a structured declaration.
//!
//! The host's declaration parser hands over one [`DeclInput`]: the type's
//! name, its generic parameters, its `where` clause and its shape. Only a
//! struct with named fields is an eligible shape; any other shape is a
//! generation-time diagnostic naming the shape. The fields' annotation sets
//! are resolved one by one and every diagnostic they provoke is collected, so
//! a declaration with several defective fields reports all of them at once.

use vstd::prelude::*;
use crate::builder::{BuilderField, FieldSpecV};
use crate::directive::{
    resolve_spec, resolve_field, Diagnostic, DiagnosticV, RawAnnotation, RawAnnotationV,
};
use vstd::string::StringExecFns;

verus! {

/// Mathematical model of a full type schema.
pub ghost struct TypeSpecV {
    pub name: Seq<char>,
    pub generics: Seq<Seq<char>>,
    pub where_clause: Option<Seq<char>>,
    pub fields: Seq<FieldSpecV>,
}

/// The normalized schema of one annotated type: its name, its generic
/// parameters (threaded unchanged into every generated declaration), its
/// `where` clause and its ordered fields.
#[derive(Debug)]
pub struct TypeSpec {
    /// The name of the type being built.
    pub name: String,
    /// The identifiers of the type's generic parameters, in order.
    pub generics: Vec<String>,
    /// The predicates of the type's `where` clause, verbatim, if any.
    pub where_clause: Option<String>,
    /// The resolved fields, in declaration order.
    pub fields: Vec<BuilderField>,
}

impl View for TypeSpec {
    type V = TypeSpecV;

    open spec fn view(&self) -> TypeSpecV {
        TypeSpecV {
            name: self.name@,
            generics: self.generics.deep_view(),
            where_clause: match self.where_clause {
                Some(w) => Some(w@),
                None => None,
            },
            fields: self.fields.deep_view(),
        }
    }
}

/// Mathematical model of one field declaration with its raw annotations.
pub ghost struct FieldDeclV {
    pub name: Seq<char>,
    pub ty: Seq<char>,
    pub annotations: Seq<RawAnnotationV>,
}

/// One field of the source declaration, before directive resolution.
#[derive(Debug)]
pub struct FieldDecl {
    /// The name of the field.
    pub name: String,
    /// The type of the field, as source text.
    pub ty: String,
    /// The raw annotations attached to the field.
    pub annotations: Vec<RawAnnotation>,
}

impl View for FieldDecl {
    type V = FieldDeclV;

    open spec fn view(&self) -> FieldDeclV {
        FieldDeclV { name: self.name@, ty: self.ty@, annotations: self.annotations.deep_view() }
    }
}

impl DeepView for FieldDecl {
    type V = FieldDeclV;

    open spec fn deep_view(&self) -> FieldDeclV {
        self.view()
    }
}

/// Mathematical model of a declaration's shape.
pub ghost enum DeclShapeV {
    NamedFields(Seq<FieldDeclV>),
    TupleFields,
    UnitShape,
    EnumShape,
}

/// The shape of the source declaration. Only a struct with named fields can
/// carry a builder.
#[derive(Debug)]
pub enum DeclShape {
    /// A struct with named fields.
    NamedFields(Vec<FieldDecl>),
    /// A struct with positional fields.
    TupleFields,
    /// A struct with no fields at all.
    UnitShape,
    /// An enum.
    EnumShape,
}

impl View for DeclShape {
    type V = DeclShapeV;

    open spec fn view(&self) -> DeclShapeV {
        match self {
            DeclShape::NamedFields(fds) => DeclShapeV::NamedFields(fds.deep_view()),
            DeclShape::TupleFields => DeclShapeV::TupleFields,
            DeclShape::UnitShape => DeclShapeV::UnitShape,
            DeclShape::EnumShape => DeclShapeV::EnumShape,
        }
    }
}

/// Mathematical model of one parsed declaration.
pub ghost struct DeclInputV {
    pub name: Seq<char>,
    pub generics: Seq<Seq<char>>,
    pub where_clause: Option<Seq<char>>,
    pub shape: DeclShapeV,
}

/// One parsed type declaration, as the host's parser hands it over.
#[derive(Debug)]
pub struct DeclInput {
    /// The name of the declared type.
    pub name: String,
    /// The identifiers of the type's generic parameters, in order.
    pub generics: Vec<String>,
    /// The predicates of the type's `where` clause, verbatim, if any.
    pub where_clause: Option<String>,
    /// The declaration's shape, with the fields where it has named ones.
    pub shape: DeclShape,
}

impl View for DeclInput {
    type V = DeclInputV;

    open spec fn view(&self) -> DeclInputV {
        DeclInputV {
            name: self.name@,
            generics: self.generics.deep_view(),
            where_clause: match self.where_clause {
                Some(w) => Some(w@),
                None => None,
            },
            shape: self.shape@,
        }
    }
}

/// The wording of the diagnostic for an ineligible declaration shape.
pub open spec fn shape_text(s: DeclShapeV) -> Seq<char> {
    match s {
        DeclShapeV::NamedFields(_) => "a struct with named fields"@,
        DeclShapeV::TupleFields => "a tuple struct"@,
        DeclShapeV::UnitShape => "a unit struct"@,
        DeclShapeV::EnumShape => "an enum"@,
    }
}

/// The diagnostic message for an ineligible declaration shape.
pub open spec fn msg_unsupported_shape(s: DeclShapeV) -> Seq<char> {
    "unsupported declaration shape: expected a struct with named fields, found "@ + shape_text(s)
}

/// The field record that resolving one field declaration yields.
pub open spec fn field_of_decl(fd: FieldDeclV) -> FieldSpecV {
    let st = resolve_spec(fd.annotations);
    FieldSpecV { name: fd.name, ty: fd.ty, default: st.default, skip: st.skip }
}

/// The diagnostics that resolving one field declaration yields.
pub open spec fn field_errors(fd: FieldDeclV) -> Seq<DiagnosticV> {
    resolve_spec(fd.annotations).errors.map_values(
        |m: Seq<char>| DiagnosticV { field: fd.name, message: m },
    )
}

/// The diagnostics of a whole field list, in declaration order.
pub open spec fn decl_errors(fds: Seq<FieldDeclV>) -> Seq<DiagnosticV>
    decreases fds.len(),
{
    if fds.len() == 0 {
        Seq::empty()
    } else {
        decl_errors(fds.drop_last()) + field_errors(fds.last())
    }
}

/// The field records of a whole field list, in declaration order.
pub open spec fn fields_of_decls(fds: Seq<FieldDeclV>) -> Seq<FieldSpecV>
    decreases fds.len(),
{
    if fds.len() == 0 {
        Seq::empty()
    } else {
        fields_of_decls(fds.drop_last()).push(field_of_decl(fds.last()))
    }
}

/// Extending a field-list prefix by one field appends that field's
/// diagnostics and its record.
pub proof fn lemma_decls_take_snoc(fds: Seq<FieldDeclV>, i: int)
    requires
        0 <= i < fds.len(),
    ensures
        decl_errors(fds.take(i + 1)) == decl_errors(fds.take(i)) + field_errors(fds[i]),
        fields_of_decls(fds.take(i + 1)) == fields_of_decls(fds.take(i)).push(
            field_of_decl(fds[i]),
        ),
{
    assert(fds.take(i + 1).drop_last() =~= fds.take(i));
    assert(fds.take(i + 1).last() == fds[i]);
}

/// A declaration that assembles without diagnostics yields only well-formed
/// field records: every skipped field carries a default.
pub proof fn law_assembled_fields_wf(fds: Seq<FieldDeclV>)
    requires
        decl_errors(fds).len() == 0,
    ensures
        fields_of_decls(fds).len() == fds.len(),
        forall|i: int|
            0 <= i < fds.len() ==> crate::builder::field_wf(#[trigger] fields_of_decls(fds)[i]),
    decreases fds.len(),
{
    if fds.len() > 0 {
        law_assembled_fields_wf(fds.drop_last());
        crate::directive::law_resolved_field_wf(fds.last().annotations);
        assert(field_errors(fds.last()).len() == 0);
        assert forall|i: int| 0 <= i < fds.len() implies crate::builder::field_wf(
            #[trigger] fields_of_decls(fds)[i],
        ) by {
            if i < fds.len() - 1 {
                assert(fields_of_decls(fds)[i] == fields_of_decls(fds.drop_last())[i]);
            }
        }
    }
}

/// Assembles a parsed declaration into a type schema, or into the batch of
/// diagnostics its shape or its fields provoked. A declaration fails only
/// when its shape is not a struct with named fields or when a field's
/// annotation set is invalid; the diagnostics name every defective field.
pub fn assemble(decl: DeclInput) -> (r: Result<TypeSpec, Vec<Diagnostic>>)
    ensures
        ({
            match decl@.shape {
                DeclShapeV::NamedFields(fds) => {
                    let errs = decl_errors(fds);
                    match r {
                        Ok(ts) => errs.len() == 0 && ts@ == (TypeSpecV {
                            name: decl@.name,
                            generics: decl@.generics,
                            where_clause: decl@.where_clause,
                            fields: fields_of_decls(fds),
                        }),
                        Err(ds) => errs.len() > 0 && ds.deep_view() == errs,
                    }
                },
                _ => match r {
                    Ok(_) => false,
                    Err(ds) => ds.deep_view() =~= seq![
                        DiagnosticV { field: decl@.name, message: msg_unsupported_shape(decl@.shape) },
                    ],
                },
            }
        }),
{
    let DeclInput { name, generics, where_clause, shape } = decl;
    let fds: Vec<FieldDecl> = match shape {
        DeclShape::NamedFields(fds) => fds,
        other => {
            let mut m = String::new();
            m.append("unsupported declaration shape: expected a struct with named fields, found ");
            match other {
                DeclShape::NamedFields(_) => {
                    m.append("a struct with named fields");
                },
                DeclShape::TupleFields => {
                    m.append("a tuple struct");
                },
                DeclShape::UnitShape => {
                    m.append("a unit struct");
                },
                DeclShape::EnumShape => {
                    m.append("an enum");
                },
            }
            let mut ds: Vec<Diagnostic> = Vec::new();
            ds.push(Diagnostic { field: name, message: m });
            return Err(ds);
        },
    };
    let ghost fdsv = fds.deep_view();
    let mut fields: Vec<BuilderField> = Vec::new();
    let mut diags: Vec<Diagnostic> = Vec::new();
    let mut i: usize = 0;
    while i < fds.len()
        invariant
            i <= fds.len(),
            fdsv == fds.deep_view(),
            fdsv.len() == fds.len(),
            diags.deep_view() == decl_errors(fdsv.take(i as int)),
            diags.len() == 0 ==> fields.deep_view() == fields_of_decls(fdsv.take(i as int)),
        decreases fds.len() - i,
    {
        proof {
            lemma_decls_take_snoc(fdsv, i as int);
            assert(fdsv[i as int] == fds[i as int].deep_view());
        }
        let fd = &fds[i];
        let ghost pre_fields = fields.deep_view();
        let ghost pre_diags = diags.deep_view();
        match resolve_field(fd.name.clone(), fd.ty.clone(), &fd.annotations) {
            Ok(f) => {
                fields.push(f);
                proof {
                    assert(field_errors(fdsv[i as int]) =~= Seq::<DiagnosticV>::empty());
                    assert(diags.deep_view() =~= pre_diags + field_errors(fdsv[i as int]));
                    assert(f@ == field_of_decl(fdsv[i as int]));
                    if diags.len() == 0 {
                        assert(fields.deep_view() =~= pre_fields.push(f@));
                    }
                }
            },
            Err(mut ds) => {
                proof {
                    assert(ds.deep_view() =~= field_errors(fdsv[i as int]));
                }
                diags.append(&mut ds);
                proof {
                    assert(diags.deep_view() =~= pre_diags + field_errors(fdsv[i as int]));
                    assert(diags.deep_view().len() > 0);
                }
            },
        }
        i += 1;
    }
    proof {
        assert(fdsv.take(fds.len() as int) =~= fdsv);
    }
    if diags.len() == 0 {
        Ok(TypeSpec { name, generics, where_clause, fields })
    } else {
        Err(diags)
    }
}

} // verus!
