//! Emission of the builder code for a full schema, generic parameters and
//! `where` clause included.
//!
//! The same four artifacts as the plain emitter, arranged around the type's
//! generics: the builder type, a `Default` implementation that pre-populates
//! the slots, the entry constructor `builder()` delegating to it, the fluent
//! setters and the finalizer. The finalizer here words a missing required
//! field as `Field '<field>' is required.` and extracts every slot
//! fallibly; an optional-typed field without a default still collapses to
//! the absent value. Generation-time diagnostics are emitted in place of
//! code, one failure line per diagnostic, so a defective declaration never
//! silently yields a builder.

use vstd::prelude::*;
use crate::builder::FieldSpecV;
use crate::directive::{Diagnostic, DiagnosticV};
use crate::emit::{init_lines, push_init_line, push_slot_line, setters_text, slot_lines};
use crate::schema::{TypeSpec, TypeSpecV};
use crate::state::missing_labeled_msg;
use crate::text::{is_option_ty, is_option_type};
use vstd::string::StringExecFns;

verus! {

/// The generic parameter identifiers, comma-separated.
pub open spec fn comma_join(gs: Seq<Seq<char>>) -> Seq<char>
    decreases gs.len(),
{
    if gs.len() == 0 {
        Seq::empty()
    } else if gs.len() == 1 {
        gs[0]
    } else {
        comma_join(gs.drop_last()) + ", "@ + gs.last()
    }
}

/// The generics list as it stands after a type name: empty when the type has
/// no generic parameters, else the bracketed list.
pub open spec fn generics_text(gs: Seq<Seq<char>>) -> Seq<char> {
    if gs.len() == 0 {
        Seq::empty()
    } else {
        "<"@ + comma_join(gs) + ">"@
    }
}

/// The `where` clause suffix, empty when the type has none.
pub open spec fn where_text(w: Option<Seq<char>>) -> Seq<char> {
    match w {
        Some(p) => " where "@ + p,
        None => Seq::empty(),
    }
}

/// One extraction line of the finalizer: an optional-typed field without a
/// default collapses to the absent value; every other field extracts
/// fallibly, naming itself on failure.
pub open spec fn g_build_line(f: FieldSpecV) -> Seq<char> {
    if f.default is None && is_option_ty(f.ty) {
        "            "@ + f.name + ": self."@ + f.name + ".unwrap_or(None),\n"@
    } else {
        "            "@ + f.name + ": self."@ + f.name + ".ok_or(\""@ + missing_labeled_msg(f.name)
            + "\".to_string())?,\n"@
    }
}

/// The extraction lines of all fields, in order.
pub open spec fn g_build_lines(fs: Seq<FieldSpecV>) -> Seq<char>
    decreases fs.len(),
{
    if fs.len() == 0 {
        Seq::empty()
    } else {
        g_build_lines(fs.drop_last()) + g_build_line(fs.last())
    }
}

/// The builder type declaration.
pub open spec fn g_struct_text(t: TypeSpecV) -> Seq<char> {
    "pub struct "@ + t.name + "Builder"@ + generics_text(t.generics) + where_text(t.where_clause)
        + " {\n"@ + slot_lines(t.fields) + "}\n"@
}

/// The `Default` implementation that pre-populates the slots.
pub open spec fn g_default_impl_text(t: TypeSpecV) -> Seq<char> {
    "impl"@ + generics_text(t.generics) + " Default for "@ + t.name + "Builder"@ + generics_text(
        t.generics,
    ) + where_text(t.where_clause) + " {\n    fn default() -> Self {\n        Self {\n"@
        + init_lines(t.fields) + "        }\n    }\n}\n"@
}

/// The finalizer's implementation block.
pub open spec fn g_build_impl_text(t: TypeSpecV) -> Seq<char> {
    "impl"@ + generics_text(t.generics) + " "@ + t.name + "Builder"@ + generics_text(t.generics)
        + where_text(t.where_clause) + " {\n    pub fn build(self) -> Result<"@ + t.name
        + generics_text(t.generics) + ", String> {\n        Ok("@ + t.name + " {\n"@
        + g_build_lines(t.fields) + "        })\n    }\n}\n"@
}

/// The entry constructor on the source type, delegating to `Default`.
pub open spec fn g_entry_impl_text(t: TypeSpecV) -> Seq<char> {
    "impl"@ + generics_text(t.generics) + " "@ + t.name + generics_text(t.generics) + where_text(
        t.where_clause,
    ) + " {\n    pub fn builder() -> "@ + t.name + "Builder"@ + generics_text(t.generics)
        + " {\n        "@ + t.name + "Builder::default()\n    }\n}\n"@
}

/// The setters' implementation block.
pub open spec fn g_setters_impl_text(t: TypeSpecV) -> Seq<char> {
    "impl"@ + generics_text(t.generics) + " "@ + t.name + "Builder"@ + generics_text(t.generics)
        + where_text(t.where_clause) + " {\n"@ + setters_text(t.fields) + "}\n"@
}

/// The whole emitted artifact.
pub open spec fn grouped_text(t: TypeSpecV) -> Seq<char> {
    g_struct_text(t) + g_default_impl_text(t) + g_build_impl_text(t) + g_entry_impl_text(t)
        + g_setters_impl_text(t)
}

/// One generation-time failure line.
pub open spec fn error_line(d: DiagnosticV) -> Seq<char> {
    "compile_error!(\""@ + d.field + ": "@ + d.message + "\");\n"@
}

/// The failure lines of a diagnostic batch, in order.
pub open spec fn errors_text(ds: Seq<DiagnosticV>) -> Seq<char>
    decreases ds.len(),
{
    if ds.len() == 0 {
        Seq::empty()
    } else {
        errors_text(ds.drop_last()) + error_line(ds.last())
    }
}

/// Extending a field-list prefix by one field appends that field's
/// extraction line.
pub proof fn lemma_g_build_lines_take_snoc(fs: Seq<FieldSpecV>, i: int)
    requires
        0 <= i < fs.len(),
    ensures
        g_build_lines(fs.take(i + 1)) == g_build_lines(fs.take(i)) + g_build_line(fs[i]),
{
    assert(fs.take(i + 1).drop_last() =~= fs.take(i));
    assert(fs.take(i + 1).last() == fs[i]);
}

/// Extending a diagnostic-batch prefix by one diagnostic appends its line.
pub proof fn lemma_errors_text_take_snoc(ds: Seq<DiagnosticV>, i: int)
    requires
        0 <= i < ds.len(),
    ensures
        errors_text(ds.take(i + 1)) == errors_text(ds.take(i)) + error_line(ds[i]),
{
    assert(ds.take(i + 1).drop_last() =~= ds.take(i));
    assert(ds.take(i + 1).last() == ds[i]);
}

/// Appends the bracketed generics list.
#[verifier::loop_isolation(false)]
fn push_generics(out: &mut String, gs: &Vec<String>)
    ensures
        final(out)@ == old(out)@ + generics_text(gs.deep_view()),
{
    let ghost gsv = gs.deep_view();
    if gs.len() == 0 {
        return ;
    }
    out.append("<");
    let ghost head = out@;
    let mut i: usize = 0;
    while i < gs.len()
        invariant
            i <= gs.len(),
            out@ == head + comma_join(gsv.take(i as int)),
        decreases gs.len() - i,
    {
        proof {
            assert(gsv.take(i + 1).drop_last() =~= gsv.take(i as int));
            assert(gsv.take(i + 1).last() == gsv[i as int]);
            assert(gsv[i as int] == gs[i as int]@);
        }
        if i > 0 {
            out.append(", ");
        }
        out.append(gs[i].as_str());
        proof {
            if i == 0 {
                assert(out@ =~= head + comma_join(gsv.take(1)));
            } else {
                assert(out@ =~= head + (comma_join(gsv.take(i as int)) + ", "@ + gsv[i as int]));
            }
        }
        i += 1;
    }
    out.append(">");
    proof {
        assert(gsv.take(gs.len() as int) =~= gsv);
        assert(out@ =~= old(out)@ + generics_text(gsv));
    }
}

/// Appends the `where` clause suffix.
fn push_where(out: &mut String, w: &Option<String>)
    ensures
        final(out)@ == old(out)@ + where_text(match *w {
            Some(ref p) => Some(p@),
            None => None,
        }),
{
    match w {
        Some(p) => {
            out.append(" where ");
            out.append(p.as_str());
            proof {
                assert(final(out)@ =~= old(out)@ + (" where "@ + p@));
            }
        },
        None => {
            proof {
                assert(final(out)@ =~= old(out)@ + Seq::<char>::empty());
            }
        },
    }
}

/// Appends one field's extraction line of the finalizer.
fn push_g_build_line(out: &mut String, f: &crate::builder::BuilderField)
    ensures
        final(out)@ == old(out)@ + g_build_line(f@),
{
    out.append("            ");
    out.append(f.name.as_str());
    out.append(": self.");
    out.append(f.name.as_str());
    if f.default.is_none() && is_option_type(f.ty.as_str()) {
        out.append(".unwrap_or(None),\n");
    } else {
        out.append(".ok_or(\"");
        out.append("Field '");
        out.append(f.name.as_str());
        out.append("' is required.");
        out.append("\".to_string())?,\n");
    }
    proof {
        assert(final(out)@ =~= old(out)@ + g_build_line(f@));
    }
}

/// Emits the builder type declaration.
#[verifier::loop_isolation(false)]
fn emit_struct(t: &TypeSpec) -> (r: String)
    ensures
        r@ == g_struct_text(t@),
{
    let ghost fsv = t@.fields;
    let mut out = String::new();
    out.append("pub struct ");
    out.append(t.name.as_str());
    out.append("Builder");
    push_generics(&mut out, &t.generics);
    push_where(&mut out, &t.where_clause);
    out.append(" {\n");
    let ghost head = out@;
    let mut i: usize = 0;
    while i < t.fields.len()
        invariant
            i <= t.fields.len(),
            out@ == head + slot_lines(fsv.take(i as int)),
        decreases t.fields.len() - i,
    {
        proof {
            crate::emit::lemma_lines_take_snoc(fsv, i as int);
            assert(fsv[i as int] == t.fields[i as int].deep_view());
        }
        push_slot_line(&mut out, &t.fields[i]);
        i += 1;
    }
    out.append("}\n");
    proof {
        assert(fsv.take(t.fields.len() as int) =~= fsv);
        assert(out@ =~= g_struct_text(t@));
    }
    out
}

/// Emits the `Default` implementation that pre-populates the slots.
#[verifier::loop_isolation(false)]
fn emit_default_impl(t: &TypeSpec) -> (r: String)
    ensures
        r@ == g_default_impl_text(t@),
{
    let ghost fsv = t@.fields;
    let mut out = String::new();
    out.append("impl");
    push_generics(&mut out, &t.generics);
    out.append(" Default for ");
    out.append(t.name.as_str());
    out.append("Builder");
    push_generics(&mut out, &t.generics);
    push_where(&mut out, &t.where_clause);
    out.append(" {\n    fn default() -> Self {\n        Self {\n");
    let ghost head = out@;
    let mut i: usize = 0;
    while i < t.fields.len()
        invariant
            i <= t.fields.len(),
            out@ == head + init_lines(fsv.take(i as int)),
        decreases t.fields.len() - i,
    {
        proof {
            crate::emit::lemma_lines_take_snoc(fsv, i as int);
            assert(fsv[i as int] == t.fields[i as int].deep_view());
        }
        push_init_line(&mut out, &t.fields[i]);
        i += 1;
    }
    out.append("        }\n    }\n}\n");
    proof {
        assert(fsv.take(t.fields.len() as int) =~= fsv);
        assert(out@ =~= g_default_impl_text(t@));
    }
    out
}

/// Emits the finalizer's implementation block.
#[verifier::loop_isolation(false)]
fn emit_build_impl(t: &TypeSpec) -> (r: String)
    ensures
        r@ == g_build_impl_text(t@),
{
    let ghost fsv = t@.fields;
    let mut out = String::new();
    out.append("impl");
    push_generics(&mut out, &t.generics);
    out.append(" ");
    out.append(t.name.as_str());
    out.append("Builder");
    push_generics(&mut out, &t.generics);
    push_where(&mut out, &t.where_clause);
    out.append(" {\n    pub fn build(self) -> Result<");
    out.append(t.name.as_str());
    push_generics(&mut out, &t.generics);
    out.append(", String> {\n        Ok(");
    out.append(t.name.as_str());
    out.append(" {\n");
    let ghost head = out@;
    let mut i: usize = 0;
    while i < t.fields.len()
        invariant
            i <= t.fields.len(),
            out@ == head + g_build_lines(fsv.take(i as int)),
        decreases t.fields.len() - i,
    {
        proof {
            lemma_g_build_lines_take_snoc(fsv, i as int);
            assert(fsv[i as int] == t.fields[i as int].deep_view());
        }
        push_g_build_line(&mut out, &t.fields[i]);
        i += 1;
    }
    out.append("        })\n    }\n}\n");
    proof {
        assert(fsv.take(t.fields.len() as int) =~= fsv);
        assert(out@ =~= g_build_impl_text(t@));
    }
    out
}

/// Emits the entry constructor on the source type.
fn emit_entry_impl(t: &TypeSpec) -> (r: String)
    ensures
        r@ == g_entry_impl_text(t@),
{
    let mut out = String::new();
    out.append("impl");
    push_generics(&mut out, &t.generics);
    out.append(" ");
    out.append(t.name.as_str());
    push_generics(&mut out, &t.generics);
    push_where(&mut out, &t.where_clause);
    out.append(" {\n    pub fn builder() -> ");
    out.append(t.name.as_str());
    out.append("Builder");
    push_generics(&mut out, &t.generics);
    out.append(" {\n        ");
    out.append(t.name.as_str());
    out.append("Builder::default()\n    }\n}\n");
    proof {
        assert(out@ =~= g_entry_impl_text(t@));
    }
    out
}

/// Emits the setters' implementation block.
#[verifier::loop_isolation(false)]
fn emit_setters_impl(t: &TypeSpec) -> (r: String)
    ensures
        r@ == g_setters_impl_text(t@),
{
    let ghost fsv = t@.fields;
    let mut out = String::new();
    out.append("impl");
    push_generics(&mut out, &t.generics);
    out.append(" ");
    out.append(t.name.as_str());
    out.append("Builder");
    push_generics(&mut out, &t.generics);
    push_where(&mut out, &t.where_clause);
    out.append(" {\n");
    let ghost head = out@;
    let mut i: usize = 0;
    while i < t.fields.len()
        invariant
            i <= t.fields.len(),
            out@ == head + setters_text(fsv.take(i as int)),
        decreases t.fields.len() - i,
    {
        proof {
            crate::emit::lemma_lines_take_snoc(fsv, i as int);
            assert(fsv[i as int] == t.fields[i as int].deep_view());
        }
        let m = crate::emit::field_setter(&t.fields[i]);
        out.append(m.as_str());
        i += 1;
    }
    out.append("}\n");
    proof {
        assert(fsv.take(t.fields.len() as int) =~= fsv);
        assert(out@ =~= g_setters_impl_text(t@));
    }
    out
}

/// Emits the whole builder artifact for a schema: the builder type, the
/// `Default` implementation, the finalizer, the entry constructor and the
/// setters.
pub fn emit_derived(t: &TypeSpec) -> (r: String)
    ensures
        r@ == grouped_text(t@),
{
    let mut out = emit_struct(t);
    let d = emit_default_impl(t);
    out.append(d.as_str());
    let b = emit_build_impl(t);
    out.append(b.as_str());
    let e = emit_entry_impl(t);
    out.append(e.as_str());
    let s = emit_setters_impl(t);
    out.append(s.as_str());
    proof {
        assert(out@ =~= grouped_text(t@));
    }
    out
}

/// Emits one generation-time failure line per diagnostic, in place of code.
#[verifier::loop_isolation(false)]
pub fn emit_errors(ds: &Vec<Diagnostic>) -> (r: String)
    ensures
        r@ == errors_text(ds.deep_view()),
{
    let ghost dsv = ds.deep_view();
    let mut out = String::new();
    let mut i: usize = 0;
    while i < ds.len()
        invariant
            i <= ds.len(),
            out@ == errors_text(dsv.take(i as int)),
        decreases ds.len() - i,
    {
        proof {
            lemma_errors_text_take_snoc(dsv, i as int);
            assert(dsv[i as int] == ds[i as int].deep_view());
        }
        let ghost pre = out@;
        out.append("compile_error!(\"");
        out.append(ds[i].field.as_str());
        out.append(": ");
        out.append(ds[i].message.as_str());
        out.append("\");\n");
        proof {
            assert(out@ =~= pre + error_line(dsv[i as int]));
        }
        i += 1;
    }
    proof {
        assert(dsv.take(ds.len() as int) =~= dsv);
    }
    out
}

} // verus!
