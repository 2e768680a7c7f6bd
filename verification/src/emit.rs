//! Emission of the builder code for a schema without generic parameters.
//!
//! Four artifacts are produced as source text: the builder type (one
//! optional slot per field), the entry constructor `builder()` whose slots
//! are pre-populated from the fields' default expressions, one fluent setter
//! `with_<field>` per unskipped field, and the finalizer `build()`. A field
//! whose type is itself optional and that carries no default collapses to
//! the absent value when it was never set; every other field without a
//! default makes `build()` fail, naming the field. A skipped field without a
//! default turns into a generation-time failure emitted in place of its
//! setter.

use vstd::prelude::*;
use crate::builder::{field_wf, Builder, BuilderField, BuilderV, FieldSpecV};
use crate::directive::msg_skip_needs_default;
use crate::state::missing_plain_msg;
use crate::text::{is_option_ty, is_option_type};
use vstd::string::StringExecFns;

verus! {

/// One slot declaration of the builder type.
pub open spec fn slot_line(f: FieldSpecV) -> Seq<char> {
    "    "@ + f.name + ": Option<"@ + f.ty + ">,\n"@
}

/// The slot declarations of all fields, in order.
pub open spec fn slot_lines(fs: Seq<FieldSpecV>) -> Seq<char>
    decreases fs.len(),
{
    if fs.len() == 0 {
        Seq::empty()
    } else {
        slot_lines(fs.drop_last()) + slot_line(fs.last())
    }
}

/// The builder type declaration.
pub open spec fn struct_text(name: Seq<char>, fs: Seq<FieldSpecV>) -> Seq<char> {
    "pub struct "@ + name + "Builder {\n"@ + slot_lines(fs) + "}\n"@
}

/// A slot's initializer: the converted default expression where one exists,
/// else the empty slot.
pub open spec fn default_text(f: FieldSpecV) -> Seq<char> {
    match f.default {
        Some(e) => "Some("@ + e + ".into())"@,
        None => "None"@,
    }
}

/// One slot initializer line of the entry constructor.
pub open spec fn init_line(f: FieldSpecV) -> Seq<char> {
    "            "@ + f.name + ": "@ + default_text(f) + ",\n"@
}

/// The slot initializers of all fields, in order.
pub open spec fn init_lines(fs: Seq<FieldSpecV>) -> Seq<char>
    decreases fs.len(),
{
    if fs.len() == 0 {
        Seq::empty()
    } else {
        init_lines(fs.drop_last()) + init_line(fs.last())
    }
}

/// The entry constructor: `builder()` on the source type, returning a
/// builder whose slots are pre-populated according to the default policy.
pub open spec fn new_method_text(name: Seq<char>, fs: Seq<FieldSpecV>) -> Seq<char> {
    "impl "@ + name + " {\n    pub fn builder() -> "@ + name + "Builder {\n        "@ + name
        + "Builder {\n"@ + init_lines(fs) + "        }\n    }\n}\n"@
}

/// What a field contributes to the setter section: a fluent `with_<field>`
/// setter for an unskipped field, nothing for a skipped field with a
/// default, and a generation-time failure for a skipped field without one.
pub open spec fn setter_text(f: FieldSpecV) -> Seq<char> {
    if f.skip {
        if f.default is None {
            "compile_error!(\""@ + msg_skip_needs_default() + "\");\n"@
        } else {
            Seq::empty()
        }
    } else {
        "    pub fn with_"@ + f.name + "<I: Into<"@ + f.ty + ">>(mut self, "@ + f.name
            + ": I) -> Self {\n        self."@ + f.name + " = Some("@ + f.name
            + ".into());\n        self\n    }\n"@
    }
}

/// The setter section of all fields, in order.
pub open spec fn setters_text(fs: Seq<FieldSpecV>) -> Seq<char>
    decreases fs.len(),
{
    if fs.len() == 0 {
        Seq::empty()
    } else {
        setters_text(fs.drop_last()) + setter_text(fs.last())
    }
}

/// One extraction line of the finalizer: a defaulted slot is unconditionally
/// populated, an optional-typed slot without a default collapses to the
/// absent value, and any other slot fails when empty, naming the field.
pub open spec fn build_line(f: FieldSpecV) -> Seq<char> {
    if f.default is Some {
        "            "@ + f.name + ": self."@ + f.name + ".unwrap(),\n"@
    } else if is_option_ty(f.ty) {
        "            "@ + f.name + ": self."@ + f.name + ".unwrap_or(None),\n"@
    } else {
        "            "@ + f.name + ": self."@ + f.name + ".ok_or_else(|| \""@ + missing_plain_msg(
            f.name,
        ) + "\".to_string())?,\n"@
    }
}

/// The extraction lines of all fields, in order.
pub open spec fn build_lines(fs: Seq<FieldSpecV>) -> Seq<char>
    decreases fs.len(),
{
    if fs.len() == 0 {
        Seq::empty()
    } else {
        build_lines(fs.drop_last()) + build_line(fs.last())
    }
}

/// The finalizer: `build()` consuming the builder by value.
pub open spec fn build_method_text(name: Seq<char>, fs: Seq<FieldSpecV>) -> Seq<char> {
    "    pub fn build(self) -> Result<"@ + name + ", String> {\n        Ok("@ + name + " {\n"@
        + build_lines(fs) + "        })\n    }\n"@
}

/// The builder's inherent implementation: the setters, then the finalizer.
pub open spec fn impl_text(name: Seq<char>, fs: Seq<FieldSpecV>) -> Seq<char> {
    "impl "@ + name + "Builder {\n"@ + setters_text(fs) + build_method_text(name, fs) + "}\n"@
}

/// The whole emitted artifact: builder type, entry constructor, setters and
/// finalizer.
pub open spec fn generate_text(b: BuilderV) -> Seq<char> {
    struct_text(b.name, b.fields) + new_method_text(b.name, b.fields) + impl_text(b.name, b.fields)
}

/// Extending a field-list prefix by one field appends that field's lines to
/// each emitted section.
pub proof fn lemma_lines_take_snoc(fs: Seq<FieldSpecV>, i: int)
    requires
        0 <= i < fs.len(),
    ensures
        slot_lines(fs.take(i + 1)) == slot_lines(fs.take(i)) + slot_line(fs[i]),
        init_lines(fs.take(i + 1)) == init_lines(fs.take(i)) + init_line(fs[i]),
        setters_text(fs.take(i + 1)) == setters_text(fs.take(i)) + setter_text(fs[i]),
        build_lines(fs.take(i + 1)) == build_lines(fs.take(i)) + build_line(fs[i]),
{
    assert(fs.take(i + 1).drop_last() =~= fs.take(i));
    assert(fs.take(i + 1).last() == fs[i]);
}

/// The subsequence of the fields that are not skipped, in order.
pub open spec fn unskipped(fs: Seq<FieldSpecV>) -> Seq<FieldSpecV>
    decreases fs.len(),
{
    if fs.len() == 0 {
        fs
    } else if fs.last().skip {
        unskipped(fs.drop_last())
    } else {
        unskipped(fs.drop_last()).push(fs.last())
    }
}

/// No setter exists for a skipped field: on a well-formed field list the
/// emitted setter section is exactly the one of the unskipped fields alone.
pub proof fn law_no_setter_for_skipped(fs: Seq<FieldSpecV>)
    requires
        forall|i: int| 0 <= i < fs.len() ==> field_wf(#[trigger] fs[i]),
    ensures
        setters_text(fs) == setters_text(unskipped(fs)),
    decreases fs.len(),
{
    if fs.len() > 0 {
        assert(forall|i: int|
            0 <= i < fs.drop_last().len() ==> field_wf(#[trigger] fs.drop_last()[i]));
        law_no_setter_for_skipped(fs.drop_last());
        if fs.last().skip {
            assert(field_wf(fs[fs.len() - 1]));
            assert(setter_text(fs.last()) == Seq::<char>::empty());
            assert(setters_text(fs) =~= setters_text(fs.drop_last()));
        } else {
            let q = unskipped(fs.drop_last());
            assert(q.push(fs.last()).drop_last() =~= q);
            assert(q.push(fs.last()).last() == fs.last());
        }
    }
}

/// Appends one field's slot declaration.
pub(crate) fn push_slot_line(out: &mut String, f: &BuilderField)
    ensures
        final(out)@ == old(out)@ + slot_line(f@),
{
    out.append("    ");
    out.append(f.name.as_str());
    out.append(": Option<");
    out.append(f.ty.as_str());
    out.append(">,\n");
    proof {
        assert(final(out)@ =~= old(out)@ + slot_line(f@));
    }
}

/// Appends one field's slot initializer line.
pub(crate) fn push_init_line(out: &mut String, f: &BuilderField)
    ensures
        final(out)@ == old(out)@ + init_line(f@),
{
    out.append("            ");
    out.append(f.name.as_str());
    out.append(": ");
    match &f.default {
        Some(e) => {
            out.append("Some(");
            out.append(e.as_str());
            out.append(".into())");
        },
        None => {
            out.append("None");
        },
    }
    out.append(",\n");
    proof {
        assert(final(out)@ =~= old(out)@ + init_line(f@));
    }
}

/// Appends one field's extraction line of the finalizer.
fn push_build_line(out: &mut String, f: &BuilderField)
    ensures
        final(out)@ == old(out)@ + build_line(f@),
{
    out.append("            ");
    out.append(f.name.as_str());
    out.append(": self.");
    out.append(f.name.as_str());
    if f.default.is_some() {
        out.append(".unwrap(),\n");
    } else if is_option_type(f.ty.as_str()) {
        out.append(".unwrap_or(None),\n");
    } else {
        out.append(".ok_or_else(|| \"");
        out.append(f.name.as_str());
        out.append(" is not set.");
        out.append("\".to_string())?,\n");
    }
    proof {
        assert(final(out)@ =~= old(out)@ + build_line(f@));
    }
}

/// Builds what one field contributes to the setter section.
pub(crate) fn field_setter(field: &BuilderField) -> (r: String)
    ensures
        r@ == setter_text(field@),
{
    let mut out = String::new();
    if field.skip {
        if field.default.is_none() {
            out.append("compile_error!(\"");
            out.append("cannot skip a field without a default value");
            out.append("\");\n");
        }
        proof {
            assert(out@ =~= setter_text(field@));
        }
        return out;
    }
    out.append("    pub fn with_");
    out.append(field.name.as_str());
    out.append("<I: Into<");
    out.append(field.ty.as_str());
    out.append(">>(mut self, ");
    out.append(field.name.as_str());
    out.append(": I) -> Self {\n        self.");
    out.append(field.name.as_str());
    out.append(" = Some(");
    out.append(field.name.as_str());
    out.append(".into());\n        self\n    }\n");
    proof {
        assert(out@ =~= setter_text(field@));
    }
    out
}

impl Builder {
    /// Generates the builder type declaration.
    #[verifier::loop_isolation(false)]
    fn generate_struct(&self) -> (r: String)
        ensures
            r@ == struct_text(self@.name, self@.fields),
    {
        let ghost fsv = self@.fields;
        let mut out = String::new();
        out.append("pub struct ");
        out.append(self.name.as_str());
        out.append("Builder {\n");
        let ghost head = out@;
        let mut i: usize = 0;
        while i < self.fields.len()
            invariant
                i <= self.fields.len(),
                out@ == head + slot_lines(fsv.take(i as int)),
            decreases self.fields.len() - i,
        {
            proof {
                lemma_lines_take_snoc(fsv, i as int);
                assert(fsv[i as int] == self.fields[i as int].deep_view());
            }
            push_slot_line(&mut out, &self.fields[i]);
            i += 1;
        }
        out.append("}\n");
        proof {
            assert(fsv.take(self.fields.len() as int) =~= fsv);
            assert(out@ =~= struct_text(self@.name, self@.fields));
        }
        out
    }

    /// Generates the entry constructor, whose slots are pre-populated from
    /// the fields' default expressions.
    #[verifier::loop_isolation(false)]
    fn generate_new_method(&self) -> (r: String)
        ensures
            r@ == new_method_text(self@.name, self@.fields),
    {
        let ghost fsv = self@.fields;
        let mut out = String::new();
        out.append("impl ");
        out.append(self.name.as_str());
        out.append(" {\n    pub fn builder() -> ");
        out.append(self.name.as_str());
        out.append("Builder {\n        ");
        out.append(self.name.as_str());
        out.append("Builder {\n");
        let ghost head = out@;
        let mut i: usize = 0;
        while i < self.fields.len()
            invariant
                i <= self.fields.len(),
                out@ == head + init_lines(fsv.take(i as int)),
            decreases self.fields.len() - i,
        {
            proof {
                lemma_lines_take_snoc(fsv, i as int);
                assert(fsv[i as int] == self.fields[i as int].deep_view());
            }
            let ghost pre = out@;
            out.append("            ");
            out.append(self.fields[i].name.as_str());
            out.append(": ");
            let d = self.generate_field_default(&self.fields[i]);
            out.append(d.as_str());
            out.append(",\n");
            proof {
                assert(out@ =~= pre + init_line(fsv[i as int]));
            }
            i += 1;
        }
        out.append("        }\n    }\n}\n");
        proof {
            assert(fsv.take(self.fields.len() as int) =~= fsv);
            assert(out@ =~= new_method_text(self@.name, self@.fields));
        }
        out
    }

    /// Generates a builder method for a field: the fluent setter, or nothing
    /// for a skipped field, or the generation-time failure for a skipped
    /// field without a default.
    fn generate_field_method(&self, field: &BuilderField) -> (r: String)
        ensures
            r@ == setter_text(field@),
    {
        field_setter(field)
    }

    /// Generates a field's slot initializer: the converted default
    /// expression where one exists, else the empty slot.
    fn generate_field_default(&self, field: &BuilderField) -> (r: String)
        ensures
            r@ == default_text(field@),
    {
        let mut out = String::new();
        match &field.default {
            Some(e) => {
                out.append("Some(");
                out.append(e.as_str());
                out.append(".into())");
            },
            None => {
                out.append("None");
            },
        }
        proof {
            assert(out@ =~= default_text(field@));
        }
        out
    }

    /// Generates the finalizer.
    #[verifier::loop_isolation(false)]
    fn generate_build_method(&self) -> (r: String)
        ensures
            r@ == build_method_text(self@.name, self@.fields),
    {
        let ghost fsv = self@.fields;
        let mut out = String::new();
        out.append("    pub fn build(self) -> Result<");
        out.append(self.name.as_str());
        out.append(", String> {\n        Ok(");
        out.append(self.name.as_str());
        out.append(" {\n");
        let ghost head = out@;
        let mut i: usize = 0;
        while i < self.fields.len()
            invariant
                i <= self.fields.len(),
                out@ == head + build_lines(fsv.take(i as int)),
            decreases self.fields.len() - i,
        {
            proof {
                lemma_lines_take_snoc(fsv, i as int);
                assert(fsv[i as int] == self.fields[i as int].deep_view());
            }
            push_build_line(&mut out, &self.fields[i]);
            i += 1;
        }
        out.append("        })\n    }\n");
        proof {
            assert(fsv.take(self.fields.len() as int) =~= fsv);
            assert(out@ =~= build_method_text(self@.name, self@.fields));
        }
        out
    }

    /// Generates the builder's implementation: the setters, then the
    /// finalizer.
    #[verifier::loop_isolation(false)]
    fn generate_impl(&self) -> (r: String)
        ensures
            r@ == impl_text(self@.name, self@.fields),
    {
        let ghost fsv = self@.fields;
        let mut out = String::new();
        out.append("impl ");
        out.append(self.name.as_str());
        out.append("Builder {\n");
        let ghost head = out@;
        let mut i: usize = 0;
        while i < self.fields.len()
            invariant
                i <= self.fields.len(),
                out@ == head + setters_text(fsv.take(i as int)),
            decreases self.fields.len() - i,
        {
            proof {
                lemma_lines_take_snoc(fsv, i as int);
                assert(fsv[i as int] == self.fields[i as int].deep_view());
            }
            let m = self.generate_field_method(&self.fields[i]);
            out.append(m.as_str());
            i += 1;
        }
        let b = self.generate_build_method();
        out.append(b.as_str());
        out.append("}\n");
        proof {
            assert(fsv.take(self.fields.len() as int) =~= fsv);
            assert(out@ =~= impl_text(self@.name, self@.fields));
        }
        out
    }

    /// Generates the builder code: the builder type, the entry constructor
    /// and the builder's implementation, in that order.
    pub fn generate(self) -> (r: String)
        ensures
            r@ == generate_text(self@),
    {
        let mut out = self.generate_struct();
        let c = self.generate_new_method();
        out.append(c.as_str());
        let im = self.generate_impl();
        out.append(im.as_str());
        proof {
            assert(out@ =~= generate_text(self@));
        }
        out
    }
}

} // verus!
