//! A verified model of the builder instances that the emitted code creates.
//!
//! The emitted builder keeps one optional slot per field. A slot starts
//! populated exactly when the field carries a default expression or when its
//! declared type is itself optional (such a field collapses to the absent
//! value when it is never touched); the construction-time caller evaluates
//! the default expressions anew on every entry and hands the results over,
//! which keeps an effectful default (a fresh id, say) observable. Setting a
//! field overwrites its slot unconditionally. Finalization consumes the
//! builder and either returns every field's value in field order or fails on
//! the first unpopulated slot, naming that field.

use vstd::prelude::*;
use crate::builder::{fields_wf, BuilderField, FieldSpecV};
use crate::text::{is_option_ty, str_eq};
use vstd::string::StringExecFns;

verus! {

/// How a finalizer words the failure for an unset required field. The two
/// emitters of this crate phrase it differently; the model mirrors whichever
/// emitter the builder under study came from.
#[derive(Clone, Copy, Debug)]
pub enum MissingStyle {
    /// `<field> is not set.`
    Plain,
    /// `Field '<field>' is required.`
    Labeled,
}

/// The failure message of the plain wording.
pub open spec fn missing_plain_msg(name: Seq<char>) -> Seq<char> {
    name + " is not set."@
}

/// The failure message of the labeled wording.
pub open spec fn missing_labeled_msg(name: Seq<char>) -> Seq<char> {
    "Field '"@ + name + "' is required."@
}

/// The failure message for an unset required field, in the given wording.
pub open spec fn missing_message(style: MissingStyle, name: Seq<char>) -> Seq<char> {
    match style {
        MissingStyle::Plain => missing_plain_msg(name),
        MissingStyle::Labeled => missing_labeled_msg(name),
    }
}

/// Builds the plain failure message.
pub fn plain_missing_message(name: &str) -> (r: String)
    ensures
        r@ == missing_plain_msg(name@),
{
    let mut m = name.to_owned();
    m.append(" is not set.");
    m
}

/// Builds the labeled failure message.
pub fn labeled_missing_message(name: &str) -> (r: String)
    ensures
        r@ == missing_labeled_msg(name@),
{
    let mut m = String::new();
    m.append("Field '");
    m.append(name);
    m.append("' is required.");
    m
}

/// A field's slot starts populated: either the field carries a default
/// expression, or its declared type is optional and the absent value stands
/// in for one.
pub open spec fn has_initial(f: FieldSpecV) -> bool {
    f.default is Some || is_option_ty(f.ty)
}

/// The construction-time evaluation results line up with the fields: one
/// entry per field, populated exactly where the field starts populated.
pub open spec fn defaults_match<V>(fs: Seq<FieldSpecV>, ds: Seq<Option<V>>) -> bool {
    &&& ds.len() == fs.len()
    &&& forall|i: int| 0 <= i < fs.len() ==> ((#[trigger] ds[i]) is Some <==> has_initial(fs[i]))
}

/// Mathematical model of a builder instance.
pub ghost struct BuilderStateV<V> {
    pub fields: Seq<FieldSpecV>,
    pub slots: Seq<Option<V>>,
    pub style: MissingStyle,
}

/// The invariant of a builder instance: one slot per field, a well-formed
/// field list, and every slot that starts populated stays populated.
pub open spec fn state_wf<V>(s: BuilderStateV<V>) -> bool {
    &&& s.slots.len() == s.fields.len()
    &&& fields_wf(s.fields)
    &&& forall|i: int|
        0 <= i < s.fields.len() && has_initial(#[trigger] s.fields[i]) ==> s.slots[i] is Some
}

/// The index of the first field with the given name, or the field count when
/// no field has it.
pub open spec fn field_index(fs: Seq<FieldSpecV>, name: Seq<char>) -> int
    decreases fs.len(),
{
    if fs.len() == 0 {
        0
    } else if fs[0].name == name {
        0
    } else {
        1 + field_index(fs.drop_first(), name)
    }
}

/// `field_index` returns the position of the first match.
pub proof fn lemma_field_index_first(fs: Seq<FieldSpecV>, name: Seq<char>, i: int)
    requires
        0 <= i < fs.len(),
        fs[i].name == name,
        forall|j: int| 0 <= j < i ==> fs[j].name != name,
    ensures
        field_index(fs, name) == i,
    decreases fs.len(),
{
    if i > 0 {
        lemma_field_index_first(fs.drop_first(), name, i - 1);
    }
}

/// When some field bears the name, `field_index` lands on a field bearing it.
pub proof fn lemma_field_index_hits(fs: Seq<FieldSpecV>, name: Seq<char>)
    requires
        exists|i: int| 0 <= i < fs.len() && (#[trigger] fs[i]).name == name,
    ensures
        0 <= field_index(fs, name) < fs.len(),
        fs[field_index(fs, name)].name == name,
        forall|j: int| 0 <= j < field_index(fs, name) ==> (#[trigger] fs[j]).name != name,
    decreases fs.len(),
{
    if fs.len() > 0 && fs[0].name != name {
        let w = choose|i: int| 0 <= i < fs.len() && (#[trigger] fs[i]).name == name;
        assert(fs.drop_first()[w - 1].name == name);
        lemma_field_index_hits(fs.drop_first(), name);
        assert forall|j: int| 0 <= j < field_index(fs, name) implies (#[trigger] fs[j]).name
            != name by {
            if j > 0 {
                assert(fs.drop_first()[j - 1] == fs[j]);
            }
        }
    }
}

/// The index of the first unpopulated slot, or the slot count when all are
/// populated.
pub open spec fn first_unset<V>(slots: Seq<Option<V>>) -> int
    decreases slots.len(),
{
    if slots.len() == 0 {
        0
    } else if slots[0] is None {
        0
    } else {
        1 + first_unset(slots.drop_first())
    }
}

/// `first_unset` returns the position of the first unpopulated slot.
pub proof fn lemma_first_unset_at<V>(slots: Seq<Option<V>>, i: int)
    requires
        0 <= i <= slots.len(),
        forall|j: int| 0 <= j < i ==> (#[trigger] slots[j]) is Some,
        i < slots.len() ==> slots[i] is None,
    ensures
        first_unset(slots) == i,
    decreases slots.len(),
{
    if i > 0 {
        lemma_first_unset_at(slots.drop_first(), i - 1);
    }
}

/// What finalization returns: every slot's value in field order when all
/// slots are populated, else the failure naming the first unpopulated field.
pub open spec fn build_spec<V>(
    fields: Seq<FieldSpecV>,
    slots: Seq<Option<V>>,
    style: MissingStyle,
) -> Result<Seq<V>, Seq<char>> {
    let m = first_unset(slots);
    if m == slots.len() {
        Ok(Seq::new(slots.len(), |i: int| slots[i]->Some_0))
    } else {
        Err(missing_message(style, fields[m].name))
    }
}

/// A builder instance, as the emitted code would hold one: the schema's
/// fields, one optional slot per field, and the finalizer's wording.
pub struct BuilderState<V> {
    fields: Vec<BuilderField>,
    slots: Vec<Option<V>>,
    style: MissingStyle,
}

impl<V> View for BuilderState<V> {
    type V = BuilderStateV<V>;

    closed spec fn view(&self) -> BuilderStateV<V> {
        BuilderStateV { fields: self.fields.deep_view(), slots: self.slots@, style: self.style }
    }
}

impl<V> BuilderState<V> {
    /// The instance invariant, stated over the model.
    pub open spec fn wf(self) -> bool {
        state_wf(self@)
    }

    /// Enters a fresh builder: one slot per field, populated exactly with the
    /// construction-time evaluation results. The caller evaluates the default
    /// expressions anew for each entry, so an effectful default yields a
    /// fresh value every time.
    pub fn new(fields: Vec<BuilderField>, defaults: Vec<Option<V>>, style: MissingStyle) -> (b:
        Self)
        requires
            fields_wf(fields.deep_view()),
            defaults_match(fields.deep_view(), defaults@),
        ensures
            b@ == (BuilderStateV { fields: fields.deep_view(), slots: defaults@, style }),
            b.wf(),
    {
        BuilderState { fields, slots: defaults, style }
    }

    /// Sets a field's value, overwriting whatever the slot held, the
    /// pre-populated default included. Mirrors the emitted `with_<field>`
    /// setter, which exists exactly for the fields that are not skipped.
    #[verifier::loop_isolation(false)]
    pub fn set(self, name: &str, value: V) -> (b: Self)
        requires
            self.wf(),
            exists|i: int|
                0 <= i < self@.fields.len() && (#[trigger] self@.fields[i]).name == name@
                    && !self@.fields[i].skip,
        ensures
            b@.fields == self@.fields,
            b@.style == self@.style,
            b@.slots == self@.slots.update(field_index(self@.fields, name@), Some(value)),
            b.wf(),
    {
        proof {
            lemma_field_index_hits(self@.fields, name@);
        }
        let ghost selfv = self@;
        let BuilderState { fields, mut slots, style } = self;
        let ghost fsv = selfv.fields;
        let mut i: usize = 0;
        while i < fields.len()
            invariant
                fsv == fields.deep_view(),
                slots@ == selfv.slots,
                style == selfv.style,
                state_wf(selfv),
                fsv.len() == fields.len(),
                i <= fields.len(),
                forall|j: int| 0 <= j < i ==> (#[trigger] fsv[j]).name != name@,
            decreases fields.len() - i,
        {
            proof {
                assert(fsv[i as int] == fields[i as int].deep_view());
                assert(slots@.len() == fsv.len());
            }
            if str_eq(fields[i].name.as_str(), name) {
                proof {
                    lemma_field_index_first(fsv, name@, i as int);
                }
                slots.set(i, Some(value));
                let b = BuilderState { fields, slots, style };
                proof {
                    assert(b@.slots =~= selfv.slots.update(field_index(fsv, name@), Some(value)));
                    assert forall|t: int|
                        0 <= t < b@.fields.len() && has_initial(
                            #[trigger] b@.fields[t],
                        ) implies b@.slots[t] is Some by {
                        if t != i {
                            assert(b@.slots[t] == selfv.slots[t]);
                        }
                    }
                }
                return b;
            }
            i += 1;
        }
        proof {
            let w = choose|t: int|
                0 <= t < selfv.fields.len() && (#[trigger] selfv.fields[t]).name == name@
                    && !selfv.fields[t].skip;
            assert(false);
        }
        BuilderState { fields, slots, style }
    }

    /// Finalizes the builder, consuming it: returns every field's value in
    /// field order, or the failure naming the first field whose slot is
    /// unpopulated.
    #[verifier::loop_isolation(false)]
    pub fn build(self) -> (r: Result<Vec<V>, String>)
        requires
            self.wf(),
        ensures
            ({
                let bs = build_spec(self@.fields, self@.slots, self@.style);
                match r {
                    Ok(vs) => bs is Ok && vs@ == bs->Ok_0,
                    Err(m) => bs is Err && m@ == bs->Err_0,
                }
            }),
    {
        let BuilderState { fields, mut slots, style } = self;
        let ghost slots0 = slots@;
        let ghost fsv = fields.deep_view();
        let n = slots.len();
        let mut i: usize = 0;
        while i < n
            invariant
                n == slots0.len(),
                slots@ == slots0,
                fsv == fields.deep_view(),
                fsv.len() == slots0.len(),
                i <= n,
                forall|j: int| 0 <= j < i ==> (#[trigger] slots0[j]) is Some,
            decreases n - i,
        {
            if slots[i].is_none() {
                proof {
                    lemma_first_unset_at(slots0, i as int);
                    assert(fsv[i as int] == fields[i as int].deep_view());
                }
                let msg = match style {
                    MissingStyle::Plain => plain_missing_message(fields[i].name.as_str()),
                    MissingStyle::Labeled => labeled_missing_message(fields[i].name.as_str()),
                };
                return Err(msg);
            }
            i += 1;
        }
        proof {
            lemma_first_unset_at(slots0, n as int);
        }
        let mut out: Vec<V> = Vec::new();
        let mut k: usize = 0;
        while k < n
            invariant
                n == slots0.len(),
                k <= n,
                slots@ =~= slots0.skip(k as int),
                forall|j: int| 0 <= j < slots0.len() ==> (#[trigger] slots0[j]) is Some,
                out@.len() == k,
                forall|t: int| 0 <= t < k ==> #[trigger] out@[t] == slots0[t]->Some_0,
            decreases n - k,
        {
            match slots.remove(0) {
                Some(v) => {
                    out.push(v);
                },
                None => {
                    proof {
                        assert(slots0.skip(k as int)[0] == slots0[k as int]);
                        assert(false);
                    }
                },
            }
            proof {
                assert(slots@ =~= slots0.skip(k + 1));
            }
            k += 1;
        }
        proof {
            assert(out@ =~= Seq::new(slots0.len(), |i: int| slots0[i]->Some_0));
        }
        Ok(out)
    }
}

} // verus!
