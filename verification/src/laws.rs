//! The general guarantees of the builder model, stated over arbitrary
//! schemas, initial slot populations and setter-call sequences, and proved
//! once and for all.

use vstd::prelude::*;
use crate::builder::{fields_wf, FieldSpecV};
use crate::state::{
    build_spec, defaults_match, field_index, has_initial, lemma_field_index_first,
    lemma_field_index_hits, lemma_first_unset_at, missing_message, MissingStyle,
};

verus! {

/// One recorded setter call: the field named and the value stored.
pub ghost struct SetOp<V> {
    pub name: Seq<char>,
    pub value: V,
}

/// A setter call is possible when a field of that name exists and is not
/// skipped: those are exactly the setters the emitters generate.
pub open spec fn valid_op<V>(fs: Seq<FieldSpecV>, op: SetOp<V>) -> bool {
    exists|i: int| 0 <= i < fs.len() && (#[trigger] fs[i]).name == op.name && !fs[i].skip
}

/// Every call of the sequence is possible.
pub open spec fn valid_ops<V>(fs: Seq<FieldSpecV>, ops: Seq<SetOp<V>>) -> bool {
    forall|l: int| 0 <= l < ops.len() ==> valid_op(fs, #[trigger] ops[l])
}

/// The slots after a sequence of setter calls has run, in order.
pub open spec fn apply_ops<V>(
    fs: Seq<FieldSpecV>,
    slots: Seq<Option<V>>,
    ops: Seq<SetOp<V>>,
) -> Seq<Option<V>>
    decreases ops.len(),
{
    if ops.len() == 0 {
        slots
    } else {
        apply_ops(fs, slots, ops.drop_last()).update(
            field_index(fs, ops.last().name),
            Some(ops.last().value),
        )
    }
}

/// Running setter calls never changes the slot count.
pub proof fn lemma_apply_ops_len<V>(fs: Seq<FieldSpecV>, slots: Seq<Option<V>>, ops: Seq<SetOp<V>>)
    requires
        valid_ops(fs, ops),
        slots.len() == fs.len(),
    ensures
        apply_ops(fs, slots, ops).len() == slots.len(),
    decreases ops.len(),
{
    if ops.len() > 0 {
        lemma_apply_ops_len(fs, slots, ops.drop_last());
        lemma_field_index_hits(fs, ops.last().name);
    }
}

/// With unique field names, a possible setter call lands on the one
/// unskipped field bearing its name.
pub proof fn lemma_valid_op_index<V>(fs: Seq<FieldSpecV>, op: SetOp<V>)
    requires
        fields_wf(fs),
        valid_op(fs, op),
    ensures
        0 <= field_index(fs, op.name) < fs.len(),
        fs[field_index(fs, op.name)].name == op.name,
        !fs[field_index(fs, op.name)].skip,
{
    lemma_field_index_hits(fs, op.name);
    let w = choose|i: int| 0 <= i < fs.len() && (#[trigger] fs[i]).name == op.name && !fs[i].skip;
    let idx = field_index(fs, op.name);
    if w != idx {
        assert(fs[w].name == fs[idx].name);
        assert(false);
    }
}

/// A slot whose field no call names keeps its value.
pub proof fn lemma_apply_ops_untouched<V>(
    fs: Seq<FieldSpecV>,
    slots: Seq<Option<V>>,
    ops: Seq<SetOp<V>>,
    k: int,
)
    requires
        fields_wf(fs),
        valid_ops(fs, ops),
        slots.len() == fs.len(),
        0 <= k < fs.len(),
        forall|l: int| 0 <= l < ops.len() ==> (#[trigger] ops[l]).name != fs[k].name,
    ensures
        apply_ops(fs, slots, ops)[k] == slots[k],
    decreases ops.len(),
{
    if ops.len() > 0 {
        lemma_apply_ops_untouched(fs, slots, ops.drop_last(), k);
        lemma_valid_op_index(fs, ops.last());
        lemma_apply_ops_len(fs, slots, ops.drop_last());
    }
}

/// A populated slot stays populated, whatever calls run.
pub proof fn lemma_apply_ops_some_stays<V>(
    fs: Seq<FieldSpecV>,
    slots: Seq<Option<V>>,
    ops: Seq<SetOp<V>>,
    k: int,
)
    requires
        fields_wf(fs),
        valid_ops(fs, ops),
        slots.len() == fs.len(),
        0 <= k < fs.len(),
        slots[k] is Some,
    ensures
        apply_ops(fs, slots, ops)[k] is Some,
    decreases ops.len(),
{
    if ops.len() > 0 {
        lemma_apply_ops_some_stays(fs, slots, ops.drop_last(), k);
        lemma_valid_op_index(fs, ops.last());
        lemma_apply_ops_len(fs, slots, ops.drop_last());
    }
}

/// A slot whose field some call names ends populated.
pub proof fn lemma_apply_ops_named_some<V>(
    fs: Seq<FieldSpecV>,
    slots: Seq<Option<V>>,
    ops: Seq<SetOp<V>>,
    k: int,
)
    requires
        fields_wf(fs),
        valid_ops(fs, ops),
        slots.len() == fs.len(),
        0 <= k < fs.len(),
        exists|l: int| 0 <= l < ops.len() && (#[trigger] ops[l]).name == fs[k].name,
    ensures
        apply_ops(fs, slots, ops)[k] is Some,
    decreases ops.len(),
{
    lemma_valid_op_index(fs, ops.last());
    lemma_apply_ops_len(fs, slots, ops.drop_last());
    if ops.last().name == fs[k].name {
        assert(forall|j: int| 0 <= j < k ==> (#[trigger] fs[j]).name != fs[k].name);
        lemma_field_index_first(fs, fs[k].name, k);
    } else {
        let l = choose|l: int| 0 <= l < ops.len() && (#[trigger] ops[l]).name == fs[k].name;
        assert(ops.drop_last()[l] == ops[l]);
        lemma_apply_ops_named_some(fs, slots, ops.drop_last(), k);
    }
}

/// The last call naming a field decides that field's slot.
pub proof fn lemma_apply_ops_last_write<V>(
    fs: Seq<FieldSpecV>,
    slots: Seq<Option<V>>,
    ops: Seq<SetOp<V>>,
    l0: int,
)
    requires
        fields_wf(fs),
        valid_ops(fs, ops),
        slots.len() == fs.len(),
        0 <= l0 < ops.len(),
        forall|l: int| l0 < l < ops.len() ==> (#[trigger] ops[l]).name != ops[l0].name,
    ensures
        apply_ops(fs, slots, ops)[field_index(fs, ops[l0].name)] == Some(ops[l0].value),
    decreases ops.len(),
{
    lemma_valid_op_index(fs, ops[l0]);
    lemma_valid_op_index(fs, ops.last());
    lemma_apply_ops_len(fs, slots, ops.drop_last());
    if l0 == ops.len() - 1 {
    } else {
        assert(field_index(fs, ops.last().name) != field_index(fs, ops[l0].name)) by {
            if field_index(fs, ops.last().name) == field_index(fs, ops[l0].name) {
                assert(ops.last().name == ops[l0].name);
            }
        }
        assert(forall|l: int|
            l0 < l < ops.drop_last().len() ==> (#[trigger] ops.drop_last()[l]).name
                != ops.drop_last()[l0].name);
        lemma_apply_ops_last_write(fs, slots, ops.drop_last(), l0);
    }
}

/// With a default on every field, finalization succeeds with no setter run
/// at all, and reproduces each field's freshly evaluated default exactly.
pub proof fn law_all_defaults_build<V>(
    fields: Seq<FieldSpecV>,
    defaults: Seq<Option<V>>,
    style: MissingStyle,
)
    requires
        defaults_match(fields, defaults),
        forall|i: int| 0 <= i < fields.len() ==> (#[trigger] fields[i]).default is Some,
    ensures
        build_spec(fields, defaults, style) is Ok,
        build_spec(fields, defaults, style)->Ok_0.len() == fields.len(),
        forall|i: int|
            0 <= i < fields.len() ==> #[trigger] build_spec(fields, defaults, style)->Ok_0[i]
                == defaults[i]->Some_0,
{
    lemma_first_unset_at(defaults, defaults.len() as int);
}

/// A skipped field's slot is beyond every setter's reach: whatever calls
/// run, a built instance carries the skipped field's default evaluation,
/// regardless of any other field's state.
pub proof fn law_skip_keeps_default<V>(
    fields: Seq<FieldSpecV>,
    defaults: Seq<Option<V>>,
    ops: Seq<SetOp<V>>,
    style: MissingStyle,
    k: int,
)
    requires
        fields_wf(fields),
        defaults_match(fields, defaults),
        valid_ops(fields, ops),
        0 <= k < fields.len(),
        fields[k].skip,
    ensures
        apply_ops(fields, defaults, ops)[k] == defaults[k],
        build_spec(fields, apply_ops(fields, defaults, ops), style) is Ok ==> build_spec(
            fields,
            apply_ops(fields, defaults, ops),
            style,
        )->Ok_0[k] == defaults[k]->Some_0,
{
    assert forall|l: int| 0 <= l < ops.len() implies (#[trigger] ops[l]).name
        != fields[k].name by {
        if ops[l].name == fields[k].name {
            let w = choose|i: int|
                0 <= i < fields.len() && (#[trigger] fields[i]).name == ops[l].name
                    && !fields[i].skip;
            assert(fields[w].name == fields[k].name);
        }
    }
    lemma_apply_ops_untouched(fields, defaults, ops, k);
    lemma_apply_ops_len(fields, defaults, ops);
}

/// A field with neither a default nor an optional type that no setter names
/// makes finalization fail, naming exactly the first such field.
pub proof fn law_missing_required<V>(
    fields: Seq<FieldSpecV>,
    defaults: Seq<Option<V>>,
    ops: Seq<SetOp<V>>,
    style: MissingStyle,
    j: int,
)
    requires
        fields_wf(fields),
        defaults_match(fields, defaults),
        valid_ops(fields, ops),
        0 <= j < fields.len(),
        !has_initial(fields[j]),
        forall|l: int| 0 <= l < ops.len() ==> (#[trigger] ops[l]).name != fields[j].name,
        forall|i: int|
            0 <= i < j ==> has_initial(#[trigger] fields[i]) || exists|l: int|
                0 <= l < ops.len() && (#[trigger] ops[l]).name == fields[i].name,
    ensures
        build_spec(fields, apply_ops(fields, defaults, ops), style) == Err::<Seq<V>, Seq<char>>(
            missing_message(style, fields[j].name),
        ),
{
    let slots = apply_ops(fields, defaults, ops);
    lemma_apply_ops_len(fields, defaults, ops);
    lemma_apply_ops_untouched(fields, defaults, ops, j);
    assert(slots[j] is None);
    assert forall|i: int| 0 <= i < j implies (#[trigger] slots[i]) is Some by {
        if has_initial(fields[i]) {
            lemma_apply_ops_some_stays(fields, defaults, ops, i);
        } else {
            lemma_apply_ops_named_some(fields, defaults, ops, i);
        }
    }
    lemma_first_unset_at(slots, j);
}

/// Setting a field always overwrites: after a call stores `v` in a field and
/// no later call names that field, a successful finalization yields `v` for
/// it — never the pre-populated default.
pub proof fn law_set_overwrites<V>(
    fields: Seq<FieldSpecV>,
    defaults: Seq<Option<V>>,
    ops: Seq<SetOp<V>>,
    style: MissingStyle,
    l0: int,
)
    requires
        fields_wf(fields),
        defaults_match(fields, defaults),
        valid_ops(fields, ops),
        0 <= l0 < ops.len(),
        forall|l: int| l0 < l < ops.len() ==> (#[trigger] ops[l]).name != ops[l0].name,
    ensures
        apply_ops(fields, defaults, ops)[field_index(fields, ops[l0].name)] == Some(
            ops[l0].value,
        ),
        build_spec(fields, apply_ops(fields, defaults, ops), style) is Ok ==> build_spec(
            fields,
            apply_ops(fields, defaults, ops),
            style,
        )->Ok_0[field_index(fields, ops[l0].name)] == ops[l0].value,
{
    lemma_apply_ops_last_write(fields, defaults, ops, l0);
    lemma_valid_op_index(fields, ops[l0]);
    lemma_apply_ops_len(fields, defaults, ops);
}

/// Finalizing a fully populated builder returns exactly the stored values,
/// in field order: the identity law for setters.
pub proof fn law_round_trip<V>(
    fields: Seq<FieldSpecV>,
    slots: Seq<Option<V>>,
    style: MissingStyle,
)
    requires
        slots.len() == fields.len(),
        forall|i: int| 0 <= i < slots.len() ==> (#[trigger] slots[i]) is Some,
    ensures
        build_spec(fields, slots, style) == Ok::<Seq<V>, Seq<char>>(
            Seq::new(slots.len(), |i: int| slots[i]->Some_0),
        ),
{
    lemma_first_unset_at(slots, slots.len() as int);
}

} // verus!
