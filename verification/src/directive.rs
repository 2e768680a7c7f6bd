//! Resolution of per-field directives into a validated field record.
//!
//! Two directive syntaxes are supported and may be mixed on one field:
//!
//! - flat style: the independent markers `builder_skip` (no argument),
//!   `builder_default = <expr>` (one expression argument) and
//!   `builder_use_default` (no argument, pre-populates the field with the
//!   host's `Default::default()` value); unrecognized flat markers are
//!   ignored, since the host owns that namespace;
//! - grouped style: one `builder(...)` container carrying the sub-options
//!   `skip` (flag) and `default = <expr>`; an unrecognized sub-option is a
//!   diagnostic, since the container's namespace belongs to this engine.
//!
//! Directives apply in source order and a later setting overwrites an earlier
//! one. Validation failures are batch-collected: every defective directive of
//! a field is reported, in source order, before the skip-without-default rule
//! is checked last.

use vstd::prelude::*;
use crate::builder::{BuilderField, FieldSpecV};
use crate::text::str_eq;
use vstd::string::StringExecFns;

verus! {

/// Mathematical model of one raw directive: a name and an optional argument.
pub ghost struct RawDirectiveV {
    pub name: Seq<char>,
    pub arg: Option<Seq<char>>,
}

/// One raw directive as handed over by the host's declaration parser.
#[derive(Debug)]
pub struct RawDirective {
    /// The directive's name.
    pub name: String,
    /// The directive's argument, where one was written.
    pub arg: Option<String>,
}

impl View for RawDirective {
    type V = RawDirectiveV;

    open spec fn view(&self) -> RawDirectiveV {
        RawDirectiveV {
            name: self.name@,
            arg: match self.arg {
                Some(a) => Some(a@),
                None => None,
            },
        }
    }
}

impl DeepView for RawDirective {
    type V = RawDirectiveV;

    open spec fn deep_view(&self) -> RawDirectiveV {
        self.view()
    }
}

impl RawDirective {
    /// A directive with no argument.
    pub fn marker(name: String) -> (r: Self)
        ensures
            r@ == (RawDirectiveV { name: name@, arg: None }),
    {
        Self { name, arg: None }
    }

    /// A directive with an argument.
    pub fn with_arg(name: String, arg: String) -> (r: Self)
        ensures
            r@ == (RawDirectiveV { name: name@, arg: Some(arg@) }),
    {
        Self { name, arg: Some(arg) }
    }
}

/// Mathematical model of one raw annotation.
pub ghost enum RawAnnotationV {
    Flat(RawDirectiveV),
    Grouped(Seq<RawDirectiveV>),
}

/// One raw annotation attached to a field: a flat marker or a grouped
/// container of sub-options.
#[derive(Debug)]
pub enum RawAnnotation {
    Flat(RawDirective),
    Grouped(Vec<RawDirective>),
}

impl View for RawAnnotation {
    type V = RawAnnotationV;

    open spec fn view(&self) -> RawAnnotationV {
        match self {
            RawAnnotation::Flat(d) => RawAnnotationV::Flat(d@),
            RawAnnotation::Grouped(ds) => RawAnnotationV::Grouped(ds.deep_view()),
        }
    }
}

impl DeepView for RawAnnotation {
    type V = RawAnnotationV;

    open spec fn deep_view(&self) -> RawAnnotationV {
        self.view()
    }
}

/// Mathematical model of one generation-time diagnostic.
pub ghost struct DiagnosticV {
    pub field: Seq<char>,
    pub message: Seq<char>,
}

/// A generation-time diagnostic, attached to the field it concerns.
#[derive(Debug)]
pub struct Diagnostic {
    /// The name of the field the diagnostic concerns.
    pub field: String,
    /// The human-readable message.
    pub message: String,
}

impl View for Diagnostic {
    type V = DiagnosticV;

    open spec fn view(&self) -> DiagnosticV {
        DiagnosticV { field: self.field@, message: self.message@ }
    }
}

impl DeepView for Diagnostic {
    type V = DiagnosticV;

    open spec fn deep_view(&self) -> DiagnosticV {
        self.view()
    }
}

/// A no-argument directive was supplied with an argument.
pub open spec fn msg_no_args() -> Seq<char> {
    "expected no arguments"@
}

/// An argument-requiring directive was supplied without one.
pub open spec fn msg_need_default() -> Seq<char> {
    "expected a default value"@
}

/// A skipped field has no other source for its value than its default.
pub open spec fn msg_skip_needs_default() -> Seq<char> {
    "cannot skip a field without a default value"@
}

/// A sub-option of the grouped container that the engine does not know.
pub open spec fn msg_unknown(name: Seq<char>) -> Seq<char> {
    "unknown directive `"@ + name + "`"@
}

/// The expression that `builder_use_default` pre-populates a field with.
pub open spec fn use_default_expr() -> Seq<char> {
    "Default::default()"@
}

/// The running state of one field's directive resolution.
pub ghost struct ResolveState {
    pub skip: bool,
    pub default: Option<Seq<char>>,
    pub errors: Seq<Seq<char>>,
}

/// The state before any directive has applied.
pub open spec fn resolve_init() -> ResolveState {
    ResolveState { skip: false, default: None, errors: Seq::empty() }
}

/// How one directive transforms the resolution state. `grouped` says which
/// namespace the directive was written in.
pub open spec fn step_dir(st: ResolveState, grouped: bool, d: RawDirectiveV) -> ResolveState {
    if grouped {
        if d.name == "skip"@ {
            if d.arg is Some {
                ResolveState { errors: st.errors.push(msg_no_args()), ..st }
            } else {
                ResolveState { skip: true, ..st }
            }
        } else if d.name == "default"@ {
            match d.arg {
                Some(e) => ResolveState { default: Some(e), ..st },
                None => ResolveState { errors: st.errors.push(msg_need_default()), ..st },
            }
        } else {
            ResolveState { errors: st.errors.push(msg_unknown(d.name)), ..st }
        }
    } else {
        if d.name == "builder_skip"@ {
            if d.arg is Some {
                ResolveState { errors: st.errors.push(msg_no_args()), ..st }
            } else {
                ResolveState { skip: true, ..st }
            }
        } else if d.name == "builder_default"@ {
            match d.arg {
                Some(e) => ResolveState { default: Some(e), ..st },
                None => ResolveState { errors: st.errors.push(msg_need_default()), ..st },
            }
        } else if d.name == "builder_use_default"@ {
            if d.arg is Some {
                ResolveState { errors: st.errors.push(msg_no_args()), ..st }
            } else {
                ResolveState { default: Some(use_default_expr()), ..st }
            }
        } else {
            st
        }
    }
}

/// Folds the sub-options of a grouped container over the state, in order.
pub open spec fn steps_dirs(st: ResolveState, ds: Seq<RawDirectiveV>) -> ResolveState
    decreases ds.len(),
{
    if ds.len() == 0 {
        st
    } else {
        step_dir(steps_dirs(st, ds.drop_last()), true, ds.last())
    }
}

/// How one annotation transforms the resolution state.
pub open spec fn step_ann(st: ResolveState, a: RawAnnotationV) -> ResolveState {
    match a {
        RawAnnotationV::Flat(d) => step_dir(st, false, d),
        RawAnnotationV::Grouped(ds) => steps_dirs(st, ds),
    }
}

/// Folds a field's annotations over the state, in order.
pub open spec fn run_anns(st: ResolveState, anns: Seq<RawAnnotationV>) -> ResolveState
    decreases anns.len(),
{
    if anns.len() == 0 {
        st
    } else {
        step_ann(run_anns(st, anns.drop_last()), anns.last())
    }
}

/// The closing rule, checked after every directive has applied: a skipped
/// field must carry a default.
pub open spec fn finish_resolve(st: ResolveState) -> ResolveState {
    if st.skip && st.default is None {
        ResolveState { errors: st.errors.push(msg_skip_needs_default()), ..st }
    } else {
        st
    }
}

/// The complete resolution of one field's annotation set.
pub open spec fn resolve_spec(anns: Seq<RawAnnotationV>) -> ResolveState {
    finish_resolve(run_anns(resolve_init(), anns))
}

/// A field that resolves without diagnostics satisfies the schema invariant:
/// a skipped field carries a default. A skipped field without one never
/// resolves silently — the closing rule reports it.
pub proof fn law_resolved_field_wf(anns: Seq<RawAnnotationV>)
    requires
        resolve_spec(anns).errors.len() == 0,
    ensures
        resolve_spec(anns).skip ==> resolve_spec(anns).default is Some,
{
    let st = run_anns(resolve_init(), anns);
    if st.skip && st.default is None {
        assert(finish_resolve(st).errors.len() > 0);
    }
}

/// Builds the message for an unknown grouped sub-option.
fn unknown_message(name: &str) -> (r: String)
    ensures
        r@ == msg_unknown(name@),
{
    let mut out = String::new();
    out.append("unknown directive `");
    out.append(name);
    out.append("`");
    proof {
        assert(out@ =~= msg_unknown(name@));
    }
    out
}

/// Resolves the raw annotation set of a single field declaration into a
/// validated field record, or into the batch of diagnostics that the set
/// provoked, each attached to the field's name.
pub fn resolve_field(name: String, ty: String, anns: &Vec<RawAnnotation>) -> (r: Result<
    BuilderField,
    Vec<Diagnostic>,
>)
    ensures
        ({
            let st = resolve_spec(anns.deep_view());
            match r {
                Ok(f) => st.errors.len() == 0 && f@ == (FieldSpecV {
                    name: name@,
                    ty: ty@,
                    default: st.default,
                    skip: st.skip,
                }),
                Err(ds) => {
                    &&& st.errors.len() > 0
                    &&& ds.deep_view().len() == st.errors.len()
                    &&& forall|i: int|
                        0 <= i < st.errors.len() ==> #[trigger] ds.deep_view()[i]
                            == (DiagnosticV { field: name@, message: st.errors[i] })
                },
            }
        }),
{
    let ghost annsv = anns.deep_view();
    let mut skip: bool = false;
    let mut default: Option<String> = None;
    let mut errors: Vec<String> = Vec::new();
    let mut i: usize = 0;
    while i < anns.len()
        invariant
            i <= anns.len(),
            annsv == anns.deep_view(),
            annsv.len() == anns.len(),
            ({
                let st = run_anns(resolve_init(), annsv.take(i as int));
                &&& skip == st.skip
                &&& (match default {
                    Some(d) => st.default == Some(d@),
                    None => st.default is None,
                })
                &&& errors.deep_view() == st.errors
            }),
        decreases anns.len() - i,
    {
        proof {
            assert(annsv.take(i + 1).drop_last() =~= annsv.take(i as int));
            assert(annsv.take(i + 1).last() == annsv[i as int]);
            assert(annsv[i as int] == anns[i as int].deep_view());
        }
        match &anns[i] {
            RawAnnotation::Flat(d) => {
                apply_directive(d, false, &mut skip, &mut default, &mut errors);
            },
            RawAnnotation::Grouped(ds) => {
                let ghost st0 = run_anns(resolve_init(), annsv.take(i as int));
                let ghost dsv = ds.deep_view();
                let mut j: usize = 0;
                while j < ds.len()
                    invariant
                        j <= ds.len(),
                        dsv == ds.deep_view(),
                        dsv.len() == ds.len(),
                        ({
                            let st = steps_dirs(st0, dsv.take(j as int));
                            &&& skip == st.skip
                            &&& (match default {
                                Some(d) => st.default == Some(d@),
                                None => st.default is None,
                            })
                            &&& errors.deep_view() == st.errors
                        }),
                    decreases ds.len() - j,
                {
                    proof {
                        assert(dsv.take(j + 1).drop_last() =~= dsv.take(j as int));
                        assert(dsv.take(j + 1).last() == dsv[j as int]);
                        assert(dsv[j as int] == ds[j as int].deep_view());
                    }
                    apply_directive(&ds[j], true, &mut skip, &mut default, &mut errors);
                    j += 1;
                }
                proof {
                    assert(dsv.take(ds.len() as int) =~= dsv);
                }
            },
        }
        i += 1;
    }
    proof {
        assert(annsv.take(anns.len() as int) =~= annsv);
    }
    if skip && default.is_none() {
        let mut m = String::new();
        m.append("cannot skip a field without a default value");
        errors.push(m);
    }
    if errors.len() == 0 {
        Ok(BuilderField { name, ty, default, skip })
    } else {
        let ghost msgs = errors.deep_view();
        let mut ds: Vec<Diagnostic> = Vec::new();
        let mut k: usize = 0;
        while k < errors.len()
            invariant
                k <= errors.len(),
                msgs == errors.deep_view(),
                msgs.len() == errors.len(),
                ds.deep_view().len() == k,
                forall|t: int|
                    0 <= t < k ==> #[trigger] ds.deep_view()[t] == (DiagnosticV {
                        field: name@,
                        message: msgs[t],
                    }),
            decreases errors.len() - k,
        {
            let msg = errors[k].clone();
            let ghost pre = ds.deep_view();
            ds.push(Diagnostic { field: name.clone(), message: msg });
            proof {
                assert(msg@ == msgs[k as int]);
                assert(ds.deep_view().len() == k + 1);
                assert(forall|t: int| 0 <= t < k ==> #[trigger] ds.deep_view()[t] == pre[t]);
                assert(ds.deep_view()[k as int] == (DiagnosticV {
                    field: name@,
                    message: msgs[k as int],
                }));
            }
            k += 1;
        }
        Err(ds)
    }
}

/// Applies one directive of either namespace to the running state.
fn apply_directive(
    d: &RawDirective,
    grouped: bool,
    skip: &mut bool,
    default: &mut Option<String>,
    errors: &mut Vec<String>,
)
    ensures
        ({
            let st0 = ResolveState {
                skip: *old(skip),
                default: match *old(default) {
                    Some(dd) => Some(dd@),
                    None => None,
                },
                errors: old(errors).deep_view(),
            };
            let st = step_dir(st0, grouped, d@);
            &&& *final(skip) == st.skip
            &&& (match *final(default) {
                Some(dd) => st.default == Some(dd@),
                None => st.default is None,
            })
            &&& final(errors).deep_view() == st.errors
        }),
{
    if grouped {
        if str_eq(d.name.as_str(), "skip") {
            match &d.arg {
                Some(_) => {
                    let mut m = String::new();
                    m.append("expected no arguments");
                    errors.push(m);
                },
                None => {
                    *skip = true;
                },
            }
        } else if str_eq(d.name.as_str(), "default") {
            match &d.arg {
                Some(e) => {
                    *default = Some(e.clone());
                },
                None => {
                    let mut m = String::new();
                    m.append("expected a default value");
                    errors.push(m);
                },
            }
        } else {
            let m = unknown_message(d.name.as_str());
            errors.push(m);
        }
    } else {
        if str_eq(d.name.as_str(), "builder_skip") {
            match &d.arg {
                Some(_) => {
                    let mut m = String::new();
                    m.append("expected no arguments");
                    errors.push(m);
                },
                None => {
                    *skip = true;
                },
            }
        } else if str_eq(d.name.as_str(), "builder_default") {
            match &d.arg {
                Some(e) => {
                    *default = Some(e.clone());
                },
                None => {
                    let mut m = String::new();
                    m.append("expected a default value");
                    errors.push(m);
                },
            }
        } else if str_eq(d.name.as_str(), "builder_use_default") {
            match &d.arg {
                Some(_) => {
                    let mut m = String::new();
                    m.append("expected no arguments");
                    errors.push(m);
                },
                None => {
                    let mut e = String::new();
                    e.append("Default::default()");
                    *default = Some(e);
                },
            }
        }
    }
}

} // verus!
