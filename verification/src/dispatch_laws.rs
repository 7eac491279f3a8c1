//! What holds of the way a workflow is dispatched: how its inputs are read
//! from its definition, how the form starts and checks them, which
//! workflows are offered, and what is sent to `gh`.

use vstd::prelude::*;
use crate::gh::{WorkflowEntry, string_items, dispatchable, inputs_from_entries, trigger_entry, workflow_of, workflow_text_inputs};
use crate::components::dispatch_form::{
    DispatchFormView, FieldValueView, FormFieldView, field_text, first_missing, form_open, form_problem,
    form_try_dispatch, position_from,
};
use crate::action::ActionView;
use crate::app::{AppView, EffectView, app_update};
use crate::components::repo_list::selected_name;
use crate::text::trim;
use crate::model::workflow::{InputType, WorkflowInputView, WorkflowView};
use crate::yaml::{YamlValue, as_bool, as_sequence, as_str, get_str, lookup_str_from, yaml_parse};

verus! {

/// The text under `key` in a YAML value, when there is text there.
pub open spec fn text_under(v: YamlValue, key: Seq<char>) -> Option<Seq<char>> {
    match get_str(v, key) {
        Some(x) => as_str(x),
        None => None,
    }
}

/// Whether `options` are the options listed: none when no list is given;
/// otherwise no more than the items listed, and when every item is a text,
/// the options are those texts, in order.
pub open spec fn options_match(options: Seq<Seq<char>>, listed: Option<Seq<YamlValue>>) -> bool {
    match listed {
        None => options.len() == 0,
        Some(items) => {
            &&& options.len() <= items.len()
            &&& (forall|j: int| 0 <= j < items.len() ==> as_str(#[trigger] items[j]) is Some) ==> options.len() == items.len()
                && forall|j: int| 0 <= j < items.len() ==> as_str(#[trigger] items[j]) == Some(options[j])
        },
    }
}

proof fn lemma_string_items(items: Seq<YamlValue>)
    ensures
        options_match(string_items(items), Some(items)),
    decreases items.len(),
{
    if items.len() > 0 {
        let p = items.drop_last();
        lemma_string_items(p);
        let ps = string_items(p);
        let r = string_items(items);
        assert forall|j: int| 0 <= j < p.len() implies #[trigger] p[j] == items[j] by {}
        if forall|j: int| 0 <= j < items.len() ==> as_str(#[trigger] items[j]) is Some {
            assert forall|j: int| 0 <= j < p.len() implies as_str(#[trigger] p[j]) is Some by {
                assert(p[j] == items[j]);
            }
            assert(as_str(items.last()) is Some);
            assert forall|j: int| 0 <= j < items.len() implies as_str(#[trigger] items[j]) == Some(r[j]) by {
                if j < p.len() {
                    assert(p[j] == items[j]);
                    assert(r[j] == ps[j]);
                }
            }
        }
    }
}

/// What an input read from the entry `key: def` of `inputs:` holds: the
/// key as its name; the text under `description:`, or nothing; required
/// exactly when `required:` holds the boolean `true`; a default exactly when
/// there is a `default:` entry, a text or boolean default as that text or
/// `true`/`false`; the type named under `type:` (text when it names none of
/// the others); the text items listed under `options:`.
pub open spec fn input_matches_entry(i: WorkflowInputView, key: YamlValue, def: YamlValue) -> bool {
    &&& as_str(key) == Some(i.name)
    &&& i.required == (match get_str(def, "required"@) {
        Some(x) => as_bool(x) == Some(true),
        None => false,
    })
    &&& i.description == match text_under(def, "description"@) {
        Some(d) => d,
        None => Seq::empty(),
    }
    &&& (i.default is Some) == (get_str(def, "default"@) is Some)
    &&& (get_str(def, "default"@) matches Some(YamlValue::String(d)) ==> i.default == Some(d@))
    &&& (get_str(def, "default"@) == Some(YamlValue::Bool(true)) ==> i.default == Some("true"@))
    &&& (get_str(def, "default"@) == Some(YamlValue::Bool(false)) ==> i.default == Some("false"@))
    &&& options_match(i.options, match get_str(def, "options"@) {
        Some(o) => as_sequence(o),
        None => None,
    })
    &&& (i.input_type == InputType::Boolean) == (text_under(def, "type"@) == Some("boolean"@))
    &&& (i.input_type == InputType::Choice) == (text_under(def, "type"@) == Some("choice"@))
    &&& (i.input_type == InputType::Environment) == (text_under(def, "type"@) == Some("environment"@))
}

/// The inputs of a workflow are read one per entry of its `inputs:`
/// mapping, in order, each as [`input_matches_entry`] says; so an input
/// with `required: false` is not required, and one with `required: true`
/// is. Reading fails exactly when some entry's key is not a string.
pub proof fn lemma_inputs_follow_entries(entries: Seq<(YamlValue, YamlValue)>)
    ensures
        (inputs_from_entries(entries) is Ok) == (forall|k: int|
            0 <= k < entries.len() ==> as_str(#[trigger] entries[k].0) is Some),
        inputs_from_entries(entries) matches Ok(s) ==> s.len() == entries.len() && forall|k: int|
            0 <= k < entries.len() ==> input_matches_entry(#[trigger] s[k], entries[k].0, entries[k].1),
    decreases entries.len(),
{
    if entries.len() > 0 {
        let p = entries.drop_last();
        let last = entries.last();
        lemma_inputs_follow_entries(p);
        assert forall|k: int| 0 <= k < p.len() implies #[trigger] p[k] == entries[k] by {}
        match inputs_from_entries(p) {
            Ok(ps) => {
                match crate::gh::input_from_entry(last.0, last.1) {
                    Ok(i) => {
                        let s = ps.push(i);
                        assert(inputs_from_entries(entries) == Ok::<Seq<WorkflowInputView>, Seq<char>>(s));
                        reveal_strlit("boolean");
                        reveal_strlit("choice");
                        reveal_strlit("environment");
                        assert("boolean"@.len() == 7 && "choice"@.len() == 6 && "environment"@.len() == 11);
                        reveal_strlit("true");
                        reveal_strlit("false");
                        if let Some(o) = get_str(last.1, "options"@) {
                            if let Some(items) = as_sequence(o) {
                                lemma_string_items(items);
                            }
                        }
                        assert(input_matches_entry(i, last.0, last.1));
                        assert forall|k: int| 0 <= k < entries.len() implies input_matches_entry(
                            #[trigger] s[k],
                            entries[k].0,
                            entries[k].1,
                        ) by {
                            if k < p.len() {
                                assert(s[k] == ps[k]);
                                assert(p[k] == entries[k]);
                                assert(input_matches_entry(ps[k], p[k].0, p[k].1));
                            }
                        }
                        assert forall|k: int| 0 <= k < entries.len() implies as_str(#[trigger] entries[k].0) is Some by {
                            if k < p.len() {
                                assert(p[k] == entries[k]);
                            }
                        }
                    },
                    Err(e) => {
                        assert(inputs_from_entries(entries) is Err);
                        assert(as_str(entries[entries.len() - 1].0) is None);
                    },
                }
            },
            Err(e) => {
                assert(inputs_from_entries(entries) is Err);
                let k = choose|k: int| 0 <= k < p.len() && !(as_str(#[trigger] p[k].0) is Some);
                assert(p[k] == entries[k]);
            },
        }
    }
}

/// `parse_workflow_inputs` on a definition whose `on:` entry is a mapping
/// with a `workflow_dispatch:` entry holding an `inputs:` mapping gives one
/// input per entry of that mapping, in order, each read as
/// [`input_matches_entry`] says; it fails exactly when some key there is not
/// a string.
pub proof fn lemma_parsed_inputs_follow_definition(
    text: Seq<char>,
    doc: YamlValue,
    on: Vec<(YamlValue, YamlValue)>,
    dispatch: YamlValue,
    inputs: Vec<(YamlValue, YamlValue)>,
)
    requires
        yaml_parse(text) == Ok::<YamlValue, Seq<char>>(doc),
        trigger_entry(doc) == Some(YamlValue::Mapping(on)),
        lookup_str_from(on@, "workflow_dispatch"@, 0) == Some(dispatch),
        get_str(dispatch, "inputs"@) == Some(YamlValue::Mapping(inputs)),
    ensures
        (workflow_text_inputs(text) is Ok) == (forall|k: int|
            0 <= k < inputs@.len() ==> as_str(#[trigger] inputs@[k].0) is Some),
        workflow_text_inputs(text) matches Ok(r) ==> r matches Some(s) && s.len() == inputs@.len() && forall|k: int|
            0 <= k < inputs@.len() ==> input_matches_entry(#[trigger] s[k], inputs@[k].0, inputs@[k].1),
{
    lemma_inputs_follow_entries(inputs@);
}

/// Where a field starts when the form opens on `input`: a boolean checked
/// exactly when the default is the text `true`, and then dispatched as
/// `true`, otherwise as `false`; a choice on the first option equal to the
/// default, or on the first option when no option is; text holding the
/// default (or nothing), with the cursor at its end.
pub open spec fn starts_at_default(field: FormFieldView, input: WorkflowInputView) -> bool {
    &&& field.input == input
    &&& match input.input_type {
        InputType::Boolean => {
            &&& field.value == FieldValueView::Boolean(input.default == Some("true"@))
            &&& field_text(field.value) == if input.default == Some("true"@) {
                "true"@
            } else {
                "false"@
            }
        },
        InputType::Choice => match field.value {
            FieldValueView::Choice { selected, options } => {
                &&& options == input.options
                &&& match input.default {
                    Some(d) => if options.contains(d) {
                        &&& selected < options.len()
                        &&& options[selected as int] == d
                        &&& forall|j: int| 0 <= j < selected ==> options[j] != d
                    } else {
                        selected == 0
                    },
                    None => selected == 0,
                }
            },
            _ => false,
        },
        _ => match field.value {
            FieldValueView::Text(t) => {
                &&& t.value == match input.default {
                    Some(d) => d,
                    None => Seq::empty(),
                }
                &&& t.cursor == t.value.len()
            },
            _ => false,
        },
    }
}

proof fn lemma_position_from(options: Seq<Seq<char>>, d: Seq<char>, i: int)
    requires
        0 <= i,
        options.len() <= usize::MAX,
    ensures
        position_from(options, d, i) matches Some(p) ==> i <= p < options.len() && options[p as int] == d
            && forall|j: int| i <= j < p ==> options[j] != d,
        position_from(options, d, i) is None ==> forall|j: int| i <= j < options.len() ==> options[j] != d,
    decreases options.len() - i,
{
    if i < options.len() {
        lemma_position_from(options, d, i + 1);
    }
}

/// Opening the dispatch form on a workflow shows it with one field per
/// input, in order, each starting at its default as [`starts_at_default`]
/// says, the ref field holding `branch` and focused, and no error. (The
/// options of an input are those of a workflow in memory, so they number no
/// more than `usize::MAX`.)
pub proof fn lemma_form_opens_with_defaults(v: DispatchFormView, w: WorkflowView, idx: usize, branch: Seq<char>)
    requires
        forall|k: int| 0 <= k < w.inputs.len() ==> (#[trigger] w.inputs[k]).options.len() <= usize::MAX,
    ensures
        ({
            let f = form_open(v, w, idx, branch);
            &&& f.visible && f.ref_focused && !f.button_focused && !f.dispatching
            &&& f.error_msg is None
            &&& f.ref_input.value == branch
            &&& f.workflow == Some(w) && f.workflow_index == idx
            &&& f.fields.len() == w.inputs.len()
            &&& forall|k: int| 0 <= k < w.inputs.len() ==> starts_at_default(#[trigger] f.fields[k], w.inputs[k])
        }),
{
    let f = form_open(v, w, idx, branch);
    reveal_strlit("true");
    reveal_strlit("false");
    assert forall|k: int| 0 <= k < w.inputs.len() implies starts_at_default(#[trigger] f.fields[k], w.inputs[k]) by {
        let input = w.inputs[k];
        if let Some(d) = input.default {
            lemma_position_from(input.options, d, 0);
            if input.options.contains(d) {
                let j = choose|j: int| 0 <= j < input.options.len() && input.options[j] == d;
                assert(input.options[j] == d);
            }
        }
    }
}

/// Whether a field is left unfilled: text that is blank once trimmed, or a
/// choice with no options (a boolean is always filled).
pub open spec fn left_unfilled(v: FieldValueView) -> bool {
    match v {
        FieldValueView::Text(t) => trim(t.value).len() == 0,
        FieldValueView::Choice { options, .. } => options.len() == 0,
        FieldValueView::Boolean(_) => false,
    }
}

/// Whether field `k` is required and left unfilled.
pub open spec fn missing_at(f: DispatchFormView, k: int) -> bool {
    f.fields[k].input.required && left_unfilled(f.fields[k].value)
}

proof fn lemma_first_missing(fields: Seq<FormFieldView>, i: int)
    requires
        0 <= i,
    ensures
        first_missing(fields, i) is None <==> forall|k: int|
            i <= k < fields.len() ==> !(fields[k].input.required && left_unfilled(#[trigger] fields[k].value)),
        forall|k: int|
            i <= k < fields.len() && fields[k].input.required && left_unfilled(#[trigger] fields[k].value) && (
            forall|j: int| i <= j < k ==> !(fields[j].input.required && left_unfilled(fields[j].value)))
                ==> first_missing(fields, i) == Some(fields[k].input.name),
    decreases fields.len() - i,
{
    if i < fields.len() {
        lemma_first_missing(fields, i + 1);
    }
}

/// The form can be dispatched exactly when every required field is filled
/// and the ref is not blank. Otherwise the problem shown names the first
/// required field left unfilled, and only when there is none does it say
/// that the ref is missing. A dispatch is asked for exactly when there is
/// no problem, and an attempt with a problem leaves the fields as they are
/// and shows it.
pub proof fn lemma_form_checks_required_fields(f: DispatchFormView)
    ensures
        (form_problem(f) is None) == ((forall|k: int| 0 <= k < f.fields.len() ==> !#[trigger] missing_at(f, k))
            && trim(f.ref_input.value).len() > 0),
        forall|k: int|
            0 <= k < f.fields.len() && #[trigger] missing_at(f, k) && (forall|j: int| 0 <= j < k ==> !missing_at(f, j))
                ==> form_problem(f) == Some("'"@ + f.fields[k].input.name + "' is required"@),
        (form_try_dispatch(f).1 is DispatchWorkflow) == (form_problem(f) is None),
        form_problem(f) matches Some(e) ==> form_try_dispatch(f) == (
            DispatchFormView { error_msg: Some(e), ..f },
            ActionView::Noop,
        ),
{
    lemma_first_missing(f.fields, 0);
    if first_missing(f.fields, 0) is None {
        assert forall|k: int| 0 <= k < f.fields.len() implies !#[trigger] missing_at(f, k) by {
            assert(!(f.fields[k].input.required && left_unfilled(f.fields[k].value)));
        }
    } else {
        if forall|k: int| 0 <= k < f.fields.len() ==> !#[trigger] missing_at(f, k) {
            assert forall|k: int| 0 <= k < f.fields.len() implies !(f.fields[k].input.required && left_unfilled(
                #[trigger] f.fields[k].value,
            )) by {
                assert(!missing_at(f, k));
            }
            assert(false);
        }
    }
    assert forall|k: int|
        0 <= k < f.fields.len() && #[trigger] missing_at(f, k) && (forall|j: int| 0 <= j < k ==> !missing_at(f, j))
            implies form_problem(f) == Some("'"@ + f.fields[k].input.name + "' is required"@) by {
        assert forall|j: int| 0 <= j < k implies !(f.fields[j].input.required && left_unfilled(
            #[trigger] f.fields[j].value,
        )) by {
            assert(!missing_at(f, j));
        }
        assert(left_unfilled(f.fields[k].value));
    }
}

/// Whether the workflow `w` is what the `j`-th listed workflow gives: the
/// same id, name, path and state, its definition fetched, and exactly the
/// inputs that `parse_workflow_inputs` reads from that definition, which
/// has a `workflow_dispatch` trigger.
pub open spec fn kept_from(w: WorkflowView, e: WorkflowEntry, text: Result<String, String>) -> bool {
    &&& w.id == e.id && w.name == e.name@ && w.path == e.path@ && w.state == e.state@
    &&& text matches Ok(t) && workflow_text_inputs(t@) == Ok::<Option<Seq<WorkflowInputView>>, Seq<char>>(
        Some(w.inputs),
    )
}

/// Whether `w` is kept from one of the first `n` listed workflows.
pub open spec fn comes_from_listed(w: WorkflowView, entries: Seq<WorkflowEntry>, texts: Seq<Result<String, String>>, n: int) -> bool {
    exists|j: int| 0 <= j < n && #[trigger] kept_from(w, entries[j], texts[j])
}

/// Whether the `j`-th listed workflow can be dispatched: its definition was
/// fetched and has a `workflow_dispatch` trigger that could be read.
pub open spec fn offered(text: Result<String, String>) -> bool {
    text matches Ok(t) && workflow_text_inputs(t@) matches Ok(Some(_))
}

/// The workflows kept from the first `n` listed ones are exactly those that
/// can be dispatched: each kept workflow comes from a listed one, with the
/// inputs read from its definition, and every listed one that can be
/// dispatched is kept, with those inputs.
pub proof fn lemma_dispatchable_keeps_inputs(entries: Seq<WorkflowEntry>, texts: Seq<Result<String, String>>, n: int)
    requires
        0 <= n <= entries.len(),
        entries.len() == texts.len(),
    ensures
        ({
            let r = dispatchable(entries, texts, n);
            &&& r.len() <= n
            &&& forall|m: int| 0 <= m < r.len() ==> #[trigger] comes_from_listed(r[m], entries, texts, n)
            &&& forall|j: int|
                0 <= j < n && #[trigger] offered(texts[j]) ==> exists|m: int|
                    0 <= m < r.len() && kept_from(#[trigger] r[m], entries[j], texts[j])
        }),
    decreases n,
{
    if n > 0 {
        lemma_dispatchable_keeps_inputs(entries, texts, n - 1);
        let prev = dispatchable(entries, texts, n - 1);
        let r = dispatchable(entries, texts, n);
        let j = n - 1;
        if offered(texts[j]) {
            let t = texts[j]->Ok_0;
            let ins = workflow_text_inputs(t@)->Ok_0->Some_0;
            assert(r == prev.push(workflow_of(entries[j], ins)));
            assert(kept_from(r[prev.len() as int], entries[j], texts[j]));
            assert forall|m: int| 0 <= m < r.len() implies #[trigger] comes_from_listed(r[m], entries, texts, n) by {
                if m < prev.len() {
                    assert(r[m] == prev[m]);
                    assert(comes_from_listed(prev[m], entries, texts, n - 1));
                    let j1 = choose|j1: int| 0 <= j1 < n - 1 && #[trigger] kept_from(prev[m], entries[j1], texts[j1]);
                    assert(kept_from(r[m], entries[j1], texts[j1]));
                } else {
                    assert(kept_from(r[m], entries[j], texts[j]));
                }
            }
            assert forall|j1: int| 0 <= j1 < n && #[trigger] offered(texts[j1]) implies exists|m: int|
                0 <= m < r.len() && kept_from(#[trigger] r[m], entries[j1], texts[j1]) by {
                if j1 < n - 1 {
                    let m = choose|m: int| 0 <= m < prev.len() && kept_from(#[trigger] prev[m], entries[j1], texts[j1]);
                    assert(r[m] == prev[m]);
                } else {
                    assert(kept_from(r[prev.len() as int], entries[j1], texts[j1]));
                }
            }
        } else {
            assert(r == prev);
            assert forall|m: int| 0 <= m < r.len() implies #[trigger] comes_from_listed(r[m], entries, texts, n) by {
                assert(comes_from_listed(prev[m], entries, texts, n - 1));
                let j1 = choose|j1: int| 0 <= j1 < n - 1 && #[trigger] kept_from(prev[m], entries[j1], texts[j1]);
                assert(kept_from(r[m], entries[j1], texts[j1]));
            }
            assert forall|j1: int| 0 <= j1 < n && #[trigger] offered(texts[j1]) implies exists|m: int|
                0 <= m < r.len() && kept_from(#[trigger] r[m], entries[j1], texts[j1]) by {
                if j1 < n - 1 {
                    let m = choose|m: int| 0 <= m < prev.len() && kept_from(#[trigger] prev[m], entries[j1], texts[j1]);
                    assert(r[m] == prev[m]);
                }
            }
        }
    }
}

/// Asking to dispatch sends the form's workflow on the selected repository,
/// with the ref as it stands in the form's ref field (whatever was typed
/// there) and the given values, and changes nothing else; nothing is sent
/// when no repository is selected or the form holds no workflow. What is
/// known of default branches has no say in it.
pub proof fn lemma_dispatch_uses_form_ref(
    v: AppView,
    i: usize,
    values: Seq<(Seq<char>, Seq<char>)>,
    branches: Map<Seq<char>, Seq<char>>,
)
    ensures
        ({
            let (w, e) = app_update(v, ActionView::DispatchWorkflow(i, values));
            &&& w == v
            &&& e.len() <= 1
            &&& (e.len() == 1) == (selected_name(v.repo_list) is Some && v.dispatch_form.workflow is Some)
            &&& e.len() == 1 ==> e[0] == EffectView::DispatchWorkflow {
                repo: selected_name(v.repo_list)->Some_0,
                workflow: v.dispatch_form.workflow->Some_0.name,
                ref_name: v.dispatch_form.ref_input.value,
                inputs: values,
            }
            &&& app_update(AppView { default_branches: branches, ..v }, ActionView::DispatchWorkflow(i, values)).1
                == e
        }),
{
}

} // verus!
