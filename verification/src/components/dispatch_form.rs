//! The modal form in which a workflow's ref and inputs are filled in before
//! it is dispatched.

use vstd::prelude::*;
use crate::action::{Action, ActionView, pairs_view};
use crate::components::Component;
use crate::components::add_repo::edited;
use crate::input::{Key, KeyCode, SHIFT, TextInput, TextInputView, holds_modifier, input_with};
use crate::model::workflow::{
    InputType, Workflow, WorkflowInput, WorkflowInputView, WorkflowView, clone_opt_string, opt_view,
    strings_view,
};
use crate::components::Tone;
use crate::text::{concat2, concat3, decimal, decimal_text, same_text, trim, trim_str};

verus! {

/// Holds the current value for a form field.
#[derive(Debug)]
pub enum FieldValue {
    Text(TextInput),
    Boolean(bool),
    Choice { selected: usize, options: Vec<String> },
}

/// A single field in the dispatch form.
#[derive(Debug)]
pub struct FormField {
    pub input: WorkflowInput,
    pub value: FieldValue,
}

pub struct DispatchForm {
    pub visible: bool,
    pub workflow: Option<Workflow>,
    pub workflow_index: usize,
    pub fields: Vec<FormField>,
    pub focused_field: usize,
    pub ref_input: TextInput,
    pub ref_focused: bool,
    pub button_focused: bool,
    pub error_msg: Option<String>,
    pub dispatching: bool,
}

/// The mathematical value of a [`FieldValue`].
pub enum FieldValueView {
    Text(TextInputView),
    Boolean(bool),
    Choice { selected: usize, options: Seq<Seq<char>> },
}

/// The mathematical value of a [`FormField`].
pub struct FormFieldView {
    pub input: WorkflowInputView,
    pub value: FieldValueView,
}

/// The mathematical value of a [`DispatchForm`].
pub struct DispatchFormView {
    pub visible: bool,
    pub workflow: Option<WorkflowView>,
    pub workflow_index: usize,
    pub fields: Seq<FormFieldView>,
    pub focused_field: usize,
    pub ref_input: TextInputView,
    pub ref_focused: bool,
    pub button_focused: bool,
    pub error_msg: Option<Seq<char>>,
    pub dispatching: bool,
}

impl View for FieldValue {
    type V = FieldValueView;

    open spec fn view(&self) -> FieldValueView {
        match self {
            FieldValue::Text(i) => FieldValueView::Text(i@),
            FieldValue::Boolean(b) => FieldValueView::Boolean(*b),
            FieldValue::Choice { selected, options } => FieldValueView::Choice {
                selected: *selected,
                options: strings_view(options@),
            },
        }
    }
}

impl View for FormField {
    type V = FormFieldView;

    open spec fn view(&self) -> FormFieldView {
        FormFieldView { input: self.input@, value: self.value@ }
    }
}

/// The views of some fields.
pub open spec fn fields_view(v: Seq<FormField>) -> Seq<FormFieldView> {
    v.map_values(|f: FormField| f@)
}

/// The view of an optional workflow.
pub open spec fn opt_workflow_view(w: Option<Workflow>) -> Option<WorkflowView> {
    match w {
        Some(w) => Some(w@),
        None => None,
    }
}

impl View for DispatchForm {
    type V = DispatchFormView;

    open spec fn view(&self) -> DispatchFormView {
        DispatchFormView {
            visible: self.visible,
            workflow: opt_workflow_view(self.workflow),
            workflow_index: self.workflow_index,
            fields: fields_view(self.fields@),
            focused_field: self.focused_field,
            ref_input: self.ref_input@,
            ref_focused: self.ref_focused,
            button_focused: self.button_focused,
            error_msg: opt_view(self.error_msg),
            dispatching: self.dispatching,
        }
    }
}

/// The first place, at or after `i`, where `options` holds `d`.
pub open spec fn position_from(options: Seq<Seq<char>>, d: Seq<char>, i: int) -> Option<usize>
    decreases options.len() - i,
{
    if i < 0 || i >= options.len() {
        None
    } else if options[i] == d {
        Some(i as usize)
    } else {
        position_from(options, d, i + 1)
    }
}

/// The value a field starts with: a boolean is on when its default is
/// `true`; a choice starts on its default option (the first one when the
/// default is missing or not an option); text starts as the default.
pub open spec fn initial_value(input: WorkflowInputView) -> FieldValueView {
    match input.input_type {
        InputType::Boolean => FieldValueView::Boolean(input.default == Some("true"@)),
        InputType::Choice => FieldValueView::Choice {
            selected: match input.default {
                Some(d) => match position_from(input.options, d, 0) {
                    Some(p) => p,
                    None => 0,
                },
                None => 0,
            },
            options: input.options,
        },
        _ => FieldValueView::Text(
            input_with(
                match input.default {
                    Some(d) => d,
                    None => Seq::empty(),
                },
            ),
        ),
    }
}

/// The form opened on a workflow: one field per input, the ref field
/// holding the default branch and focused.
pub open spec fn form_open(v: DispatchFormView, workflow: WorkflowView, index: usize, branch: Seq<char>) -> DispatchFormView {
    DispatchFormView {
        visible: true,
        workflow: Some(workflow),
        workflow_index: index,
        fields: workflow.inputs.map_values(|i: WorkflowInputView| FormFieldView { input: i, value: initial_value(i) }),
        focused_field: 0,
        ref_input: input_with(branch),
        ref_focused: true,
        button_focused: false,
        error_msg: None,
        dispatching: false,
    }
}

/// The form closed.
pub open spec fn form_close(v: DispatchFormView) -> DispatchFormView {
    DispatchFormView {
        visible: false,
        workflow: None,
        fields: Seq::empty(),
        button_focused: false,
        error_msg: None,
        dispatching: false,
        ..v
    }
}

/// The text a field is dispatched with.
pub open spec fn field_text(v: FieldValueView) -> Seq<char> {
    match v {
        FieldValueView::Text(i) => i.value,
        FieldValueView::Boolean(b) => if b {
            "true"@
        } else {
            "false"@
        },
        FieldValueView::Choice { selected, options } => if selected < options.len() {
            options[selected as int]
        } else {
            Seq::empty()
        },
    }
}

/// The `(name, value)` pairs of the fields, in order.
pub open spec fn collected(fields: Seq<FormFieldView>) -> Seq<(Seq<char>, Seq<char>)> {
    fields.map_values(|f: FormFieldView| (f.input.name, field_text(f.value)))
}

/// Whether a field counts as not filled in.
pub open spec fn field_empty(v: FieldValueView) -> bool {
    match v {
        FieldValueView::Text(i) => trim(i.value).len() == 0,
        FieldValueView::Boolean(_) => false,
        FieldValueView::Choice { options, .. } => options.len() == 0,
    }
}

/// The name of the first required field, at or after `i`, not filled in.
pub open spec fn first_missing(fields: Seq<FormFieldView>, i: int) -> Option<Seq<char>>
    decreases fields.len() - i,
{
    if i < 0 || i >= fields.len() {
        None
    } else if fields[i].input.required && field_empty(fields[i].value) {
        Some(fields[i].input.name)
    } else {
        first_missing(fields, i + 1)
    }
}

/// Why the form cannot be dispatched, if it cannot: a required field not
/// filled in (the first one), or an empty ref.
pub open spec fn form_problem(v: DispatchFormView) -> Option<Seq<char>> {
    match first_missing(v.fields, 0) {
        Some(name) => Some("'"@ + name + "' is required"@),
        None => if trim(v.ref_input.value).len() == 0 {
            Some("Branch/ref is required"@)
        } else {
            None
        },
    }
}

/// The form after an attempt to dispatch, and the action: the dispatch of
/// the collected values, or nothing with the problem shown.
pub open spec fn form_try_dispatch(v: DispatchFormView) -> (DispatchFormView, ActionView) {
    match form_problem(v) {
        Some(err) => (DispatchFormView { error_msg: Some(err), ..v }, ActionView::Noop),
        None => (
            DispatchFormView { dispatching: true, error_msg: None, ..v },
            ActionView::DispatchWorkflow(v.workflow_index, collected(v.fields)),
        ),
    }
}

/// Focus moved forward: ref, then each field, then the button, then back to
/// the ref.
pub open spec fn form_next(v: DispatchFormView) -> DispatchFormView {
    if v.button_focused {
        DispatchFormView { button_focused: false, ref_focused: true, ..v }
    } else if v.ref_focused {
        if v.fields.len() > 0 {
            DispatchFormView { ref_focused: false, focused_field: 0, ..v }
        } else {
            DispatchFormView { ref_focused: false, button_focused: true, ..v }
        }
    } else if v.focused_field + 1 < v.fields.len() {
        DispatchFormView { focused_field: (v.focused_field + 1) as usize, ..v }
    } else {
        DispatchFormView { button_focused: true, ..v }
    }
}

/// Focus moved backward, the reverse of [`form_next`].
pub open spec fn form_prev(v: DispatchFormView) -> DispatchFormView {
    if v.button_focused {
        if v.fields.len() > 0 {
            DispatchFormView { button_focused: false, focused_field: (v.fields.len() - 1) as usize, ..v }
        } else {
            DispatchFormView { button_focused: false, ref_focused: true, ..v }
        }
    } else if v.ref_focused {
        DispatchFormView { ref_focused: false, button_focused: true, ..v }
    } else if v.focused_field > 0 {
        DispatchFormView { focused_field: (v.focused_field - 1) as usize, ..v }
    } else {
        DispatchFormView { ref_focused: true, ..v }
    }
}

/// The form with the value of field `i` replaced.
pub open spec fn with_field_value(v: DispatchFormView, i: int, value: FieldValueView) -> DispatchFormView {
    DispatchFormView { fields: v.fields.update(i, FormFieldView { value, ..v.fields[i] }), ..v }
}

/// What a key press does to the focused field `f`: the new value, or `None`
/// when it moves on to the next field.
pub open spec fn field_key(f: FieldValueView, key: Key) -> Option<FieldValueView> {
    match f {
        FieldValueView::Text(i) => if key.code is Enter {
            None
        } else {
            Some(FieldValueView::Text(edited(i, key)))
        },
        FieldValueView::Boolean(b) => if key.code == KeyCode::Char(' ') || key.code is Enter {
            Some(FieldValueView::Boolean(!b))
        } else {
            Some(f)
        },
        FieldValueView::Choice { selected, options } => match key.code {
            KeyCode::Char('j') | KeyCode::Down => Some(
                FieldValueView::Choice {
                    selected: if selected + 1 < options.len() {
                        (selected + 1) as usize
                    } else {
                        selected
                    },
                    options,
                },
            ),
            KeyCode::Char('k') | KeyCode::Up => Some(
                FieldValueView::Choice {
                    selected: if selected > 0 {
                        (selected - 1) as usize
                    } else {
                        selected
                    },
                    options,
                },
            ),
            KeyCode::Enter => None,
            _ => Some(f),
        },
    }
}

/// The form after a key press, and the action it stands for. Esc closes;
/// Tab and Shift+Tab (or BackTab, as terminals send it) move the focus; on
/// the button, Enter or Space tries to dispatch; on the ref field, Enter
/// moves on and other keys edit it; on a field, the key goes to it. A key
/// that does not move on clears the error.
pub open spec fn form_key(v: DispatchFormView, key: Key) -> (DispatchFormView, ActionView) {
    let cleared = DispatchFormView { error_msg: None, ..v };
    if !v.visible || v.dispatching {
        (v, ActionView::Noop)
    } else {
        match key.code {
            KeyCode::Esc => (form_close(v), ActionView::CloseModal),
            KeyCode::Tab => if holds_modifier(key.modifiers, SHIFT) {
                (v, ActionView::PrevField)
            } else {
                (v, ActionView::NextField)
            },
            KeyCode::BackTab => (v, ActionView::PrevField),
            _ => if v.button_focused {
                if key.code is Enter || key.code == KeyCode::Char(' ') {
                    form_try_dispatch(v)
                } else {
                    (cleared, ActionView::Noop)
                }
            } else if v.ref_focused {
                if key.code is Enter {
                    (v, ActionView::NextField)
                } else {
                    (DispatchFormView { ref_input: edited(v.ref_input, key), ..cleared }, ActionView::Noop)
                }
            } else if v.focused_field < v.fields.len() {
                match field_key(v.fields[v.focused_field as int].value, key) {
                    None => (v, ActionView::NextField),
                    Some(value) => (with_field_value(cleared, v.focused_field as int, value), ActionView::Noop),
                }
            } else {
                (cleared, ActionView::Noop)
            },
        }
    }
}

fn clone_strings(v: &Vec<String>) -> (r: Vec<String>)
    ensures
        strings_view(r@) == strings_view(v@),
{
    let r = v.clone();
    assert(strings_view(r@) =~= strings_view(v@));
    r
}

/// The first place where `options` holds `d`.
fn position_of(options: &Vec<String>, d: &str) -> (r: Option<usize>)
    ensures
        r == position_from(strings_view(options@), d@, 0),
{
    let mut i: usize = 0;
    while i < options.len()
        invariant
            i <= options@.len(),
            position_from(strings_view(options@), d@, 0) == position_from(strings_view(options@), d@, i as int),
        decreases options@.len() - i,
    {
        if same_text(options[i].as_str(), d) {
            return Some(i);
        }
        i = i + 1;
    }
    None
}

fn initial_field(input: &WorkflowInput) -> (r: FormField)
    ensures
        r@ == (FormFieldView { input: input@, value: initial_value(input@) }),
{
    let value = match input.input_type {
        InputType::Boolean => {
            let on = match &input.default {
                Some(d) => same_text(d.as_str(), "true"),
                None => false,
            };
            FieldValue::Boolean(on)
        },
        InputType::Choice => {
            let selected = match &input.default {
                Some(d) => match position_of(&input.options, d.as_str()) {
                    Some(p) => p,
                    None => 0,
                },
                None => 0,
            };
            FieldValue::Choice { selected, options: clone_strings(&input.options) }
        },
        _ => {
            let text = match &input.default {
                Some(d) => d.clone(),
                None => String::new(),
            };
            FieldValue::Text(TextInput::with_value(text))
        },
    };
    FormField { input: input.clone(), value }
}

impl DispatchForm {
    pub fn new() -> (r: Self)
        ensures
            r@ == (DispatchFormView {
                visible: false,
                workflow: None,
                workflow_index: 0,
                fields: Seq::empty(),
                focused_field: 0,
                ref_input: input_with("main"@),
                ref_focused: true,
                button_focused: false,
                error_msg: None,
                dispatching: false,
            }),
    {
        let r = DispatchForm {
            visible: false,
            workflow: None,
            workflow_index: 0,
            fields: Vec::new(),
            focused_field: 0,
            ref_input: TextInput::with_value("main".to_owned()),
            ref_focused: true,
            button_focused: false,
            error_msg: None,
            dispatching: false,
        };
        assert(r@.fields =~= Seq::<FormFieldView>::empty());
        r
    }

    pub fn open(&mut self, workflow: Workflow, index: usize, default_branch: &str)
        ensures
            final(self)@ == form_open(old(self)@, workflow@, index, default_branch@),
    {
        let mut fields: Vec<FormField> = Vec::new();
        let mut i: usize = 0;
        while i < workflow.inputs.len()
            invariant
                i <= workflow.inputs@.len(),
                fields@.len() == i,
                forall|k: int| 0 <= k < i ==> (#[trigger] fields@[k])@ == (FormFieldView {
                    input: workflow.inputs@[k]@,
                    value: initial_value(workflow.inputs@[k]@),
                }),
            decreases workflow.inputs@.len() - i,
        {
            fields.push(initial_field(&workflow.inputs[i]));
            i = i + 1;
        }
        let ghost wv = workflow@;
        self.fields = fields;
        self.workflow = Some(workflow);
        self.workflow_index = index;
        self.focused_field = 0;
        self.ref_input = TextInput::with_value(default_branch.to_owned());
        self.ref_focused = true;
        self.button_focused = false;
        self.error_msg = None;
        self.dispatching = false;
        self.visible = true;
        assert(final(self)@.fields =~= wv.inputs.map_values(
            |i: WorkflowInputView| FormFieldView { input: i, value: initial_value(i) },
        ));
    }

    pub fn close(&mut self)
        ensures
            final(self)@ == form_close(old(self)@),
    {
        self.visible = false;
        self.workflow = None;
        self.fields.clear();
        self.button_focused = false;
        self.error_msg = None;
        self.dispatching = false;
        assert(final(self)@.fields =~= Seq::<FormFieldView>::empty());
    }

    /// Collect the current field values as (key, value) pairs for dispatch.
    pub fn collect_values(&self) -> (r: Vec<(String, String)>)
        ensures
            pairs_view(r@) == collected(self@.fields),
    {
        let mut r: Vec<(String, String)> = Vec::new();
        let mut i: usize = 0;
        while i < self.fields.len()
            invariant
                i <= self.fields@.len(),
                r@.len() == i,
                forall|k: int| 0 <= k < i ==> ((#[trigger] r@[k]).0@, r@[k].1@) == (
                    self.fields@[k].input.name@,
                    field_text(self.fields@[k].value@),
                ),
            decreases self.fields@.len() - i,
        {
            let field = &self.fields[i];
            let val = match &field.value {
                FieldValue::Text(input) => input.value().to_owned(),
                FieldValue::Boolean(b) => {
                    proof {
                        reveal_strlit("true");
                        reveal_strlit("false");
                    }
                    if *b {
                        "true".to_owned()
                    } else {
                        "false".to_owned()
                    }
                },
                FieldValue::Choice { selected, options } => {
                    if *selected < options.len() {
                        options[*selected].clone()
                    } else {
                        String::new()
                    }
                },
            };
            r.push((field.input.name.clone(), val));
            i = i + 1;
        }
        assert(pairs_view(r@) =~= collected(self@.fields));
        r
    }

    /// Validate required fields are filled.
    pub fn validate(&self) -> (r: Option<String>)
        ensures
            opt_view(r) == form_problem(self@),
    {
        let mut i: usize = 0;
        while i < self.fields.len()
            invariant
                i <= self.fields@.len(),
                first_missing(self@.fields, 0) == first_missing(self@.fields, i as int),
            decreases self.fields@.len() - i,
        {
            let field = &self.fields[i];
            if field.input.required {
                let is_empty = match &field.value {
                    FieldValue::Text(input) => trim_str(input.value()).as_str().is_empty(),
                    FieldValue::Boolean(_) => false,
                    FieldValue::Choice { options, .. } => options.len() == 0,
                };
                if is_empty {
                    return Some(concat3("'", field.input.name.as_str(), "' is required"));
                }
            }
            i = i + 1;
        }
        if trim_str(self.ref_input.value()).as_str().is_empty() {
            return Some("Branch/ref is required".to_owned());
        }
        None
    }

    /// Total number of focusable items: ref field + each input field + dispatch button
    pub fn total_focusable(&self) -> (r: usize)
        requires
            self.fields@.len() + 2 <= usize::MAX,
        ensures
            r == self.fields@.len() + 2,
    {
        1 + self.fields.len() + 1
    }

    /// Attempt to dispatch: validate, collect values, and return the action.
    pub fn try_dispatch(&mut self) -> (r: Action)
        ensures
            (final(self)@, r@) == form_try_dispatch(old(self)@),
    {
        if let Some(err) = self.validate() {
            self.error_msg = Some(err);
            return Action::Noop;
        }
        self.dispatching = true;
        self.error_msg = None;
        let values = self.collect_values();
        Action::DispatchWorkflow(self.workflow_index, values)
    }

    /// Hands a key press to the focused field.
    fn handle_field_key(&mut self, key: Key) -> (r: bool)
        requires
            old(self).focused_field < old(self).fields@.len(),
        ensures
            match field_key(old(self)@.fields[old(self).focused_field as int].value, key) {
                None => !r && *final(self) == *old(self),
                Some(value) => r && final(self)@ == with_field_value(
                    old(self)@,
                    old(self).focused_field as int,
                    value,
                ),
            },
            final(self).error_msg == old(self).error_msg,
    {
        let i = self.focused_field;
        match &self.fields[i].value {
            FieldValue::Text(_) => {
                if key.code == KeyCode::Enter {
                    return false;
                }
            },
            FieldValue::Choice { .. } => {
                if key.code == KeyCode::Enter {
                    return false;
                }
            },
            FieldValue::Boolean(_) => {},
        }
        let ghost prev = self.fields@;
        let FormField { input, value } = self.fields.remove(i);
        let new_value = match value {
            FieldValue::Text(mut t) => {
                t.handle_key(key);
                FieldValue::Text(t)
            },
            FieldValue::Boolean(b) => {
                if key.code == KeyCode::Char(' ') || key.code == KeyCode::Enter {
                    FieldValue::Boolean(!b)
                } else {
                    FieldValue::Boolean(b)
                }
            },
            FieldValue::Choice { selected, options } => {
                let mut s = selected;
                match key.code {
                    KeyCode::Char('j') | KeyCode::Down => {
                        if options.len() > 0 && s < options.len() - 1 {
                            s = s + 1;
                        }
                    },
                    KeyCode::Char('k') | KeyCode::Up => {
                        if s > 0 {
                            s = s - 1;
                        }
                    },
                    _ => {},
                }
                FieldValue::Choice { selected: s, options }
            },
        };
        self.fields.insert(i, FormField { input, value: new_value });
        assert(fields_view(self.fields@) =~= fields_view(prev).update(
            i as int,
            FormFieldView { value: new_value@, ..fields_view(prev)[i as int] },
        ));
        true
    }
}

/// The mark before a value: an arrow when it has focus.
pub open spec fn focus_prefix(focused: bool) -> Seq<char> {
    if focused {
        "\u{25b8} "@
    } else {
        "  "@
    }
}

/// Whether input field `i` has focus.
pub open spec fn field_focused(v: DispatchFormView, i: int) -> bool {
    !v.ref_focused && i == v.focused_field
}

/// The line a field's value is shown as: text as typed; a checkbox and the
/// boolean; the selected option with its place among the options.
pub open spec fn value_line(f: FieldValueView, focused: bool) -> Seq<char> {
    match f {
        FieldValueView::Text(i) => focus_prefix(focused) + i.value,
        FieldValueView::Boolean(b) => focus_prefix(focused) + (if b {
            "[x] true"@
        } else {
            "[ ] false"@
        }),
        FieldValueView::Choice { selected, options } => if selected < options.len() {
            focus_prefix(focused) + options[selected as int] + " ("@ + decimal((selected + 1) as nat) + "/"@
                + decimal(options.len()) + ")"@
        } else {
            "  (no options)"@
        },
    }
}

/// The note after a field's name: its description, when it has one.
pub open spec fn description_note(input: WorkflowInputView) -> Option<Seq<char>> {
    if input.description.len() == 0 {
        None
    } else {
        Some(" ("@ + input.description + ")"@)
    }
}

/// The title of the form: the workflow's name.
pub open spec fn form_title(v: DispatchFormView) -> Seq<char> {
    " Dispatch: "@ + match v.workflow {
        Some(w) => w.name,
        None => "Workflow"@,
    } + " "@
}

/// The border color of the form: red while an error is shown.
pub open spec fn form_border_tone(v: DispatchFormView) -> Tone {
    if v.error_msg is Some {
        Tone::Red
    } else {
        Tone::Green
    }
}

/// The hint at the bottom of the form.
pub open spec fn form_hint(v: DispatchFormView) -> Seq<char> {
    if v.dispatching {
        "Dispatching..."@
    } else {
        "Tab: next field | Enter: dispatch | Esc: cancel"@
    }
}

/// The height of the form on a screen `area_height` rows high: the rows its
/// fields take, but no more than the screen less four rows.
pub open spec fn form_height(fields: nat, area_height: int) -> int {
    let wanted: int = 6 + 3 * (fields as int) + 4;
    if wanted <= area_height - 4 {
        wanted
    } else {
        area_height - 4
    }
}

impl DispatchForm {
    /// Whether input field `i` has focus.
    pub fn field_focused(&self, i: usize) -> (r: bool)
        ensures
            r == field_focused(self@, i as int),
    {
        !self.ref_focused && i == self.focused_field
    }

    /// The line the value of field `i` is shown as.
    pub fn value_line(&self, i: usize) -> (r: String)
        requires
            i < self.fields@.len(),
        ensures
            r@ == value_line(self@.fields[i as int].value, field_focused(self@, i as int)),
    {
        let focused = self.field_focused(i);
        let prefix = if focused {
            "\u{25b8} "
        } else {
            "  "
        };
        proof {
            reveal_strlit("\u{25b8} ");
            reveal_strlit("  ");
        }
        match &self.fields[i].value {
            FieldValue::Text(input) => concat2(prefix, input.value()),
            FieldValue::Boolean(b) => {
                proof {
                    reveal_strlit("[x] true");
                    reveal_strlit("[ ] false");
                }
                if *b {
                    concat2(prefix, "[x] true")
                } else {
                    concat2(prefix, "[ ] false")
                }
            },
            FieldValue::Choice { selected, options } => {
                if *selected < options.len() {
                    let mut r = concat3(prefix, options[*selected].as_str(), " (");
                    let place = decimal_text(*selected + 1);
                    let count = decimal_text(options.len());
                    r.append(place.as_str());
                    r.append("/");
                    r.append(count.as_str());
                    r.append(")");
                    r
                } else {
                    proof {
                        reveal_strlit("  (no options)");
                    }
                    "  (no options)".to_owned()
                }
            },
        }
    }

    /// The note after the name of field `i`.
    pub fn description_note(&self, i: usize) -> (r: Option<String>)
        requires
            i < self.fields@.len(),
        ensures
            opt_view(r) == description_note(self@.fields[i as int].input),
    {
        let d = self.fields[i].input.description.as_str();
        if d.unicode_len() == 0 {
            None
        } else {
            Some(concat3(" (", d, ")"))
        }
    }

    /// The line the ref is shown as.
    pub fn ref_line(&self) -> (r: String)
        ensures
            r@ == focus_prefix(self.ref_focused) + self.ref_input@.value,
    {
        proof {
            reveal_strlit("\u{25b8} ");
            reveal_strlit("  ");
        }
        if self.ref_focused {
            concat2("\u{25b8} ", self.ref_input.value())
        } else {
            concat2("  ", self.ref_input.value())
        }
    }

    /// The title of the form.
    pub fn title(&self) -> (r: String)
        ensures
            r@ == form_title(self@),
    {
        let name = match &self.workflow {
            Some(w) => w.name.as_str(),
            None => "Workflow",
        };
        concat3(" Dispatch: ", name, " ")
    }

    /// The border color of the form.
    pub fn border_tone(&self) -> (r: Tone)
        ensures
            r == form_border_tone(self@),
    {
        if self.error_msg.is_some() {
            Tone::Red
        } else {
            Tone::Green
        }
    }

    /// The hint at the bottom of the form.
    pub fn hint(&self) -> (r: &'static str)
        ensures
            r@ == form_hint(self@),
    {
        if self.dispatching {
            "Dispatching..."
        } else {
            "Tab: next field | Enter: dispatch | Esc: cancel"
        }
    }

    /// The height of the form on a screen `area_height` rows high. Below four
    /// rows the height would be negative, hence the requirement.
    pub fn height(&self, area_height: u16) -> (r: u16)
        requires
            area_height >= 4,
            6 + 3 * self.fields@.len() + 4 <= usize::MAX,
        ensures
            r == form_height(self.fields@.len(), area_height as int),
    {
        let wanted: usize = 6 + self.fields.len() * 3 + 4;
        let room: usize = (area_height - 4) as usize;
        if wanted <= room {
            wanted as u16
        } else {
            room as u16
        }
    }
}

impl Component for DispatchForm {
    fn handle_key_event(&mut self, key: Key) -> (r: Action)
        ensures
            (final(self)@, r@) == form_key(old(self)@, key),
    {
        if !self.visible || self.dispatching {
            return Action::Noop;
        }
        match key.code {
            KeyCode::Esc => {
                self.close();
                Action::CloseModal
            },
            KeyCode::Tab => {
                if key.shift() {
                    Action::PrevField
                } else {
                    Action::NextField
                }
            },
            KeyCode::BackTab => Action::PrevField,
            _ => {
                if self.button_focused {
                    if key.code == KeyCode::Enter || key.code == KeyCode::Char(' ') {
                        return self.try_dispatch();
                    }
                } else if self.ref_focused {
                    if key.code == KeyCode::Enter {
                        return Action::NextField;
                    }
                    self.ref_input.handle_key(key);
                } else if self.focused_field < self.fields.len() {
                    if !self.handle_field_key(key) {
                        return Action::NextField;
                    }
                }
                self.error_msg = None;
                Action::Noop
            },
        }
    }

    fn update(&mut self, action: &Action) -> (r: Option<Action>)
        ensures
            r is None,
            match *action {
                Action::NextField => final(self)@ == form_next(old(self)@),
                Action::PrevField => final(self)@ == form_prev(old(self)@),
                _ => *final(self) == *old(self),
            },
    {
        match action {
            Action::NextField => {
                if self.button_focused {
                    self.button_focused = false;
                    self.ref_focused = true;
                } else if self.ref_focused {
                    self.ref_focused = false;
                    if !self.fields.is_empty() {
                        self.focused_field = 0;
                    } else {
                        self.button_focused = true;
                    }
                } else {
                    if self.fields.len() > 0 && self.focused_field < self.fields.len() - 1 {
                        self.focused_field = self.focused_field + 1;
                    } else {
                        self.button_focused = true;
                    }
                }
            },
            Action::PrevField => {
                if self.button_focused {
                    self.button_focused = false;
                    if !self.fields.is_empty() {
                        self.focused_field = self.fields.len() - 1;
                    } else {
                        self.ref_focused = true;
                    }
                } else if self.ref_focused {
                    self.ref_focused = false;
                    self.button_focused = true;
                } else {
                    if self.focused_field > 0 {
                        self.focused_field = self.focused_field - 1;
                    } else {
                        self.ref_focused = true;
                    }
                }
            },
            _ => {},
        }
        None
    }
}

} // verus!
