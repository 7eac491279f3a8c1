//! A workflow that can be dispatched, with the inputs it declares.

use vstd::prelude::*;

verus! {

/// The type of a workflow dispatch input.
#[derive(Debug, Clone, Copy, PartialEq, Eq, Structural)]
pub enum InputType {
    String,
    Boolean,
    Choice,
    Environment,
}

/// A single input field for a workflow dispatch event.
#[derive(Debug)]
pub struct WorkflowInput {
    pub name: String,
    pub description: String,
    pub required: bool,
    pub default: Option<String>,
    pub input_type: InputType,
    /// For choice inputs, the available options.
    pub options: Vec<String>,
}

/// A GitHub Actions workflow that supports dispatch.
#[derive(Debug)]
pub struct Workflow {
    pub id: u64,
    pub name: String,
    pub path: String,
    pub state: String,
    /// Inputs defined under `on.workflow_dispatch.inputs`
    pub inputs: Vec<WorkflowInput>,
}

/// The mathematical value of a [`WorkflowInput`].
pub struct WorkflowInputView {
    pub name: Seq<char>,
    pub description: Seq<char>,
    pub required: bool,
    pub default: Option<Seq<char>>,
    pub input_type: InputType,
    pub options: Seq<Seq<char>>,
}

/// The mathematical value of a [`Workflow`].
pub struct WorkflowView {
    pub id: u64,
    pub name: Seq<char>,
    pub path: Seq<char>,
    pub state: Seq<char>,
    pub inputs: Seq<WorkflowInputView>,
}

/// The characters of each string of a sequence.
pub open spec fn strings_view(v: Seq<String>) -> Seq<Seq<char>> {
    v.map_values(|s: String| s@)
}

/// The view of an optional string.
pub open spec fn opt_view(o: Option<String>) -> Option<Seq<char>> {
    match o {
        Some(s) => Some(s@),
        None => None,
    }
}

impl View for WorkflowInput {
    type V = WorkflowInputView;

    open spec fn view(&self) -> WorkflowInputView {
        WorkflowInputView {
            name: self.name@,
            description: self.description@,
            required: self.required,
            default: opt_view(self.default),
            input_type: self.input_type,
            options: strings_view(self.options@),
        }
    }
}

/// The views of a sequence of inputs.
pub open spec fn inputs_view(v: Seq<WorkflowInput>) -> Seq<WorkflowInputView> {
    v.map_values(|i: WorkflowInput| i@)
}

impl View for Workflow {
    type V = WorkflowView;

    open spec fn view(&self) -> WorkflowView {
        WorkflowView {
            id: self.id,
            name: self.name@,
            path: self.path@,
            state: self.state@,
            inputs: inputs_view(self.inputs@),
        }
    }
}

/// The views of a sequence of workflows.
pub open spec fn workflows_view(v: Seq<Workflow>) -> Seq<WorkflowView> {
    v.map_values(|w: Workflow| w@)
}

/// Copies an optional string.
pub fn clone_opt_string(o: &Option<String>) -> (r: Option<String>)
    ensures
        opt_view(r) == opt_view(*o),
{
    match o {
        Some(s) => Some(s.clone()),
        None => None,
    }
}

impl Clone for WorkflowInput {
    fn clone(&self) -> (r: Self)
        ensures
            r@ == self@,
    {
        let options = self.options.clone();
        assert(strings_view(options@) =~= strings_view(self.options@));
        WorkflowInput {
            name: self.name.clone(),
            description: self.description.clone(),
            required: self.required,
            default: clone_opt_string(&self.default),
            input_type: self.input_type,
            options,
        }
    }
}

impl Clone for Workflow {
    fn clone(&self) -> (r: Self)
        ensures
            r@ == self@,
    {
        let inputs = self.inputs.clone();
        assert(inputs_view(inputs@) =~= inputs_view(self.inputs@)) by {
            assert forall|i: int| 0 <= i < inputs@.len() implies #[trigger] inputs@[i]@
                == self.inputs@[i]@ by {
                assert(cloned::<WorkflowInput>(self.inputs[i], inputs[i]));
            }
        }
        Workflow {
            id: self.id,
            name: self.name.clone(),
            path: self.path.clone(),
            state: self.state.clone(),
            inputs,
        }
    }
}

/// Copies a list of workflows.
pub fn clone_workflows(v: &Vec<Workflow>) -> (r: Vec<Workflow>)
    ensures
        workflows_view(r@) == workflows_view(v@),
{
    let r = v.clone();
    assert(workflows_view(r@) =~= workflows_view(v@)) by {
        assert forall|i: int| 0 <= i < r@.len() implies #[trigger] r@[i]@ == v@[i]@ by {
            assert(cloned::<Workflow>(v[i], r[i]));
        }
    }
    r
}

} // verus!
