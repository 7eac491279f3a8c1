//! The list of dispatchable workflows of the selected repository.

use vstd::prelude::*;
use crate::action::{Action, ActionView};
use crate::components::{Component, PanelState, Selection, Tone, border_tone, border_tone_of, panel_state, panel_state_of, select_down, select_first, select_up};
use crate::text::{concat3, decimal, decimal_text};
use crate::input::{Key, KeyCode};
use crate::model::workflow::{Workflow, WorkflowView, workflows_view};

verus! {

pub struct WorkflowList {
    pub workflows: Vec<Workflow>,
    pub state: Selection,
    pub focused: bool,
    pub loading: bool,
    pub error: Option<String>,
}

/// The mathematical value of a [`WorkflowList`].
pub struct WorkflowListView {
    pub workflows: Seq<WorkflowView>,
    pub selected: Option<usize>,
    pub focused: bool,
    pub loading: bool,
    pub error: Option<Seq<char>>,
}

impl View for WorkflowList {
    type V = WorkflowListView;

    open spec fn view(&self) -> WorkflowListView {
        WorkflowListView {
            workflows: workflows_view(self.workflows@),
            selected: self.state.selected,
            focused: self.focused,
            loading: self.loading,
            error: crate::model::workflow::opt_view(self.error),
        }
    }
}

/// The list showing `workflows`, the first one selected.
pub open spec fn show_workflows(v: WorkflowListView, workflows: Seq<WorkflowView>) -> WorkflowListView {
    WorkflowListView { workflows, selected: select_first(workflows.len()), loading: false, error: None, ..v }
}

/// The list showing an error.
pub open spec fn show_workflow_error(v: WorkflowListView, err: Seq<char>) -> WorkflowListView {
    WorkflowListView { error: Some(err), loading: false, ..v }
}

/// The list emptied.
pub open spec fn clear_workflows(v: WorkflowListView) -> WorkflowListView {
    WorkflowListView { workflows: Seq::empty(), selected: None, error: None, loading: false, ..v }
}

/// The list after a move up or down.
pub open spec fn move_workflows(v: WorkflowListView, up: bool) -> WorkflowListView {
    WorkflowListView {
        selected: if up {
            select_up(v.selected)
        } else {
            select_down(v.selected, v.workflows.len())
        },
        ..v
    }
}

/// The action a key press stands for in the workflow list.
pub open spec fn workflow_list_key(v: WorkflowListView, key: Key) -> ActionView {
    if !v.focused {
        ActionView::Noop
    } else {
        match key.code {
            KeyCode::Char('j') | KeyCode::Down => ActionView::Down,
            KeyCode::Char('k') | KeyCode::Up => ActionView::Up,
            KeyCode::Enter => match v.selected {
                Some(i) => ActionView::OpenDispatchForm(i),
                None => ActionView::Noop,
            },
            KeyCode::Char('h') | KeyCode::Left => ActionView::FocusSidebar,
            KeyCode::Tab => ActionView::TabRuns,
            KeyCode::Char('q') => ActionView::Quit,
            KeyCode::Char('r') => ActionView::Refresh,
            KeyCode::Char('R') => ActionView::RerunLastWorkflow,
            _ => ActionView::Noop,
        }
    }
}

impl WorkflowList {
    pub fn new() -> (r: Self)
        ensures
            r@ == (WorkflowListView {
                workflows: Seq::empty(),
                selected: None,
                focused: false,
                loading: false,
                error: None,
            }),
    {
        let r = WorkflowList { workflows: Vec::new(), state: Selection::new(), focused: false, loading: false, error: None };
        assert(r@.workflows =~= Seq::<WorkflowView>::empty());
        r
    }

    pub fn set_workflows(&mut self, workflows: Vec<Workflow>)
        ensures
            final(self)@ == show_workflows(old(self)@, workflows_view(workflows@)),
    {
        self.workflows = workflows;
        self.loading = false;
        self.error = None;
        if !self.workflows.is_empty() {
            self.state.select(Some(0));
        } else {
            self.state.select(None);
        }
    }

    pub fn set_error(&mut self, err: String)
        ensures
            final(self)@ == show_workflow_error(old(self)@, err@),
    {
        self.error = Some(err);
        self.loading = false;
    }

    pub fn clear(&mut self)
        ensures
            final(self)@ == clear_workflows(old(self)@),
    {
        self.workflows.clear();
        self.state.select(None);
        self.error = None;
        self.loading = false;
        assert(final(self)@.workflows =~= Seq::<WorkflowView>::empty());
    }

    pub fn selected_workflow(&self) -> (r: Option<&Workflow>)
        ensures
            match r {
                Some(w) => self.state.selected matches Some(i) && i < self.workflows@.len() && *w
                    == self.workflows@[i as int],
                None => self.state.selected matches Some(i) ==> i >= self.workflows@.len(),
            },
    {
        match self.state.selected() {
            Some(i) => if i < self.workflows.len() {
                Some(&self.workflows[i])
            } else {
                None
            },
            None => None,
        }
    }
}

/// The note shown after a workflow's name: how many inputs it takes.
pub open spec fn input_info(n: nat) -> Seq<char> {
    if n > 0 {
        " ("@ + decimal(n) + " inputs)"@
    } else {
        " (no inputs)"@
    }
}

impl WorkflowList {
    /// What the panel body shows.
    pub fn panel_state(&self) -> (r: PanelState)
        ensures
            r == panel_state(self.loading, self.error is Some, self.workflows@.len()),
    {
        panel_state_of(self.loading, self.error.is_some(), self.workflows.len())
    }

    /// The border color of the panel.
    pub fn border_tone(&self) -> (r: Tone)
        ensures
            r == border_tone(self.focused),
    {
        border_tone_of(self.focused)
    }

    /// The note shown after a workflow's name.
    pub fn input_info(workflow: &Workflow) -> (r: String)
        ensures
            r@ == input_info(workflow.inputs@.len()),
    {
        let n = workflow.inputs.len();
        if n > 0 {
            let count = decimal_text(n);
            concat3(" (", count.as_str(), " inputs)")
        } else {
            proof {
                reveal_strlit(" (no inputs)");
            }
            " (no inputs)".to_owned()
        }
    }
}

impl Component for WorkflowList {
    fn handle_key_event(&mut self, key: Key) -> (r: Action)
        ensures
            *final(self) == *old(self),
            r@ == workflow_list_key(old(self)@, key),
    {
        if !self.focused {
            return Action::Noop;
        }
        match key.code {
            KeyCode::Char('j') | KeyCode::Down => Action::Down,
            KeyCode::Char('k') | KeyCode::Up => Action::Up,
            KeyCode::Enter => {
                if let Some(idx) = self.state.selected() {
                    Action::OpenDispatchForm(idx)
                } else {
                    Action::Noop
                }
            },
            KeyCode::Char('h') | KeyCode::Left => Action::FocusSidebar,
            KeyCode::Tab => Action::TabRuns,
            KeyCode::Char('q') => Action::Quit,
            KeyCode::Char('r') => Action::Refresh,
            KeyCode::Char('R') => Action::RerunLastWorkflow,
            _ => Action::Noop,
        }
    }

    fn update(&mut self, action: &Action) -> (r: Option<Action>)
        ensures
            r is None,
            match *action {
                Action::Up => final(self)@ == move_workflows(old(self)@, true),
                Action::Down => final(self)@ == move_workflows(old(self)@, false),
                _ => *final(self) == *old(self),
            },
            final(self).workflows == old(self).workflows,
    {
        match action {
            Action::Up => {
                if let Some(selected) = self.state.selected() {
                    if selected > 0 {
                        self.state.select(Some(selected - 1));
                    }
                }
            },
            Action::Down => {
                if let Some(selected) = self.state.selected() {
                    if self.workflows.len() > 0 && selected < self.workflows.len() - 1 {
                        self.state.select(Some(selected + 1));
                    }
                } else if !self.workflows.is_empty() {
                    self.state.select(Some(0));
                }
            },
            _ => {},
        }
        None
    }
}

} // verus!
