//! Actions represent messages passed between components and the app.

use vstd::prelude::*;

verus! {

/// Actions represent messages passed between components and the app.
/// They decouple event handling from state mutations.
#[derive(Debug, Clone, PartialEq, Eq)]
pub enum Action {
    /// No-op, do nothing
    Noop,
    /// Quit the application
    Quit,
    /// Switch focus to the repo sidebar
    FocusSidebar,
    /// Switch focus to the main content panel
    FocusMain,
    /// Open the "Add Repo" modal
    OpenAddRepo,
    /// Close the current modal
    CloseModal,
    /// Confirm adding a repo with the given org/name
    AddRepo(String),
    /// Remove the currently selected repo
    RemoveRepo,
    /// Select a repo by index in the sidebar
    SelectRepo(usize),
    /// Switch to the Workflows tab
    TabWorkflows,
    /// Switch to the Runs tab
    TabRuns,
    /// Open the dispatch form for a workflow by index
    OpenDispatchForm(usize),
    /// Dispatch a workflow (workflow index, Vec of (key, value) pairs)
    DispatchWorkflow(usize, Vec<(String, String)>),
    /// Dispatch the last successful workflow again with the same repo/ref/inputs
    RerunLastWorkflow,
    /// Refresh the current view's data
    Refresh,
    /// Navigate up in a list
    Up,
    /// Navigate down in a list
    Down,
    /// Confirm / Enter
    Enter,
    /// Cycle to next form field
    NextField,
    /// Cycle to previous form field
    PrevField,
    /// Toggle a boolean field in the dispatch form
    ToggleField,
    /// Set a status message to display briefly
    StatusMessage(String),
    /// An error occurred
    Error(String),
}

/// The mathematical value of an [`Action`].
pub enum ActionView {
    Noop,
    Quit,
    FocusSidebar,
    FocusMain,
    OpenAddRepo,
    CloseModal,
    AddRepo(Seq<char>),
    RemoveRepo,
    SelectRepo(usize),
    TabWorkflows,
    TabRuns,
    OpenDispatchForm(usize),
    DispatchWorkflow(usize, Seq<(Seq<char>, Seq<char>)>),
    RerunLastWorkflow,
    Refresh,
    Up,
    Down,
    Enter,
    NextField,
    PrevField,
    ToggleField,
    StatusMessage(Seq<char>),
    Error(Seq<char>),
}

/// The characters of each pair of strings.
pub open spec fn pairs_view(v: Seq<(String, String)>) -> Seq<(Seq<char>, Seq<char>)> {
    v.map_values(|p: (String, String)| (p.0@, p.1@))
}

impl View for Action {
    type V = ActionView;

    open spec fn view(&self) -> ActionView {
        match self {
            Action::Noop => ActionView::Noop,
            Action::Quit => ActionView::Quit,
            Action::FocusSidebar => ActionView::FocusSidebar,
            Action::FocusMain => ActionView::FocusMain,
            Action::OpenAddRepo => ActionView::OpenAddRepo,
            Action::CloseModal => ActionView::CloseModal,
            Action::AddRepo(s) => ActionView::AddRepo(s@),
            Action::RemoveRepo => ActionView::RemoveRepo,
            Action::SelectRepo(i) => ActionView::SelectRepo(*i),
            Action::TabWorkflows => ActionView::TabWorkflows,
            Action::TabRuns => ActionView::TabRuns,
            Action::OpenDispatchForm(i) => ActionView::OpenDispatchForm(*i),
            Action::DispatchWorkflow(i, v) => ActionView::DispatchWorkflow(*i, pairs_view(v@)),
            Action::RerunLastWorkflow => ActionView::RerunLastWorkflow,
            Action::Refresh => ActionView::Refresh,
            Action::Up => ActionView::Up,
            Action::Down => ActionView::Down,
            Action::Enter => ActionView::Enter,
            Action::NextField => ActionView::NextField,
            Action::PrevField => ActionView::PrevField,
            Action::ToggleField => ActionView::ToggleField,
            Action::StatusMessage(s) => ActionView::StatusMessage(s@),
            Action::Error(s) => ActionView::Error(s@),
        }
    }
}

} // verus!
