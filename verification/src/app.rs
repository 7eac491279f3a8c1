//! The application state and the decisions taken on keys, actions and
//! background results.
//!
//! The work that the decisions ask for (calling `gh`, saving the repository
//! list, loading in the background) is handed back as [`Effect`]s for the
//! caller to perform; what that work gives is handed in again through
//! [`App::on_repo_validated`], [`App::on_dispatch_result`] and
//! [`App::process_bg_results`].

use vstd::prelude::*;
use vstd::hash_map::StringHashMap;
use crate::action::{Action, ActionView, pairs_view};
use crate::components::Component;
use crate::components::add_repo::{AddRepoModal, AddRepoModalView, add_repo_key, modal_reset};
use crate::components::dispatch_form::{DispatchForm, DispatchFormView, form_close, form_key, form_next, form_open, form_prev};
use crate::components::repo_list::{RepoList, RepoListView, list_add, list_remove, repo_list_key, repo_list_move, selected_name};
use crate::components::run_list::{RunList, RunListView, clear_runs, move_runs, run_list_key, show_run_error, show_runs};
use crate::components::workflow_list::{
    WorkflowList, WorkflowListView, clear_workflows, move_workflows, show_workflow_error, show_workflows,
    workflow_list_key,
};
use crate::input::Key;
use crate::model::repo::Repo;
use crate::model::run::WorkflowRun;
use crate::model::workflow::{Workflow, WorkflowView, clone_workflows, opt_view, workflows_view};
use crate::text::{concat2, concat3};

verus! {

/// Results from background gh CLI calls.
#[derive(Debug)]
pub enum BgResult {
    WorkflowsLoaded(String, Result<Vec<Workflow>, String>),
    RunsLoaded(String, Result<Vec<WorkflowRun>, String>),
    DefaultBranchLoaded(String, String),
}

/// Which panel currently has focus.
#[derive(Debug, Clone, Copy, PartialEq, Eq, Structural)]
pub enum Focus {
    Sidebar,
    Main,
}

/// Which tab is active in the main panel.
#[derive(Debug, Clone, Copy, PartialEq, Eq, Structural)]
pub enum MainTab {
    Workflows,
    Runs,
}

/// Work that a decision asks the caller to perform.
#[derive(Debug, PartialEq, Eq)]
pub enum Effect {
    /// Save the repository list (`repo_list.repos`).
    SaveRepos,
    /// Check with `gh` that the repository exists; hand the answer to
    /// [`App::on_repo_validated`].
    ValidateRepo(String),
    /// Load the dispatchable workflows of a repository in the background;
    /// hand the result in as [`BgResult::WorkflowsLoaded`].
    LoadWorkflows(String),
    /// Load the recent runs of a repository in the background; hand the
    /// result in as [`BgResult::RunsLoaded`].
    LoadRuns(String),
    /// Fetch the default branch of a repository in the background; hand the
    /// result in as [`BgResult::DefaultBranchLoaded`].
    FetchDefaultBranch(String),
    /// Dispatch a workflow with `gh`; hand the outcome to
    /// [`App::on_dispatch_result`].
    DispatchWorkflow { repo: String, workflow: String, ref_name: String, inputs: Vec<(String, String)> },
}

/// A dispatch of a workflow: the repository, the workflow, the ref and the
/// input values.
#[derive(Debug, PartialEq, Eq)]
pub struct DispatchRequest {
    pub repo: String,
    pub workflow: String,
    pub ref_name: String,
    pub inputs: Vec<(String, String)>,
}

/// The mathematical value of a [`DispatchRequest`].
pub struct DispatchRequestView {
    pub repo: Seq<char>,
    pub workflow: Seq<char>,
    pub ref_name: Seq<char>,
    pub inputs: Seq<(Seq<char>, Seq<char>)>,
}

impl View for DispatchRequest {
    type V = DispatchRequestView;

    open spec fn view(&self) -> DispatchRequestView {
        DispatchRequestView {
            repo: self.repo@,
            workflow: self.workflow@,
            ref_name: self.ref_name@,
            inputs: pairs_view(self.inputs@),
        }
    }
}

/// The view of an optional dispatch.
pub open spec fn opt_request_view(d: Option<DispatchRequest>) -> Option<DispatchRequestView> {
    match d {
        Some(d) => Some(d@),
        None => None,
    }
}

pub struct App {
    pub running: bool,
    pub focus: Focus,
    pub active_tab: MainTab,
    pub repo_list: RepoList,
    pub workflow_list: WorkflowList,
    pub run_list: RunList,
    pub add_repo_modal: AddRepoModal,
    pub dispatch_form: DispatchForm,
    pub status_message: Option<String>,
    pub workflow_cache: StringHashMap<Vec<Workflow>>,
    pub run_cache: StringHashMap<Vec<WorkflowRun>>,
    pub default_branches: StringHashMap<String>,
    pub current_repo: Option<String>,
    /// The last dispatch that succeeded, which `RerunLastWorkflow` repeats.
    pub last_dispatch: Option<DispatchRequest>,
}

/// The mathematical value of a [`BgResult`].
pub enum BgResultView {
    WorkflowsLoaded(Seq<char>, Result<Seq<WorkflowView>, Seq<char>>),
    RunsLoaded(Seq<char>, Result<Seq<WorkflowRun>, Seq<char>>),
    DefaultBranchLoaded(Seq<char>, Seq<char>),
}

impl View for BgResult {
    type V = BgResultView;

    open spec fn view(&self) -> BgResultView {
        match self {
            BgResult::WorkflowsLoaded(n, Ok(w)) => BgResultView::WorkflowsLoaded(n@, Ok(workflows_view(w@))),
            BgResult::WorkflowsLoaded(n, Err(e)) => BgResultView::WorkflowsLoaded(n@, Err(e@)),
            BgResult::RunsLoaded(n, Ok(r)) => BgResultView::RunsLoaded(n@, Ok(r@)),
            BgResult::RunsLoaded(n, Err(e)) => BgResultView::RunsLoaded(n@, Err(e@)),
            BgResult::DefaultBranchLoaded(n, b) => BgResultView::DefaultBranchLoaded(n@, b@),
        }
    }
}

/// The mathematical value of an [`Effect`].
pub enum EffectView {
    SaveRepos,
    ValidateRepo(Seq<char>),
    LoadWorkflows(Seq<char>),
    LoadRuns(Seq<char>),
    FetchDefaultBranch(Seq<char>),
    DispatchWorkflow { repo: Seq<char>, workflow: Seq<char>, ref_name: Seq<char>, inputs: Seq<(Seq<char>, Seq<char>)> },
}

impl View for Effect {
    type V = EffectView;

    open spec fn view(&self) -> EffectView {
        match self {
            Effect::SaveRepos => EffectView::SaveRepos,
            Effect::ValidateRepo(n) => EffectView::ValidateRepo(n@),
            Effect::LoadWorkflows(n) => EffectView::LoadWorkflows(n@),
            Effect::LoadRuns(n) => EffectView::LoadRuns(n@),
            Effect::FetchDefaultBranch(n) => EffectView::FetchDefaultBranch(n@),
            Effect::DispatchWorkflow { repo, workflow, ref_name, inputs } => EffectView::DispatchWorkflow {
                repo: repo@,
                workflow: workflow@,
                ref_name: ref_name@,
                inputs: pairs_view(inputs@),
            },
        }
    }
}

/// The views of some effects.
pub open spec fn effects_view(v: Seq<Effect>) -> Seq<EffectView> {
    v.map_values(|e: Effect| e@)
}

/// The mathematical value of an [`App`].
pub struct AppView {
    pub running: bool,
    pub focus: Focus,
    pub active_tab: MainTab,
    pub repo_list: RepoListView,
    pub workflow_list: WorkflowListView,
    pub run_list: RunListView,
    pub add_repo_modal: AddRepoModalView,
    pub dispatch_form: DispatchFormView,
    pub status_message: Option<Seq<char>>,
    pub workflow_cache: Map<Seq<char>, Seq<WorkflowView>>,
    pub run_cache: Map<Seq<char>, Seq<WorkflowRun>>,
    pub default_branches: Map<Seq<char>, Seq<char>>,
    pub current_repo: Option<Seq<char>>,
    pub last_dispatch: Option<DispatchRequestView>,
}

/// The view of the workflow cache.
pub open spec fn workflow_cache_view(m: Map<Seq<char>, Vec<Workflow>>) -> Map<Seq<char>, Seq<WorkflowView>> {
    m.map_values(|w: Vec<Workflow>| workflows_view(w@))
}

/// The view of the run cache.
pub open spec fn run_cache_view(m: Map<Seq<char>, Vec<WorkflowRun>>) -> Map<Seq<char>, Seq<WorkflowRun>> {
    m.map_values(|r: Vec<WorkflowRun>| r@)
}

/// The view of the default branches.
pub open spec fn branches_view(m: Map<Seq<char>, String>) -> Map<Seq<char>, Seq<char>> {
    m.map_values(|s: String| s@)
}

impl View for App {
    type V = AppView;

    open spec fn view(&self) -> AppView {
        AppView {
            running: self.running,
            focus: self.focus,
            active_tab: self.active_tab,
            repo_list: self.repo_list@,
            workflow_list: self.workflow_list@,
            run_list: self.run_list@,
            add_repo_modal: self.add_repo_modal@,
            dispatch_form: self.dispatch_form@,
            status_message: opt_view(self.status_message),
            workflow_cache: workflow_cache_view(self.workflow_cache@),
            run_cache: run_cache_view(self.run_cache@),
            default_branches: branches_view(self.default_branches@),
            current_repo: opt_view(self.current_repo),
            last_dispatch: opt_request_view(self.last_dispatch),
        }
    }
}

/// The selected repository's workflows shown: from the cache when they are
/// there, otherwise the list shows it is loading and a background load is
/// asked for. With no repository selected the list is emptied.
pub open spec fn load_workflows(v: AppView) -> (AppView, Seq<EffectView>) {
    match selected_name(v.repo_list) {
        Some(name) => {
            let v1 = AppView { current_repo: Some(name), ..v };
            if v.workflow_cache.contains_key(name) {
                (AppView { workflow_list: show_workflows(v.workflow_list, v.workflow_cache[name]), ..v1 }, Seq::empty())
            } else {
                (
                    AppView { workflow_list: WorkflowListView { loading: true, ..v.workflow_list }, ..v1 },
                    seq![EffectView::LoadWorkflows(name)],
                )
            }
        },
        None => (AppView { current_repo: None, workflow_list: clear_workflows(v.workflow_list), ..v }, Seq::empty()),
    }
}

/// The selected repository's runs shown, as [`load_workflows`] does for
/// workflows.
pub open spec fn load_runs(v: AppView) -> (AppView, Seq<EffectView>) {
    match selected_name(v.repo_list) {
        Some(name) => {
            let v1 = AppView { current_repo: Some(name), ..v };
            if v.run_cache.contains_key(name) {
                (AppView { run_list: show_runs(v.run_list, v.run_cache[name]), ..v1 }, Seq::empty())
            } else {
                (AppView { run_list: RunListView { loading: true, ..v.run_list }, ..v1 }, seq![EffectView::LoadRuns(name)])
            }
        },
        None => (AppView { current_repo: None, run_list: clear_runs(v.run_list), ..v }, Seq::empty()),
    }
}

/// Workflows, then runs, of the selected repository shown.
pub open spec fn load_selected(v: AppView) -> (AppView, Seq<EffectView>) {
    let (v1, e1) = load_workflows(v);
    let (v2, e2) = load_runs(v1);
    (v2, e1 + e2)
}

/// The default branch of the selected repository when it is known;
/// otherwise `main`, and a background fetch when a repository is selected.
pub open spec fn default_branch_for(v: AppView) -> (Seq<char>, Seq<EffectView>) {
    match selected_name(v.repo_list) {
        Some(name) => if v.default_branches.contains_key(name) {
            (v.default_branches[name], Seq::empty())
        } else {
            ("main"@, seq![EffectView::FetchDefaultBranch(name)])
        },
        None => ("main"@, Seq::empty()),
    }
}

/// Focus on the sidebar.
pub open spec fn focus_sidebar(v: AppView) -> AppView {
    AppView {
        focus: Focus::Sidebar,
        repo_list: RepoListView { focused: true, ..v.repo_list },
        workflow_list: WorkflowListView { focused: false, ..v.workflow_list },
        run_list: RunListView { focused: false, ..v.run_list },
        ..v
    }
}

/// Focus on the main panel, on the list of the active tab.
pub open spec fn focus_main(v: AppView) -> AppView {
    AppView {
        focus: Focus::Main,
        repo_list: RepoListView { focused: false, ..v.repo_list },
        workflow_list: WorkflowListView { focused: v.active_tab == MainTab::Workflows, ..v.workflow_list },
        run_list: RunListView { focused: v.active_tab == MainTab::Runs, ..v.run_list },
        ..v
    }
}

/// The Workflows tab made active.
pub open spec fn tab_workflows(v: AppView) -> AppView {
    AppView {
        active_tab: MainTab::Workflows,
        workflow_list: WorkflowListView { focused: v.focus == Focus::Main, ..v.workflow_list },
        run_list: RunListView { focused: false, ..v.run_list },
        ..v
    }
}

/// The Runs tab made active.
pub open spec fn tab_runs(v: AppView) -> AppView {
    AppView {
        active_tab: MainTab::Runs,
        workflow_list: WorkflowListView { focused: false, ..v.workflow_list },
        run_list: RunListView { focused: v.focus == Focus::Main, ..v.run_list },
        ..v
    }
}

/// The caches of a repository dropped.
pub open spec fn forget_repo(v: AppView, name: Seq<char>) -> AppView {
    AppView {
        workflow_cache: v.workflow_cache.remove(name),
        run_cache: v.run_cache.remove(name),
        default_branches: v.default_branches.remove(name),
        ..v
    }
}

/// The selected repository removed: its caches dropped, the list saved, the
/// panels emptied and filled again for the repository selected next.
pub open spec fn remove_repo(v: AppView) -> (AppView, Seq<EffectView>) {
    let (rl, removed) = list_remove(v.repo_list);
    match removed {
        None => (v, Seq::empty()),
        Some(name) => {
            let v1 = AppView {
                repo_list: rl,
                status_message: Some("Removed "@ + name),
                workflow_list: clear_workflows(v.workflow_list),
                run_list: clear_runs(v.run_list),
                ..forget_repo(v, name)
            };
            let (v2, e) = load_selected(v1);
            (v2, seq![EffectView::SaveRepos] + e)
        },
    }
}

/// The data of the selected repository dropped and loaded again.
pub open spec fn refresh(v: AppView) -> (AppView, Seq<EffectView>) {
    let v1 = match selected_name(v.repo_list) {
        Some(name) => forget_repo(v, name),
        None => v,
    };
    let (v2, e) = load_selected(v1);
    (AppView { status_message: Some("Refreshing..."@), ..v2 }, e)
}

/// The dispatch form opened on the workflow at `idx`, if there is one.
pub open spec fn open_dispatch_form(v: AppView, idx: usize) -> (AppView, Seq<EffectView>) {
    if idx < v.workflow_list.workflows.len() {
        let (branch, e) = default_branch_for(v);
        (
            AppView {
                dispatch_form: form_open(v.dispatch_form, v.workflow_list.workflows[idx as int], idx, branch),
                ..v
            },
            e,
        )
    } else {
        (v, Seq::empty())
    }
}

/// The dispatch of the form's workflow on the selected repository, with the
/// form's ref and the given values.
pub open spec fn dispatch_request(v: AppView, values: Seq<(Seq<char>, Seq<char>)>) -> Seq<EffectView> {
    match (selected_name(v.repo_list), v.dispatch_form.workflow) {
        (Some(repo), Some(w)) => seq![
            EffectView::DispatchWorkflow {
                repo,
                workflow: w.name,
                ref_name: v.dispatch_form.ref_input.value,
                inputs: values,
            },
        ],
        _ => Seq::empty(),
    }
}

/// A move up or down, for the form when it is open (where it does nothing),
/// the sidebar (selecting the repository moved to), or the active list.
pub open spec fn app_move(v: AppView, up: bool) -> (AppView, Seq<EffectView>) {
    if v.dispatch_form.visible {
        (v, Seq::empty())
    } else if v.focus == Focus::Sidebar {
        let (rl, follow) = repo_list_move(v.repo_list, up);
        let v1 = AppView { repo_list: rl, ..v };
        match follow {
            Some(_) => load_selected(v1),
            None => (v1, Seq::empty()),
        }
    } else {
        match v.active_tab {
            MainTab::Workflows => (AppView { workflow_list: move_workflows(v.workflow_list, up), ..v }, Seq::empty()),
            MainTab::Runs => (AppView { run_list: move_runs(v.run_list, up), ..v }, Seq::empty()),
        }
    }
}

/// The repository at `i` selected, and its workflows and runs shown; an
/// index past the end of the list changes nothing.
pub open spec fn select_repo(v: AppView, i: usize) -> (AppView, Seq<EffectView>) {
    if i < v.repo_list.repos.len() {
        load_selected(AppView { repo_list: RepoListView { selected: Some(i), ..v.repo_list }, ..v })
    } else {
        (v, Seq::empty())
    }
}

/// The last successful dispatch asked for again, with the same repository,
/// workflow, ref and inputs; nothing when no dispatch has succeeded yet.
pub open spec fn rerun_request(v: AppView) -> Seq<EffectView> {
    match v.last_dispatch {
        Some(d) => seq![
            EffectView::DispatchWorkflow { repo: d.repo, workflow: d.workflow, ref_name: d.ref_name, inputs: d.inputs },
        ],
        None => Seq::empty(),
    }
}

/// What an action does to the application, and the work it asks for.
pub open spec fn app_update(v: AppView, a: ActionView) -> (AppView, Seq<EffectView>) {
    match a {
        ActionView::Quit => (AppView { running: false, ..v }, Seq::empty()),
        ActionView::FocusSidebar => (focus_sidebar(v), Seq::empty()),
        ActionView::FocusMain => (focus_main(v), Seq::empty()),
        ActionView::OpenAddRepo => (AppView { add_repo_modal: modal_reset(true), ..v }, Seq::empty()),
        ActionView::AddRepo(name) => (v, seq![EffectView::ValidateRepo(name)]),
        ActionView::RemoveRepo => remove_repo(v),
        ActionView::SelectRepo(i) => select_repo(v, i),
        ActionView::TabWorkflows => (tab_workflows(v), Seq::empty()),
        ActionView::TabRuns => (tab_runs(v), Seq::empty()),
        ActionView::OpenDispatchForm(idx) => open_dispatch_form(v, idx),
        ActionView::DispatchWorkflow(_, values) => (v, dispatch_request(v, values)),
        ActionView::RerunLastWorkflow => (v, rerun_request(v)),
        ActionView::Refresh => refresh(v),
        ActionView::StatusMessage(m) => (AppView { status_message: Some(m), ..v }, Seq::empty()),
        ActionView::Error(m) => (AppView { status_message: Some("Error: "@ + m), ..v }, Seq::empty()),
        ActionView::Up => app_move(v, true),
        ActionView::Down => app_move(v, false),
        ActionView::NextField => if v.dispatch_form.visible {
            (AppView { dispatch_form: form_next(v.dispatch_form), ..v }, Seq::empty())
        } else {
            (v, Seq::empty())
        },
        ActionView::PrevField => if v.dispatch_form.visible {
            (AppView { dispatch_form: form_prev(v.dispatch_form), ..v }, Seq::empty())
        } else {
            (v, Seq::empty())
        },
        _ => (v, Seq::empty()),
    }
}

/// The answer to a repository check handled: a repository that exists is
/// added, saved, selected (the last row) and loaded, and the modal closes;
/// otherwise the modal shows why.
pub open spec fn repo_validated(v: AppView, result: Result<Seq<char>, Seq<char>>) -> (AppView, Seq<EffectView>) {
    match result {
        Ok(name) => {
            let rl = list_add(v.repo_list, name);
            let v1 = AppView {
                repo_list: RepoListView { selected: Some((rl.repos.len() - 1) as usize), ..rl },
                add_repo_modal: modal_reset(false),
                status_message: Some("Added "@ + name),
                ..v
            };
            let (v2, e) = load_selected(v1);
            (v2, seq![EffectView::SaveRepos] + e)
        },
        Err(e) => (
            AppView {
                add_repo_modal: AddRepoModalView { loading: false, error_msg: Some("Not found: "@ + e), ..v.add_repo_modal },
                ..v
            },
            Seq::empty(),
        ),
    }
}

/// The outcome of a dispatch handled: on success the dispatch is kept as
/// the one to repeat, the form closes, the Runs tab shows, and the runs of
/// `repo` are loaded afresh; on failure the form shows why and can be used
/// again.
pub open spec fn dispatch_done(v: AppView, d: DispatchRequestView, result: Result<(), Seq<char>>) -> (
    AppView,
    Seq<EffectView>,
) {
    let repo = d.repo;
    let workflow = d.workflow;
    match result {
        Ok(_) => load_runs(
            AppView {
                last_dispatch: Some(d),
                dispatch_form: form_close(v.dispatch_form),
                status_message: Some("Dispatched '"@ + workflow + "'"@),
                active_tab: MainTab::Runs,
                run_list: RunListView { focused: v.focus == Focus::Main, ..v.run_list },
                workflow_list: WorkflowListView { focused: false, ..v.workflow_list },
                run_cache: v.run_cache.remove(repo),
                ..v
            },
        ),
        Err(e) => (
            AppView {
                dispatch_form: DispatchFormView {
                    dispatching: false,
                    error_msg: Some("Dispatch failed: "@ + e),
                    ..v.dispatch_form
                },
                ..v
            },
            Seq::empty(),
        ),
    }
}

/// One background result taken in: loaded data is cached, and shown when
/// it is for the repository on display; an error is shown when it is for
/// that repository.
pub open spec fn apply_bg(v: AppView, r: BgResultView) -> AppView {
    match r {
        BgResultView::WorkflowsLoaded(name, Ok(w)) => AppView {
            workflow_cache: v.workflow_cache.insert(name, w),
            workflow_list: if v.current_repo == Some(name) {
                show_workflows(v.workflow_list, w)
            } else {
                v.workflow_list
            },
            ..v
        },
        BgResultView::WorkflowsLoaded(name, Err(e)) => if v.current_repo == Some(name) {
            AppView { workflow_list: show_workflow_error(v.workflow_list, e), ..v }
        } else {
            v
        },
        BgResultView::RunsLoaded(name, Ok(runs)) => AppView {
            run_cache: v.run_cache.insert(name, runs),
            run_list: if v.current_repo == Some(name) {
                show_runs(v.run_list, runs)
            } else {
                v.run_list
            },
            ..v
        },
        BgResultView::RunsLoaded(name, Err(e)) => if v.current_repo == Some(name) {
            AppView { run_list: show_run_error(v.run_list, e), ..v }
        } else {
            v
        },
        BgResultView::DefaultBranchLoaded(name, branch) => AppView {
            default_branches: v.default_branches.insert(name, branch),
            ..v
        },
    }
}

/// The views of some background results.
pub open spec fn bg_views(v: Seq<BgResult>) -> Seq<BgResultView> {
    v.map_values(|r: BgResult| r@)
}

/// Background results taken in, in order.
pub open spec fn apply_bgs(v: AppView, rs: Seq<BgResultView>) -> AppView
    decreases rs.len(),
{
    if rs.len() == 0 {
        v
    } else {
        apply_bg(apply_bgs(v, rs.drop_last()), rs.last())
    }
}

/// The action that switches from the active tab to the other one.
pub open spec fn other_tab(t: MainTab) -> ActionView {
    match t {
        MainTab::Workflows => ActionView::TabRuns,
        MainTab::Runs => ActionView::TabWorkflows,
    }
}

/// Where a key press goes: to the dispatch form when it is open, else to
/// the add-repository modal when it is open, else to the focused panel.
/// Tab switches tabs from the sidebar too.
pub open spec fn app_key(v: AppView, key: Key) -> (AppView, ActionView) {
    if v.dispatch_form.visible {
        let (f, a) = form_key(v.dispatch_form, key);
        (AppView { dispatch_form: f, ..v }, a)
    } else if v.add_repo_modal.visible {
        let (m, a) = add_repo_key(v.add_repo_modal, key);
        (AppView { add_repo_modal: m, ..v }, a)
    } else {
        match v.focus {
            Focus::Sidebar => if v.repo_list.focused && key.code is Tab {
                (v, other_tab(v.active_tab))
            } else {
                (v, repo_list_key(v.repo_list.focused, key))
            },
            Focus::Main => match v.active_tab {
                MainTab::Workflows => (v, workflow_list_key(v.workflow_list, key)),
                MainTab::Runs => (v, run_list_key(v.run_list, key)),
            },
        }
    }
}

/// What the application does at start: when a repository is selected, the
/// first repository is selected and loaded.
pub open spec fn app_start(v: AppView) -> (AppView, Seq<EffectView>) {
    if selected_name(v.repo_list) is Some {
        app_update(v, ActionView::SelectRepo(0))
    } else {
        (v, Seq::empty())
    }
}

/// Whether a key press is Ctrl+C.
pub open spec fn is_ctrl_c(key: Key) -> bool {
    key.code == crate::input::KeyCode::Char('c') && crate::input::holds_modifier(key.modifiers, crate::input::CONTROL)
}

/// What a key press does: Ctrl+C always quits; any other key goes where
/// [`app_key`] sends it, and the action it stands for, unless it is `Noop`,
/// is carried out.
pub open spec fn app_key_press(v: AppView, key: Key) -> (AppView, Seq<EffectView>) {
    if is_ctrl_c(key) {
        (AppView { running: false, ..v }, Seq::empty())
    } else {
        let (v1, a) = app_key(v, key);
        if a is Noop {
            (v1, Seq::empty())
        } else {
            app_update(v1, a)
        }
    }
}

/// The repository list after the saved repositories `names` were added in
/// order, the first selected when there is one.
pub open spec fn loaded_list(v: RepoListView, names: Seq<Seq<char>>) -> RepoListView
    decreases names.len(),
{
    if names.len() == 0 {
        v
    } else {
        list_add(loaded_list(v, names.drop_last()), names.last())
    }
}

/// The state the application starts in.
pub open spec fn initial_app() -> AppView {
    AppView {
        running: true,
        focus: Focus::Sidebar,
        active_tab: MainTab::Workflows,
        repo_list: RepoListView { repos: Seq::empty(), selected: None, focused: true },
        workflow_list: WorkflowListView {
            workflows: Seq::empty(),
            selected: None,
            focused: false,
            loading: false,
            error: None,
        },
        run_list: RunListView { runs: Seq::empty(), selected: None, focused: false, loading: false, error: None },
        add_repo_modal: modal_reset(false),
        dispatch_form: DispatchFormView {
            visible: false,
            workflow: None,
            workflow_index: 0,
            fields: Seq::empty(),
            focused_field: 0,
            ref_input: crate::input::input_with("main"@),
            ref_focused: true,
            button_focused: false,
            error_msg: None,
            dispatching: false,
        },
        status_message: None,
        workflow_cache: Map::empty(),
        run_cache: Map::empty(),
        default_branches: Map::empty(),
        current_repo: None,
        last_dispatch: None,
    }
}

fn clone_runs(v: &Vec<WorkflowRun>) -> (r: Vec<WorkflowRun>)
    ensures
        r@ == v@,
{
    let r = v.clone();
    assert(r@ =~= v@) by {
        assert forall|i: int| 0 <= i < r@.len() implies r@[i] == v@[i] by {
            assert(cloned::<WorkflowRun>(v[i], r[i]));
        }
    }
    r
}

fn clone_pairs(v: &Vec<(String, String)>) -> (r: Vec<(String, String)>)
    ensures
        pairs_view(r@) == pairs_view(v@),
{
    let mut r: Vec<(String, String)> = Vec::new();
    let mut i: usize = 0;
    while i < v.len()
        invariant
            i <= v@.len(),
            pairs_view(r@) == pairs_view(v@.take(i as int)),
        decreases v@.len() - i,
    {
        let ghost prev = r@;
        let k = v[i].0.as_str().to_owned();
        let x = v[i].1.as_str().to_owned();
        r.push((k, x));
        assert(r@ == prev.push((k, x)));
        assert(v@.take(i as int + 1) =~= v@.take(i as int).push(v@[i as int]));
        assert(pairs_view(r@) =~= pairs_view(prev).push((v@[i as int].0@, v@[i as int].1@)));
        assert(pairs_view(v@.take(i as int + 1)) =~= pairs_view(v@.take(i as int)).push((v@[i as int].0@, v@[i as int].1@)));
        i = i + 1;
    }
    assert(v@.take(v@.len() as int) =~= v@);
    r
}

impl App {
    pub fn new() -> (r: Self)
        ensures
            r@ == initial_app(),
    {
        let r = App {
            running: true,
            focus: Focus::Sidebar,
            active_tab: MainTab::Workflows,
            repo_list: RepoList::new(),
            workflow_list: WorkflowList::new(),
            run_list: RunList::new(),
            add_repo_modal: AddRepoModal::new(),
            dispatch_form: DispatchForm::new(),
            status_message: None,
            workflow_cache: StringHashMap::new(),
            run_cache: StringHashMap::new(),
            default_branches: StringHashMap::new(),
            current_repo: None,
            last_dispatch: None,
        };
        assert(r@.workflow_cache =~= Map::empty());
        assert(r@.run_cache =~= Map::empty());
        assert(r@.default_branches =~= Map::empty());
        r
    }

    /// Takes in the saved repositories: each is added in order, and the
    /// first row is selected when there is one.
    pub fn load_repos(&mut self, repos: Vec<Repo>)
        ensures
            final(self)@ == (AppView {
                repo_list: {
                    let l = loaded_list(old(self)@.repo_list, crate::components::repo_list::repo_names(repos@));
                    if l.repos.len() > 0 {
                        RepoListView { selected: Some(0), ..l }
                    } else {
                        l
                    }
                },
                ..old(self)@
            }),
    {
        let ghost names = crate::components::repo_list::repo_names(repos@);
        let ghost start = self.repo_list@;
        let ghost pre = self@;
        let mut i: usize = 0;
        while i < repos.len()
            invariant
                i <= repos@.len(),
                names == crate::components::repo_list::repo_names(repos@),
                self.repo_list@ == loaded_list(start, names.take(i as int)),
                self@ == (AppView { repo_list: self.repo_list@, ..pre }),
            decreases repos@.len() - i,
        {
            assert(names.take(i + 1).drop_last() =~= names.take(i as int));
            self.repo_list.add_repo(repos[i].clone());
            i = i + 1;
        }
        assert(names.take(repos@.len() as int) =~= names);
        if !self.repo_list.repos.is_empty() {
            self.repo_list.state.select(Some(0));
        }
    }

    /// Load dispatchable workflows for the currently selected repo.
    /// Uses cache if available, otherwise asks for a background load.
    fn load_workflows_for_selected(&mut self) -> (r: Vec<Effect>)
        ensures
            (final(self)@, effects_view(r@)) == load_workflows(old(self)@),
    {
        let name = match self.repo_list.selected_repo() {
            Some(repo) => Some(repo.full_name.clone()),
            None => None,
        };
        match name {
            Some(name) => {
                self.current_repo = Some(name.clone());
                match self.workflow_cache.get(name.as_str()) {
                    Some(cached) => {
                        let w = clone_workflows(cached);
                        self.workflow_list.set_workflows(w);
                        let r: Vec<Effect> = Vec::new();
                        assert(effects_view(r@) =~= Seq::<EffectView>::empty());
                        r
                    },
                    None => {
                        self.workflow_list.loading = true;
                        let r = vec![Effect::LoadWorkflows(name)];
                        assert(effects_view(r@) =~= seq![EffectView::LoadWorkflows(name@)]);
                        r
                    },
                }
            },
            None => {
                self.current_repo = None;
                self.workflow_list.clear();
                let r: Vec<Effect> = Vec::new();
                assert(effects_view(r@) =~= Seq::<EffectView>::empty());
                r
            },
        }
    }

    /// Load recent runs for the currently selected repo.
    /// Uses cache if available, otherwise asks for a background load.
    fn load_runs_for_selected(&mut self) -> (r: Vec<Effect>)
        ensures
            (final(self)@, effects_view(r@)) == load_runs(old(self)@),
    {
        let name = match self.repo_list.selected_repo() {
            Some(repo) => Some(repo.full_name.clone()),
            None => None,
        };
        match name {
            Some(name) => {
                self.current_repo = Some(name.clone());
                match self.run_cache.get(name.as_str()) {
                    Some(cached) => {
                        let runs = clone_runs(cached);
                        self.run_list.set_runs(runs);
                        let r: Vec<Effect> = Vec::new();
                        assert(effects_view(r@) =~= Seq::<EffectView>::empty());
                        r
                    },
                    None => {
                        self.run_list.loading = true;
                        let r = vec![Effect::LoadRuns(name)];
                        assert(effects_view(r@) =~= seq![EffectView::LoadRuns(name@)]);
                        r
                    },
                }
            },
            None => {
                self.current_repo = None;
                self.run_list.clear();
                let r: Vec<Effect> = Vec::new();
                assert(effects_view(r@) =~= Seq::<EffectView>::empty());
                r
            },
        }
    }

    /// Workflows, then runs, of the selected repository.
    fn load_selected(&mut self) -> (r: Vec<Effect>)
        ensures
            (final(self)@, effects_view(r@)) == load_selected(old(self)@),
    {
        let mut e1 = self.load_workflows_for_selected();
        let mut e2 = self.load_runs_for_selected();
        let ghost s1 = e1@;
        let ghost s2 = e2@;
        e1.append(&mut e2);
        assert(effects_view(e1@) =~= effects_view(s1) + effects_view(s2));
        e1
    }

    /// Get the default branch for the currently selected repo (cached).
    /// Falls back to "main" if not yet known, and then asks for a fetch.
    fn get_default_branch_for_selected(&self) -> (r: (String, Vec<Effect>))
        ensures
            (r.0@, effects_view(r.1@)) == default_branch_for(self@),
    {
        proof {
            reveal_strlit("main");
        }
        match self.repo_list.selected_repo() {
            Some(repo) => {
                let name = repo.full_name.clone();
                match self.default_branches.get(name.as_str()) {
                    Some(branch) => {
                        let r: Vec<Effect> = Vec::new();
                        assert(effects_view(r@) =~= Seq::<EffectView>::empty());
                        (branch.clone(), r)
                    },
                    None => {
                        let r = vec![Effect::FetchDefaultBranch(name)];
                        assert(effects_view(r@) =~= seq![EffectView::FetchDefaultBranch(repo.full_name@)]);
                        ("main".to_owned(), r)
                    },
                }
            },
            None => {
                let r: Vec<Effect> = Vec::new();
                assert(effects_view(r@) =~= Seq::<EffectView>::empty());
                ("main".to_owned(), r)
            },
        }
    }

    /// Drops the caches of a repository.
    fn forget_repo(&mut self, name: &str)
        ensures
            final(self)@ == forget_repo(old(self)@, name@),
    {
        self.workflow_cache.remove(name);
        self.run_cache.remove(name);
        self.default_branches.remove(name);
        assert(final(self)@.workflow_cache =~= old(self)@.workflow_cache.remove(name@));
        assert(final(self)@.run_cache =~= old(self)@.run_cache.remove(name@));
        assert(final(self)@.default_branches =~= old(self)@.default_branches.remove(name@));
    }

    fn remove_repo(&mut self) -> (r: Vec<Effect>)
        ensures
            (final(self)@, effects_view(r@)) == remove_repo(old(self)@),
    {
        match self.repo_list.remove_selected() {
            Some(removed) => {
                self.forget_repo(removed.full_name.as_str());
                self.status_message = Some(concat2("Removed ", removed.full_name.as_str()));
                self.workflow_list.clear();
                self.run_list.clear();
                let mut e = vec![Effect::SaveRepos];
                let mut rest = self.load_selected();
                let ghost s2 = rest@;
                e.append(&mut rest);
                assert(effects_view(e@) =~= seq![EffectView::SaveRepos] + effects_view(s2));
                e
            },
            None => {
                let r: Vec<Effect> = Vec::new();
                assert(effects_view(r@) =~= Seq::<EffectView>::empty());
                r
            },
        }
    }

    fn refresh(&mut self) -> (r: Vec<Effect>)
        ensures
            (final(self)@, effects_view(r@)) == refresh(old(self)@),
    {
        let name = match self.repo_list.selected_repo() {
            Some(repo) => Some(repo.full_name.clone()),
            None => None,
        };
        match name {
            Some(n) => self.forget_repo(n.as_str()),
            None => {},
        }
        let r = self.load_selected();
        proof {
            reveal_strlit("Refreshing...");
        }
        self.status_message = Some("Refreshing...".to_owned());
        r
    }

    fn open_dispatch_form(&mut self, idx: usize) -> (r: Vec<Effect>)
        ensures
            (final(self)@, effects_view(r@)) == open_dispatch_form(old(self)@, idx),
    {
        if idx < self.workflow_list.workflows.len() {
            let wf = self.workflow_list.workflows[idx].clone();
            let (branch, e) = self.get_default_branch_for_selected();
            self.dispatch_form.open(wf, idx, branch.as_str());
            e
        } else {
            let r: Vec<Effect> = Vec::new();
            assert(effects_view(r@) =~= Seq::<EffectView>::empty());
            r
        }
    }

    fn dispatch_request(&self, values: Vec<(String, String)>) -> (r: Vec<Effect>)
        ensures
            effects_view(r@) == dispatch_request(self@, pairs_view(values@)),
    {
        match (self.repo_list.selected_repo(), &self.dispatch_form.workflow) {
            (Some(repo), Some(wf)) => {
                let ref_name = self.dispatch_form.ref_input.value().to_owned();
                let r = vec![
                    Effect::DispatchWorkflow {
                        repo: repo.full_name.clone(),
                        workflow: wf.name.clone(),
                        ref_name,
                        inputs: values,
                    },
                ];
                assert(effects_view(r@) =~= dispatch_request(self@, pairs_view(values@)));
                r
            },
            _ => {
                let r: Vec<Effect> = Vec::new();
                assert(effects_view(r@) =~= Seq::<EffectView>::empty());
                r
            },
        }
    }

    fn rerun_request(&self) -> (r: Vec<Effect>)
        ensures
            effects_view(r@) == rerun_request(self@),
    {
        match &self.last_dispatch {
            Some(d) => {
                let r = vec![
                    Effect::DispatchWorkflow {
                        repo: d.repo.clone(),
                        workflow: d.workflow.clone(),
                        ref_name: d.ref_name.clone(),
                        inputs: clone_pairs(&d.inputs),
                    },
                ];
                assert(effects_view(r@) =~= rerun_request(self@));
                r
            },
            None => {
                let r: Vec<Effect> = Vec::new();
                assert(effects_view(r@) =~= Seq::<EffectView>::empty());
                r
            },
        }
    }

    fn move_selection(&mut self, action: &Action) -> (r: Vec<Effect>)
        requires
            *action == Action::Up || *action == Action::Down,
        ensures
            (final(self)@, effects_view(r@)) == app_move(old(self)@, *action == Action::Up),
    {
        if self.dispatch_form.visible {
            let _ = self.dispatch_form.update(action);
            let r: Vec<Effect> = Vec::new();
            assert(effects_view(r@) =~= Seq::<EffectView>::empty());
            r
        } else if self.focus == Focus::Sidebar {
            match self.repo_list.update(action) {
                Some(_) => self.load_selected(),
                None => {
                    let r: Vec<Effect> = Vec::new();
                    assert(effects_view(r@) =~= Seq::<EffectView>::empty());
                    r
                },
            }
        } else {
            match self.active_tab {
                MainTab::Workflows => {
                    let _ = self.workflow_list.update(action);
                },
                MainTab::Runs => {
                    let _ = self.run_list.update(action);
                },
            }
            let r: Vec<Effect> = Vec::new();
            assert(effects_view(r@) =~= Seq::<EffectView>::empty());
            r
        }
    }

    /// Handle a key event by dispatching to the appropriate component.
    pub fn handle_key_event(&mut self, key: Key) -> (r: Action)
        ensures
            (final(self)@, r@) == app_key(old(self)@, key),
    {
        if self.dispatch_form.visible {
            return self.dispatch_form.handle_key_event(key);
        }
        if self.add_repo_modal.visible {
            return self.add_repo_modal.handle_key_event(key);
        }
        match self.focus {
            Focus::Sidebar => {
                if self.repo_list.focused && key.code == crate::input::KeyCode::Tab {
                    match self.active_tab {
                        MainTab::Workflows => Action::TabRuns,
                        MainTab::Runs => Action::TabWorkflows,
                    }
                } else {
                    self.repo_list.handle_key_event(key)
                }
            },
            Focus::Main => match self.active_tab {
                MainTab::Workflows => self.workflow_list.handle_key_event(key),
                MainTab::Runs => self.run_list.handle_key_event(key),
            },
        }
    }

    /// Process an action; returns the work it asks for.
    #[verifier::rlimit(40)]
    pub fn update(&mut self, action: Action) -> (r: Vec<Effect>)
        ensures
            (final(self)@, effects_view(r@)) == app_update(old(self)@, action@),
    {
        let none: Vec<Effect> = Vec::new();
        assert(effects_view(none@) =~= Seq::<EffectView>::empty());
        match action {
            Action::Quit => {
                self.running = false;
                none
            },
            Action::FocusSidebar => {
                self.focus = Focus::Sidebar;
                self.repo_list.focused = true;
                self.workflow_list.focused = false;
                self.run_list.focused = false;
                none
            },
            Action::FocusMain => {
                self.focus = Focus::Main;
                self.repo_list.focused = false;
                match self.active_tab {
                    MainTab::Workflows => {
                        self.workflow_list.focused = true;
                        self.run_list.focused = false;
                    },
                    MainTab::Runs => {
                        self.workflow_list.focused = false;
                        self.run_list.focused = true;
                    },
                }
                none
            },
            Action::OpenAddRepo => {
                self.add_repo_modal.open();
                none
            },
            Action::AddRepo(name) => {
                let r = vec![Effect::ValidateRepo(name)];
                assert(effects_view(r@) =~= seq![EffectView::ValidateRepo(name@)]);
                r
            },
            Action::RemoveRepo => self.remove_repo(),
            Action::SelectRepo(i) => {
                if i < self.repo_list.repos.len() {
                    self.repo_list.state.select(Some(i));
                    self.load_selected()
                } else {
                    none
                }
            },
            Action::TabWorkflows => {
                self.active_tab = MainTab::Workflows;
                self.workflow_list.focused = self.focus == Focus::Main;
                self.run_list.focused = false;
                none
            },
            Action::TabRuns => {
                self.active_tab = MainTab::Runs;
                self.workflow_list.focused = false;
                self.run_list.focused = self.focus == Focus::Main;
                none
            },
            Action::OpenDispatchForm(idx) => self.open_dispatch_form(idx),
            Action::DispatchWorkflow(_, values) => self.dispatch_request(values),
            Action::RerunLastWorkflow => self.rerun_request(),
            Action::Refresh => self.refresh(),
            Action::StatusMessage(msg) => {
                self.status_message = Some(msg);
                none
            },
            Action::Error(msg) => {
                self.status_message = Some(concat2("Error: ", msg.as_str()));
                none
            },
            Action::Up => self.move_selection(&Action::Up),
            Action::Down => self.move_selection(&Action::Down),
            Action::NextField => {
                if self.dispatch_form.visible {
                    let _ = self.dispatch_form.update(&Action::NextField);
                }
                none
            },
            Action::PrevField => {
                if self.dispatch_form.visible {
                    let _ = self.dispatch_form.update(&Action::PrevField);
                }
                none
            },
            _ => none,
        }
    }

    /// Takes the answer of a repository check asked for by
    /// [`Effect::ValidateRepo`]; returns the work it asks for.
    pub fn on_repo_validated(&mut self, result: Result<Repo, String>) -> (r: Vec<Effect>)
        ensures
            (final(self)@, effects_view(r@)) == repo_validated(
                old(self)@,
                match result {
                    Ok(repo) => Ok(repo.full_name@),
                    Err(e) => Err(e@),
                },
            ),
    {
        match result {
            Ok(repo) => {
                let full_name = repo.full_name.clone();
                self.repo_list.add_repo(repo);
                self.add_repo_modal.close();
                self.status_message = Some(concat2("Added ", full_name.as_str()));
                assert(self@.repo_list.repos.contains(full_name@) || self@.repo_list.repos.len() > 0);
                let idx = self.repo_list.repos.len() - 1;
                self.repo_list.state.select(Some(idx));
                let mut e = vec![Effect::SaveRepos];
                let mut rest = self.load_selected();
                let ghost s2 = rest@;
                e.append(&mut rest);
                assert(effects_view(e@) =~= seq![EffectView::SaveRepos] + effects_view(s2));
                e
            },
            Err(e) => {
                self.add_repo_modal.loading = false;
                self.add_repo_modal.error_msg = Some(concat2("Not found: ", e.as_str()));
                let r: Vec<Effect> = Vec::new();
                assert(effects_view(r@) =~= Seq::<EffectView>::empty());
                r
            },
        }
    }

    /// Takes the outcome of the dispatch asked for by
    /// [`Effect::DispatchWorkflow`], whose fields `dispatch` holds; returns
    /// the work it asks for.
    pub fn on_dispatch_result(&mut self, dispatch: DispatchRequest, result: Result<(), String>) -> (r: Vec<Effect>)
        ensures
            (final(self)@, effects_view(r@)) == dispatch_done(
                old(self)@,
                dispatch@,
                match result {
                    Ok(_) => Ok(()),
                    Err(e) => Err(e@),
                },
            ),
    {
        match result {
            Ok(()) => {
                self.dispatch_form.close();
                self.status_message = Some(concat3("Dispatched '", dispatch.workflow.as_str(), "'"));
                self.active_tab = MainTab::Runs;
                self.run_list.focused = self.focus == Focus::Main;
                self.workflow_list.focused = false;
                self.run_cache.remove(dispatch.repo.as_str());
                assert(self@.run_cache =~= old(self)@.run_cache.remove(dispatch.repo@));
                self.last_dispatch = Some(dispatch);
                self.load_runs_for_selected()
            },
            Err(e) => {
                self.dispatch_form.dispatching = false;
                self.dispatch_form.error_msg = Some(concat2("Dispatch failed: ", e.as_str()));
                let r: Vec<Effect> = Vec::new();
                assert(effects_view(r@) =~= Seq::<EffectView>::empty());
                r
            },
        }
    }

    /// Takes in one background result.
    fn apply_bg_result(&mut self, result: BgResult)
        ensures
            final(self)@ == apply_bg(old(self)@, result@),
    {
        match result {
            BgResult::WorkflowsLoaded(repo_name, Ok(workflows)) => {
                let copy = clone_workflows(&workflows);
                let shown = match &self.current_repo {
                    Some(c) => *c == repo_name,
                    None => false,
                };
                self.workflow_cache.insert(repo_name, copy);
                assert(self@.workflow_cache =~= old(self)@.workflow_cache.insert(repo_name@, workflows_view(workflows@)));
                if shown {
                    self.workflow_list.set_workflows(workflows);
                }
            },
            BgResult::WorkflowsLoaded(repo_name, Err(err)) => {
                let shown = match &self.current_repo {
                    Some(c) => *c == repo_name,
                    None => false,
                };
                if shown {
                    self.workflow_list.set_error(err);
                }
            },
            BgResult::RunsLoaded(repo_name, Ok(runs)) => {
                let copy = clone_runs(&runs);
                let shown = match &self.current_repo {
                    Some(c) => *c == repo_name,
                    None => false,
                };
                self.run_cache.insert(repo_name, copy);
                assert(self@.run_cache =~= old(self)@.run_cache.insert(repo_name@, runs@));
                if shown {
                    self.run_list.set_runs(runs);
                }
            },
            BgResult::RunsLoaded(repo_name, Err(err)) => {
                let shown = match &self.current_repo {
                    Some(c) => *c == repo_name,
                    None => false,
                };
                if shown {
                    self.run_list.set_error(err);
                }
            },
            BgResult::DefaultBranchLoaded(repo_name, branch) => {
                let ghost b = branch@;
                self.default_branches.insert(repo_name, branch);
                assert(self@.default_branches =~= old(self)@.default_branches.insert(repo_name@, b));
            },
        }
    }

    /// Process the completed background results, in the order they came.
    pub fn process_bg_results(&mut self, results: Vec<BgResult>)
        ensures
            final(self)@ == apply_bgs(old(self)@, bg_views(results@)),
    {
        let ghost rs = bg_views(results@);
        let ghost start = self@;
        let mut results = results;
        let ghost mut k: int = 0;
        while results.len() > 0
            invariant
                0 <= k <= rs.len(),
                bg_views(results@) == rs.skip(k),
                self@ == apply_bgs(start, rs.take(k)),
            decreases results@.len(),
        {
            let ghost before = results@;
            let r = results.remove(0);
            proof {
                let mapped = bg_views(before);
                assert(mapped.len() == rs.len() - k);
                assert(mapped[0] == rs.skip(k)[0]);
                assert(rs.skip(k)[0] == rs[k]);
                assert(r@ == rs[k]);
                assert(results@ =~= before.subrange(1, before.len() as int));
                assert forall|i: int| 0 <= i < results@.len() implies #[trigger] bg_views(results@)[i] == rs.skip(k + 1)[i] by {
                    assert(results@[i] == before[i + 1]);
                    assert(mapped[i + 1] == rs.skip(k)[i + 1]);
                }
                assert(bg_views(results@) =~= rs.skip(k + 1));
                assert(rs.take(k + 1).drop_last() =~= rs.take(k));
            }
            self.apply_bg_result(r);
            proof {
                k = k + 1;
            }
        }
        assert(rs.take(k) =~= rs);
    }

    /// What is done at start: selecting and loading the first repository,
    /// when there is one.
    pub fn start(&mut self) -> (r: Vec<Effect>)
        ensures
            (final(self)@, effects_view(r@)) == app_start(old(self)@),
    {
        if self.repo_list.selected_repo().is_some() {
            self.update(Action::SelectRepo(0))
        } else {
            let r: Vec<Effect> = Vec::new();
            assert(effects_view(r@) =~= Seq::<EffectView>::empty());
            r
        }
    }

    /// Handles a key press from the terminal: Ctrl+C always quits, any other
    /// key is turned into an action, which is carried out unless it is
    /// `Noop`.
    pub fn key_pressed(&mut self, key: Key) -> (r: Vec<Effect>)
        ensures
            (final(self)@, effects_view(r@)) == app_key_press(old(self)@, key),
    {
        let none: Vec<Effect> = Vec::new();
        assert(effects_view(none@) =~= Seq::<EffectView>::empty());
        if key.code == crate::input::KeyCode::Char('c') && key.ctrl() {
            self.running = false;
            return none;
        }
        let action = self.handle_key_event(key);
        match action {
            Action::Noop => none,
            _ => self.update(action),
        }
    }
}

/// The line at the bottom of the screen: the last message, or the main keys.
pub open spec fn status_line(v: AppView) -> Seq<char> {
    match v.status_message {
        Some(m) => m,
        None => "q: quit | a: add repo | Tab: switch tab | r: refresh"@,
    }
}

/// The place of a tab among the tabs.
pub open spec fn tab_index(t: MainTab) -> usize {
    match t {
        MainTab::Workflows => 0,
        MainTab::Runs => 1,
    }
}

impl App {
    /// The line at the bottom of the screen.
    pub fn status_line(&self) -> (r: &str)
        ensures
            r@ == status_line(self@),
    {
        match &self.status_message {
            Some(m) => m.as_str(),
            None => "q: quit | a: add repo | Tab: switch tab | r: refresh",
        }
    }

    /// The place of the active tab among the tabs.
    pub fn selected_tab(&self) -> (r: usize)
        ensures
            r == tab_index(self.active_tab),
    {
        match self.active_tab {
            MainTab::Workflows => 0,
            MainTab::Runs => 1,
        }
    }
}

} // verus!
