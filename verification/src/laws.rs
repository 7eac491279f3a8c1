//! What holds of the library across calls: the invariants that every
//! operation keeps, and the ways operations undo or repeat one another.

use vstd::prelude::*;
use crate::action::ActionView;
use crate::app::{
    AppView, BgResultView, EffectView, Focus, MainTab, app_key, app_key_press, app_start, app_update, apply_bg,
    apply_bgs, dispatch_done, DispatchRequestView, initial_app, load_runs, load_selected, load_workflows, refresh, repo_validated,
};
use crate::components::{select_down, select_up, selection_in};
use crate::components::dispatch_form::{DispatchFormView, form_close, form_key, form_next, form_prev, form_try_dispatch, with_field_value};
use crate::components::repo_list::{RepoListView, list_add, list_remove, repo_list_move, repo_list_wf, selected_name};
use crate::input::Key;
use crate::components::add_repo::{AddRepoModalView, add_repo_key};
use crate::components::dispatch_form::{collected, form_problem};
use crate::text::{has_char, trim};

verus! {

/// The focus flags of the three panels agree with the focused side and the
/// active tab: exactly the panel that receives keys is marked focused.
pub open spec fn focus_consistent(v: AppView) -> bool {
    &&& v.repo_list.focused == (v.focus == Focus::Sidebar)
    &&& v.workflow_list.focused == (v.focus == Focus::Main && v.active_tab == MainTab::Workflows)
    &&& v.run_list.focused == (v.focus == Focus::Main && v.active_tab == MainTab::Runs)
}

/// The focus of the dispatch form is on exactly one of the ref field, an
/// existing input field, or the button.
pub open spec fn form_focus_wf(f: DispatchFormView) -> bool {
    &&& !(f.ref_focused && f.button_focused)
    &&& (!f.ref_focused && !f.button_focused ==> f.focused_field < f.fields.len())
}

/// A well-formed application state.
pub open spec fn app_wf(v: AppView) -> bool {
    &&& repo_list_wf(v.repo_list)
    &&& focus_consistent(v)
    &&& selection_in(v.workflow_list.selected, v.workflow_list.workflows.len())
    &&& selection_in(v.run_list.selected, v.run_list.runs.len())
    &&& (v.dispatch_form.visible ==> form_focus_wf(v.dispatch_form))
}

/// Adding a repository keeps the sidebar well-formed: no name twice.
pub proof fn lemma_list_add_wf(v: RepoListView, name: Seq<char>)
    requires
        repo_list_wf(v),
    ensures
        repo_list_wf(list_add(v, name)),
        list_add(v, name).repos.contains(name),
{
    let w = list_add(v, name);
    if !v.repos.contains(name) {
        assert forall|i: int, j: int| 0 <= i < j < w.repos.len() implies w.repos[i] != w.repos[j] by {
            if j == v.repos.len() {
                assert(w.repos[i] == v.repos[i]);
            }
        }
        assert(w.repos[v.repos.len() as int] == name);
    }
}

/// Removing the selected repository keeps the sidebar well-formed.
pub proof fn lemma_list_remove_wf(v: RepoListView)
    requires
        repo_list_wf(v),
    ensures
        repo_list_wf(list_remove(v).0),
{
    if let Some(i) = v.selected {
        let w = list_remove(v).0;
        assert forall|a: int, b: int| 0 <= a < b < w.repos.len() implies w.repos[a] != w.repos[b] by {
            let a1 = if a < i { a } else { a + 1 };
            let b1 = if b < i { b } else { b + 1 };
            assert(w.repos[a] == v.repos[a1]);
            assert(w.repos[b] == v.repos[b1]);
        }
    }
}

/// Moving in the sidebar keeps it well-formed.
pub proof fn lemma_list_move_wf(v: RepoListView, up: bool)
    requires
        repo_list_wf(v),
    ensures
        repo_list_wf(repo_list_move(v, up).0),
{
}

/// Loading the selected repository keeps the state well-formed.
pub proof fn lemma_load_selected_wf(v: AppView)
    requires
        app_wf(v),
    ensures
        app_wf(load_workflows(v).0),
        app_wf(load_runs(v).0),
        app_wf(load_selected(v).0),
{
    let v1 = load_workflows(v).0;
    assert(app_wf(v1));
    assert(app_wf(load_runs(v1).0));
}

/// Every key press of the dispatch form keeps its focus well-formed.
pub proof fn lemma_form_key_wf(f: DispatchFormView, key: Key)
    requires
        f.visible ==> form_focus_wf(f),
    ensures
        form_key(f, key).0.visible ==> form_focus_wf(form_key(f, key).0),
{
}

/// Removing the selected repository keeps the state well-formed.
pub proof fn lemma_remove_repo_wf(v: AppView)
    requires
        app_wf(v),
    ensures
        app_wf(crate::app::remove_repo(v).0),
{
    lemma_list_remove_wf(v.repo_list);
    let (rl, removed) = list_remove(v.repo_list);
    if let Some(name) = removed {
        let w = AppView {
            repo_list: rl,
            status_message: Some("Removed "@ + name),
            workflow_list: crate::components::workflow_list::clear_workflows(v.workflow_list),
            run_list: crate::components::run_list::clear_runs(v.run_list),
            ..crate::app::forget_repo(v, name)
        };
        assert(app_wf(w));
        lemma_load_selected_wf(w);
    }
}

/// Refreshing keeps the state well-formed.
pub proof fn lemma_refresh_wf(v: AppView)
    requires
        app_wf(v),
    ensures
        app_wf(refresh(v).0),
{
    let v1 = match selected_name(v.repo_list) {
        Some(name) => crate::app::forget_repo(v, name),
        None => v,
    };
    assert(app_wf(v1));
    lemma_load_selected_wf(v1);
}

/// Moving up or down keeps the state well-formed.
pub proof fn lemma_move_wf(v: AppView, up: bool)
    requires
        app_wf(v),
    ensures
        app_wf(crate::app::app_move(v, up).0),
{
    lemma_list_move_wf(v.repo_list, up);
    let (rl, _) = repo_list_move(v.repo_list, up);
    let v1 = AppView { repo_list: rl, ..v };
    assert(app_wf(v1));
    lemma_load_selected_wf(v1);
}

/// Opening the dispatch form keeps the state well-formed.
pub proof fn lemma_open_form_wf(v: AppView, idx: usize)
    requires
        app_wf(v),
    ensures
        app_wf(crate::app::open_dispatch_form(v, idx).0),
{
}

/// Every action keeps the application state well-formed.
#[verifier::rlimit(40)]
pub proof fn lemma_update_wf(v: AppView, a: ActionView)
    requires
        app_wf(v),
    ensures
        app_wf(app_update(v, a).0),
{
    match a {
        ActionView::RemoveRepo => lemma_remove_repo_wf(v),
        ActionView::Refresh => lemma_refresh_wf(v),
        ActionView::Up => lemma_move_wf(v, true),
        ActionView::Down => lemma_move_wf(v, false),
        ActionView::SelectRepo(i) => {
            if i < v.repo_list.repos.len() {
                let v1 = AppView { repo_list: RepoListView { selected: Some(i), ..v.repo_list }, ..v };
                assert(app_wf(v1));
                lemma_load_selected_wf(v1);
            }
        },
        ActionView::OpenDispatchForm(idx) => lemma_open_form_wf(v, idx),
        _ => {},
    }
}

/// Every key press keeps the application state well-formed.
pub proof fn lemma_key_wf(v: AppView, key: Key)
    requires
        app_wf(v),
    ensures
        app_wf(app_key(v, key).0),
        app_wf(app_key_press(v, key).0),
{
    lemma_form_key_wf(v.dispatch_form, key);
    let (v1, a) = app_key(v, key);
    assert(app_wf(v1));
    lemma_update_wf(v1, a);
}

/// The answer to a repository check keeps the state well-formed.
pub proof fn lemma_repo_validated_wf(v: AppView, result: Result<Seq<char>, Seq<char>>)
    requires
        app_wf(v),
    ensures
        app_wf(repo_validated(v, result).0),
{
    if let Ok(name) = result {
        lemma_list_add_wf(v.repo_list, name);
        let rl = list_add(v.repo_list, name);
        let v1 = AppView {
            repo_list: RepoListView { selected: Some((rl.repos.len() - 1) as usize), ..rl },
            add_repo_modal: crate::components::add_repo::modal_reset(false),
            status_message: Some("Added "@ + name),
            ..v
        };
        assert(app_wf(v1));
        lemma_load_selected_wf(v1);
    }
}

/// The outcome of a dispatch keeps the state well-formed.
pub proof fn lemma_dispatch_done_wf(v: AppView, d: DispatchRequestView, result: Result<(), Seq<char>>)
    requires
        app_wf(v),
    ensures
        app_wf(dispatch_done(v, d, result).0),
{
    if result is Ok {
        let v1 = AppView {
            last_dispatch: Some(d),
            dispatch_form: form_close(v.dispatch_form),
            status_message: Some("Dispatched '"@ + d.workflow + "'"@),
            active_tab: MainTab::Runs,
            run_list: crate::components::run_list::RunListView { focused: v.focus == Focus::Main, ..v.run_list },
            workflow_list: crate::components::workflow_list::WorkflowListView { focused: false, ..v.workflow_list },
            run_cache: v.run_cache.remove(d.repo),
            ..v
        };
        assert(app_wf(v1));
        lemma_load_selected_wf(v1);
    }
}

/// Background results keep the state well-formed.
pub proof fn lemma_bg_wf(v: AppView, rs: Seq<BgResultView>)
    requires
        app_wf(v),
    ensures
        app_wf(apply_bgs(v, rs)),
    decreases rs.len(),
{
    if rs.len() > 0 {
        lemma_bg_wf(v, rs.drop_last());
    }
}

/// The application starts well-formed, and its start keeps it so.
pub proof fn lemma_initial_wf()
    ensures
        app_wf(initial_app()),
        app_wf(app_start(initial_app()).0),
{
    lemma_update_wf(initial_app(), ActionView::SelectRepo(0));
}

/// Where the focus of the dispatch form is, counted in the order Tab
/// visits: the ref field is 0, input field `i` is `i + 1`, the button is
/// last.
pub open spec fn focus_index(f: DispatchFormView) -> int {
    if f.button_focused {
        (f.fields.len() + 1) as int
    } else if f.ref_focused {
        0
    } else {
        f.focused_field + 1
    }
}

/// Tab moves the focus of the dispatch form one place forward and Shift+Tab
/// one place back, around the `fields + 2` places (`total_focusable`); so
/// each undoes the other, and the focus stays well-formed.
pub proof fn lemma_form_focus_cycle(f: DispatchFormView)
    requires
        form_focus_wf(f),
        f.fields.len() <= usize::MAX,
    ensures
        form_focus_wf(form_next(f)),
        form_focus_wf(form_prev(f)),
        focus_index(form_next(f)) == (focus_index(f) + 1) % (f.fields.len() + 2) as int,
        focus_index(form_prev(f)) == (focus_index(f) + f.fields.len() + 1) % (f.fields.len() + 2) as int,
        focus_index(form_prev(form_next(f))) == focus_index(f),
        focus_index(form_next(form_prev(f))) == focus_index(f),
{
    let n: int = (f.fields.len() + 2) as int;
    let i = focus_index(f);
    assert(0 <= i < n);
    if i + 1 < n {
        vstd::arithmetic::div_mod::lemma_small_mod((i + 1) as nat, n as nat);
    } else {
        vstd::arithmetic::div_mod::lemma_mod_self_0(n);
    }
    vstd::arithmetic::div_mod::lemma_mod_add_multiples_vanish(i - 1, n);
    if i == 0 {
        vstd::arithmetic::div_mod::lemma_small_mod((n - 1) as nat, n as nat);
    } else {
        vstd::arithmetic::div_mod::lemma_small_mod((i - 1) as nat, n as nat);
    }
}

/// The dispatch form after `k` presses of Tab (`NextField` actions).
pub open spec fn form_next_n(f: DispatchFormView, k: nat) -> DispatchFormView
    decreases k,
{
    if k == 0 {
        f
    } else {
        form_next(form_next_n(f, (k - 1) as nat))
    }
}

/// Tab pressed `k` times moves the focus of the dispatch form `k` places
/// forward around its `fields + 2` places: from place `i` it lands on
/// `(i + k) mod (fields + 2)`, so `fields + 2` presses bring it back to
/// where it started. The fields stay as they are and the focus stays
/// well-formed.
pub proof fn lemma_form_focus_steps(f: DispatchFormView, k: nat)
    requires
        form_focus_wf(f),
        f.fields.len() <= usize::MAX,
    ensures
        form_focus_wf(form_next_n(f, k)),
        form_next_n(f, k).fields == f.fields,
        focus_index(form_next_n(f, k)) == (focus_index(f) + k) % (f.fields.len() + 2) as int,
        focus_index(form_next_n(f, (f.fields.len() + 2) as nat)) == focus_index(f),
{
    lemma_form_focus_steps_index(f, k);
    lemma_form_focus_steps_full(f);
}

proof fn lemma_form_focus_steps_full(f: DispatchFormView)
    requires
        form_focus_wf(f),
        f.fields.len() <= usize::MAX,
    ensures
        focus_index(form_next_n(f, (f.fields.len() + 2) as nat)) == focus_index(f),
{
    let m: int = (f.fields.len() + 2) as int;
    let i = focus_index(f);
    lemma_form_focus_steps_index(f, m as nat);
    vstd::arithmetic::div_mod::lemma_mod_add_multiples_vanish(i, m);
    vstd::arithmetic::div_mod::lemma_small_mod(i as nat, m as nat);
    assert(i + m == m + i);
}

proof fn lemma_form_focus_steps_index(f: DispatchFormView, k: nat)
    requires
        form_focus_wf(f),
        f.fields.len() <= usize::MAX,
    ensures
        form_focus_wf(form_next_n(f, k)),
        form_next_n(f, k).fields == f.fields,
        focus_index(form_next_n(f, k)) == (focus_index(f) + k) % (f.fields.len() + 2) as int,
    decreases k,
{
    let m: int = (f.fields.len() + 2) as int;
    let i = focus_index(f);
    if k > 0 {
        lemma_form_focus_steps_index(f, (k - 1) as nat);
        let g = form_next_n(f, (k - 1) as nat);
        lemma_form_focus_cycle(g);
        vstd::arithmetic::div_mod::lemma_small_mod(1, m as nat);
        vstd::arithmetic::div_mod::lemma_add_mod_noop(i + k - 1, 1, m);
    } else {
        vstd::arithmetic::div_mod::lemma_small_mod(i as nat, m as nat);
    }
}

/// Adding a repository twice is the same as adding it once.
pub proof fn lemma_add_twice(v: RepoListView, name: Seq<char>)
    ensures
        list_add(list_add(v, name), name) == list_add(v, name),
{
    let w = list_add(v, name);
    if !v.repos.contains(name) {
        assert(w.repos[v.repos.len() as int] == name);
    }
}

/// Adding a new repository, selecting it (as a confirmed addition does),
/// and removing the selected repository gives back the list as it was, and
/// the removed one is the one added.
pub proof fn lemma_add_then_remove(v: RepoListView, name: Seq<char>)
    requires
        !v.repos.contains(name),
        v.repos.len() < usize::MAX,
    ensures
        ({
            let w = list_add(v, name);
            let r = list_remove(RepoListView { selected: Some((w.repos.len() - 1) as usize), ..w });
            r.1 == Some(name) && r.0.repos == v.repos
        }),
{
    let w = list_add(v, name);
    assert(w.repos.remove(v.repos.len() as int) =~= v.repos);
}

/// A background result for a repository other than the one on display
/// changes nothing that is shown: only the caches take it in.
pub proof fn lemma_bg_other_repo_hidden(v: AppView, r: BgResultView)
    requires
        match r {
            BgResultView::WorkflowsLoaded(n, _) => v.current_repo != Some(n),
            BgResultView::RunsLoaded(n, _) => v.current_repo != Some(n),
            BgResultView::DefaultBranchLoaded(_, _) => true,
        },
    ensures
        apply_bg(v, r).workflow_list == v.workflow_list,
        apply_bg(v, r).run_list == v.run_list,
        apply_bg(v, r).repo_list == v.repo_list,
        apply_bg(v, r).dispatch_form == v.dispatch_form,
{
}

/// Workflows loaded for a repository are shown, without a new load, when
/// that repository is selected afterwards (the cache gives back what was
/// stored); the same holds of runs.
pub proof fn lemma_cache_read_after_write(
    v: AppView,
    name: Seq<char>,
    workflows: Seq<crate::model::workflow::WorkflowView>,
    runs: Seq<crate::model::run::WorkflowRun>,
)
    requires
        selected_name(v.repo_list) == Some(name),
    ensures
        ({
            let w = apply_bg(v, BgResultView::WorkflowsLoaded(name, Ok(workflows)));
            load_workflows(w).1.len() == 0 && load_workflows(w).0.workflow_list.workflows == workflows
        }),
        ({
            let w = apply_bg(v, BgResultView::RunsLoaded(name, Ok(runs)));
            load_runs(w).1.len() == 0 && load_runs(w).0.run_list.runs == runs
        }),
{
}

/// Refreshing drops what is cached of the selected repository and asks for
/// its workflows and runs to be loaded again.
pub proof fn lemma_refresh_reloads(v: AppView)
    requires
        selected_name(v.repo_list) is Some,
    ensures
        ({
            let name = selected_name(v.repo_list)->0;
            let (w, e) = refresh(v);
            &&& e == seq![EffectView::LoadWorkflows(name), EffectView::LoadRuns(name)]
            &&& !w.workflow_cache.contains_key(name)
            &&& !w.run_cache.contains_key(name)
            &&& !w.default_branches.contains_key(name)
            &&& w.workflow_list.loading
            &&& w.run_list.loading
        }),
{
    let name = selected_name(v.repo_list)->0;
    let v1 = crate::app::forget_repo(v, name);
    assert(selected_name(v1.repo_list) == Some(name));
    let (a, e1) = load_workflows(v1);
    assert(e1 == seq![EffectView::LoadWorkflows(name)]);
    let (b, e2) = load_runs(a);
    assert(e2 == seq![EffectView::LoadRuns(name)]);
    assert(e1 + e2 =~= seq![EffectView::LoadWorkflows(name), EffectView::LoadRuns(name)]);
}

/// A successful dispatch on the selected repository asks for its runs to be
/// loaded afresh, and shows the Runs tab.
pub proof fn lemma_dispatch_reloads_runs(v: AppView, d: DispatchRequestView)
    requires
        selected_name(v.repo_list) == Some(d.repo),
    ensures
        dispatch_done(v, d, Ok(())).1 == seq![EffectView::LoadRuns(d.repo)],
        dispatch_done(v, d, Ok(())).0.active_tab == MainTab::Runs,
        !dispatch_done(v, d, Ok(())).0.dispatch_form.visible,
{
}

/// Re-running after a successful dispatch asks for the same dispatch again:
/// the same repository, workflow, ref and inputs, and nothing else changes.
pub proof fn lemma_rerun_repeats_dispatch(v: AppView, d: DispatchRequestView)
    ensures
        ({
            let w = dispatch_done(v, d, Ok(())).0;
            app_update(w, ActionView::RerunLastWorkflow) == (
                w,
                seq![
                    EffectView::DispatchWorkflow {
                        repo: d.repo,
                        workflow: d.workflow,
                        ref_name: d.ref_name,
                        inputs: d.inputs,
                    },
                ],
            )
        }),
{
}

/// Before any dispatch has succeeded, re-running asks for nothing.
pub proof fn lemma_rerun_needs_a_dispatch(v: AppView)
    requires
        v.last_dispatch is None,
    ensures
        app_update(v, ActionView::RerunLastWorkflow) == (v, Seq::<EffectView>::empty()),
{
}

/// Every change of the repository list asks for the list to be saved.
pub proof fn lemma_changes_are_saved(v: AppView, a: ActionView, result: Result<Seq<char>, Seq<char>>)
    ensures
        app_update(v, a).0.repo_list.repos != v.repo_list.repos ==> app_update(v, a).1.contains(EffectView::SaveRepos),
        repo_validated(v, result).0.repo_list.repos != v.repo_list.repos ==> repo_validated(v, result).1.contains(
            EffectView::SaveRepos,
        ),
{
    match a {
        ActionView::RemoveRepo => {
            let (w, e) = crate::app::remove_repo(v);
            if list_remove(v.repo_list).1 is Some {
                assert(e[0] == EffectView::SaveRepos);
            }
        },
        ActionView::Up | ActionView::Down => {
            let up = a is Up;
            let v1 = AppView { repo_list: repo_list_move(v.repo_list, up).0, ..v };
            assert(load_workflows(v1).0.repo_list == v1.repo_list);
            assert(load_selected(v1).0.repo_list == v1.repo_list);
        },
        ActionView::Refresh => {
            let v1 = match selected_name(v.repo_list) {
                Some(name) => crate::app::forget_repo(v, name),
                None => v,
            };
            assert(load_selected(v1).0.repo_list == v1.repo_list);
        },
        _ => {},
    }
    if result is Ok {
        let e = repo_validated(v, result).1;
        assert(e[0] == EffectView::SaveRepos);
    }
}

/// Ctrl+C always quits, whatever has focus and whatever is open.
pub proof fn lemma_ctrl_c_quits(v: AppView, key: Key)
    requires
        crate::app::is_ctrl_c(key),
    ensures
        !app_key_press(v, key).0.running,
        app_key_press(v, key).1.len() == 0,
{
}

/// The dispatch form asks for a dispatch only when nothing required is
/// missing, and then with the values of its fields, in order.
pub proof fn lemma_dispatch_only_when_valid(f: DispatchFormView, key: Key)
    ensures
        form_key(f, key).1 is DispatchWorkflow ==> form_problem(f) is None && form_key(f, key).1
            == ActionView::DispatchWorkflow(f.workflow_index, collected(f.fields)),
{
}

/// The add-repository modal asks to add only a trimmed, non-empty name with
/// an owner part (a `/`).
pub proof fn lemma_add_only_owner_slash_name(m: AddRepoModalView, key: Key)
    ensures
        asks_to_add(add_repo_key(m, key).1) ==> ({
            let n = trim(m.input.value);
            &&& add_repo_key(m, key).1 == ActionView::AddRepo(n)
            &&& n.len() > 0
            &&& has_char(n, '/')
        }),
{
}

/// Whether an action asks to add a repository.
pub open spec fn asks_to_add(a: ActionView) -> bool {
    a is AddRepo
}

} // verus!
