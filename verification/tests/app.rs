use ratspatcher::action::Action;
use ratspatcher::app::{App, BgResult, DispatchRequest, Effect, Focus, MainTab};
use ratspatcher::input::{Key, KeyCode, CONTROL};
use ratspatcher::model::repo::Repo;
use ratspatcher::model::run::WorkflowRun;
use ratspatcher::model::workflow::Workflow;

fn wf(name: &str) -> Workflow {
    Workflow { id: 9, name: name.to_string(), path: "p".to_string(), state: "active".to_string(), inputs: vec![] }
}

fn run(id: u64) -> WorkflowRun {
    WorkflowRun {
        database_id: id,
        name: "CI".to_string(),
        head_branch: "main".to_string(),
        status: "queued".to_string(),
        conclusion: None,
        created_at: "2024-01-01T00:00:00Z".to_string(),
        workflow_name: None,
    }
}

fn request(repo: &str, workflow: &str, ref_name: &str, inputs: Vec<(&str, &str)>) -> DispatchRequest {
    DispatchRequest {
        repo: repo.to_string(),
        workflow: workflow.to_string(),
        ref_name: ref_name.to_string(),
        inputs: inputs.into_iter().map(|(k, v)| (k.to_string(), v.to_string())).collect(),
    }
}

fn key(c: KeyCode) -> Key {
    Key::plain(c)
}

fn app_with(names: &[&str]) -> App {
    let mut app = App::new();
    app.load_repos(names.iter().map(|n| Repo::new(n)).collect());
    app
}

#[test]
fn new_app_state() {
    let app = App::new();
    assert!(app.running);
    assert_eq!(app.focus, Focus::Sidebar);
    assert_eq!(app.active_tab, MainTab::Workflows);
    assert!(app.repo_list.focused && !app.workflow_list.focused && !app.run_list.focused);
    assert!(app.status_message.is_none());
}

#[test]
fn start_loads_the_first_saved_repo() {
    let mut app = app_with(&["a/1", "a/2", "a/1"]);
    assert_eq!(app.repo_list.repos.len(), 2);
    assert_eq!(app.repo_list.state.selected(), Some(0));
    let e = app.start();
    assert_eq!(e, vec![Effect::LoadWorkflows("a/1".to_string()), Effect::LoadRuns("a/1".to_string())]);
    assert!(app.workflow_list.loading && app.run_list.loading);
    assert_eq!(app.current_repo.as_deref(), Some("a/1"));
    let mut empty = App::new();
    assert!(empty.start().is_empty());
}

#[test]
fn ctrl_c_always_quits() {
    let mut app = app_with(&["a/1"]);
    app.update(Action::OpenAddRepo);
    let e = app.key_pressed(Key::with_modifiers(KeyCode::Char('c'), CONTROL));
    assert!(e.is_empty());
    assert!(!app.running);
}

#[test]
fn q_quits_from_the_sidebar() {
    let mut app = App::new();
    app.key_pressed(key(KeyCode::Char('q')));
    assert!(!app.running);
}

#[test]
fn focus_and_tabs_follow_keys() {
    let mut app = app_with(&["a/1"]);
    app.key_pressed(key(KeyCode::Char('l')));
    assert_eq!(app.focus, Focus::Main);
    assert!(!app.repo_list.focused && app.workflow_list.focused && !app.run_list.focused);
    app.key_pressed(key(KeyCode::Tab));
    assert_eq!(app.active_tab, MainTab::Runs);
    assert!(!app.workflow_list.focused && app.run_list.focused);
    app.key_pressed(key(KeyCode::Tab));
    assert_eq!(app.active_tab, MainTab::Workflows);
    app.key_pressed(key(KeyCode::Char('h')));
    assert_eq!(app.focus, Focus::Sidebar);
    assert!(app.repo_list.focused && !app.workflow_list.focused && !app.run_list.focused);
    app.update(Action::TabRuns);
    assert!(app.repo_list.focused && !app.run_list.focused);
}

#[test]
fn adding_a_repo_goes_through_validation() {
    let mut app = app_with(&["a/1"]);
    app.key_pressed(key(KeyCode::Char('a')));
    assert!(app.add_repo_modal.visible);
    for c in "b/2".chars() {
        app.key_pressed(key(KeyCode::Char(c)));
    }
    let e = app.key_pressed(key(KeyCode::Enter));
    assert_eq!(e, vec![Effect::ValidateRepo("b/2".to_string())]);
    assert!(app.add_repo_modal.loading);
    let e = app.on_repo_validated(Ok(Repo::new("B/2")));
    assert_eq!(
        e,
        vec![Effect::SaveRepos, Effect::LoadWorkflows("B/2".to_string()), Effect::LoadRuns("B/2".to_string())]
    );
    assert!(!app.add_repo_modal.visible);
    assert_eq!(app.repo_list.repos.len(), 2);
    assert_eq!(app.repo_list.state.selected(), Some(1));
    assert_eq!(app.status_message.as_deref(), Some("Added B/2"));
}

#[test]
fn failed_validation_is_shown_in_the_modal() {
    let mut app = App::new();
    app.update(Action::OpenAddRepo);
    app.add_repo_modal.loading = true;
    let e = app.on_repo_validated(Err("Failed to validate repo 'x/y': nope".to_string()));
    assert!(e.is_empty());
    assert!(!app.add_repo_modal.loading && app.add_repo_modal.visible);
    assert_eq!(app.add_repo_modal.error_msg.as_deref(), Some("Not found: Failed to validate repo 'x/y': nope"));
}

#[test]
fn removing_a_repo_drops_its_caches_and_saves() {
    let mut app = app_with(&["a/1", "a/2"]);
    app.start();
    app.process_bg_results(vec![BgResult::WorkflowsLoaded("a/1".to_string(), Ok(vec![wf("CI")]))]);
    let e = app.update(Action::RemoveRepo);
    assert_eq!(
        e,
        vec![Effect::SaveRepos, Effect::LoadWorkflows("a/2".to_string()), Effect::LoadRuns("a/2".to_string())]
    );
    assert_eq!(app.status_message.as_deref(), Some("Removed a/1"));
    assert_eq!(app.repo_list.repos.len(), 1);
    assert!(app.workflow_cache.get("a/1").is_none());
    let e = app.update(Action::RemoveRepo);
    assert_eq!(e, vec![Effect::SaveRepos]);
    assert!(app.current_repo.is_none());
    assert!(app.update(Action::RemoveRepo).is_empty());
}

#[test]
fn background_results_land_on_the_current_repo_only() {
    let mut app = app_with(&["a/1", "a/2"]);
    app.start();
    app.process_bg_results(vec![
        BgResult::WorkflowsLoaded("a/2".to_string(), Ok(vec![wf("Other")])),
        BgResult::RunsLoaded("a/2".to_string(), Err("x".to_string())),
        BgResult::WorkflowsLoaded("a/1".to_string(), Ok(vec![wf("CI"), wf("Deploy")])),
        BgResult::RunsLoaded("a/1".to_string(), Ok(vec![run(1)])),
        BgResult::DefaultBranchLoaded("a/1".to_string(), "trunk".to_string()),
    ]);
    assert_eq!(app.workflow_list.workflows.len(), 2);
    assert_eq!(app.workflow_list.workflows[0].name, "CI");
    assert!(!app.workflow_list.loading);
    assert_eq!(app.run_list.runs.len(), 1);
    assert!(app.run_list.error.is_none());
    app.process_bg_results(vec![BgResult::RunsLoaded("a/1".to_string(), Err("gone".to_string()))]);
    assert_eq!(app.run_list.error.as_deref(), Some("gone"));
    let e = app.update(Action::Down);
    assert_eq!(e, vec![Effect::LoadRuns("a/2".to_string())]);
    assert_eq!(app.workflow_list.workflows[0].name, "Other");
    assert!(app.run_list.loading);
    let e = app.update(Action::Up);
    assert!(e.is_empty());
    assert_eq!(app.workflow_list.workflows.len(), 2);
}

#[test]
fn refresh_drops_caches_and_reloads() {
    let mut app = app_with(&["a/1"]);
    app.start();
    app.process_bg_results(vec![
        BgResult::WorkflowsLoaded("a/1".to_string(), Ok(vec![wf("CI")])),
        BgResult::RunsLoaded("a/1".to_string(), Ok(vec![])),
    ]);
    let e = app.key_pressed(key(KeyCode::Char('r')));
    assert_eq!(e, vec![Effect::LoadWorkflows("a/1".to_string()), Effect::LoadRuns("a/1".to_string())]);
    assert_eq!(app.status_message.as_deref(), Some("Refreshing..."));
}

#[test]
fn dispatch_flow() {
    let mut app = app_with(&["a/1"]);
    app.start();
    app.process_bg_results(vec![BgResult::WorkflowsLoaded("a/1".to_string(), Ok(vec![wf("Deploy")]))]);
    app.update(Action::FocusMain);
    let e = app.key_pressed(key(KeyCode::Enter));
    assert_eq!(e, vec![Effect::FetchDefaultBranch("a/1".to_string())]);
    assert!(app.dispatch_form.visible);
    assert_eq!(app.dispatch_form.ref_input.value(), "main");
    app.key_pressed(key(KeyCode::Tab));
    assert!(app.dispatch_form.button_focused);
    let e = app.key_pressed(key(KeyCode::Enter));
    assert_eq!(
        e,
        vec![Effect::DispatchWorkflow {
            repo: "a/1".to_string(),
            workflow: "Deploy".to_string(),
            ref_name: "main".to_string(),
            inputs: vec![],
        }]
    );
    let e = app.on_dispatch_result(request("a/1", "Deploy", "main", vec![]), Err("Failed to dispatch workflow: no".to_string()));
    assert!(app.last_dispatch.is_none());
    assert!(e.is_empty());
    assert!(!app.dispatch_form.dispatching);
    assert_eq!(app.dispatch_form.error_msg.as_deref(), Some("Dispatch failed: Failed to dispatch workflow: no"));
    let e = app.on_dispatch_result(request("a/1", "Deploy", "main", vec![]), Ok(()));
    assert_eq!(e, vec![Effect::LoadRuns("a/1".to_string())]);
    assert!(!app.dispatch_form.visible);
    assert_eq!(app.active_tab, MainTab::Runs);
    assert!(app.run_list.focused && !app.workflow_list.focused);
    assert_eq!(app.status_message.as_deref(), Some("Dispatched 'Deploy'"));
}

#[test]
fn known_default_branch_is_used() {
    let mut app = app_with(&["a/1"]);
    app.start();
    app.process_bg_results(vec![
        BgResult::WorkflowsLoaded("a/1".to_string(), Ok(vec![wf("Deploy")])),
        BgResult::DefaultBranchLoaded("a/1".to_string(), "trunk".to_string()),
    ]);
    let e = app.update(Action::OpenDispatchForm(0));
    assert!(e.is_empty());
    assert_eq!(app.dispatch_form.ref_input.value(), "trunk");
    assert!(app.update(Action::OpenDispatchForm(5)).is_empty());
}

#[test]
fn messages_and_ignored_actions() {
    let mut app = App::new();
    app.update(Action::StatusMessage("hi".to_string()));
    assert_eq!(app.status_message.as_deref(), Some("hi"));
    app.update(Action::Error("bad".to_string()));
    assert_eq!(app.status_message.as_deref(), Some("Error: bad"));
    for a in [Action::Noop, Action::CloseModal, Action::RerunLastWorkflow, Action::Enter, Action::ToggleField, Action::NextField, Action::PrevField] {
        assert!(app.update(a).is_empty());
    }
    assert!(app.running);
    assert_eq!(app.update(Action::DispatchWorkflow(0, vec![])), vec![]);
}

#[test]
fn panel_focus_flags_follow_every_key() {
    let mut app = app_with(&["a/1", "a/2"]);
    app.start();
    let keys = [
        KeyCode::Char('l'),
        KeyCode::Tab,
        KeyCode::Char('j'),
        KeyCode::Char('h'),
        KeyCode::Char('j'),
        KeyCode::Enter,
        KeyCode::Tab,
        KeyCode::Char('k'),
        KeyCode::Left,
        KeyCode::Char('d'),
    ];
    for k in keys {
        app.key_pressed(key(k));
        assert_eq!(app.repo_list.focused, app.focus == Focus::Sidebar);
        assert_eq!(app.workflow_list.focused, app.focus == Focus::Main && app.active_tab == MainTab::Workflows);
        assert_eq!(app.run_list.focused, app.focus == Focus::Main && app.active_tab == MainTab::Runs);
        if let Some(i) = app.repo_list.state.selected() {
            assert!(i < app.repo_list.repos.len());
        } else {
            assert!(app.repo_list.repos.is_empty());
        }
    }
}

#[test]
fn runs_tab_lists_thirty_most_recent() {
    let args = ratspatcher::gh::list_runs_args("o/r", None, ratspatcher::gh::RUN_LIMIT);
    assert_eq!(args[6], "-L");
    assert_eq!(args[7], "30");
}

#[test]
fn status_line_and_selected_tab() {
    let mut app = App::new();
    assert_eq!(app.status_line(), "q: quit | a: add repo | Tab: switch tab | r: refresh");
    assert_eq!(app.selected_tab(), 0);
    app.status_message = Some("Dispatched".to_string());
    assert_eq!(app.status_line(), "Dispatched");
    app.active_tab = MainTab::Runs;
    assert_eq!(app.selected_tab(), 1);
}

#[test]
fn rerun_repeats_the_last_successful_dispatch() {
    let mut app = app_with(&["a/1", "b/2"]);
    assert!(app.update(Action::RerunLastWorkflow).is_empty());
    app.on_dispatch_result(request("b/2", "Release", "v2", vec![("env", "prod"), ("dry", "false")]), Ok(()));
    let again = vec![Effect::DispatchWorkflow {
        repo: "b/2".to_string(),
        workflow: "Release".to_string(),
        ref_name: "v2".to_string(),
        inputs: vec![("env".to_string(), "prod".to_string()), ("dry".to_string(), "false".to_string())],
    }];
    assert_eq!(app.update(Action::RerunLastWorkflow), again);
    app.on_dispatch_result(request("a/1", "CI", "main", vec![]), Err("no".to_string()));
    assert_eq!(app.update(Action::RerunLastWorkflow), again);
    app.update(Action::FocusMain);
    assert_eq!(app.key_pressed(key(KeyCode::Char('R'))), again);
}

#[test]
fn select_repo_selects_the_index() {
    let mut app = app_with(&["a/1", "b/2", "c/3"]);
    let e = app.update(Action::SelectRepo(2));
    assert_eq!(app.repo_list.state.selected(), Some(2));
    assert_eq!(app.current_repo.as_deref(), Some("c/3"));
    assert_eq!(e, vec![Effect::LoadWorkflows("c/3".to_string()), Effect::LoadRuns("c/3".to_string())]);
    assert!(app.update(Action::SelectRepo(3)).is_empty());
    assert_eq!(app.repo_list.state.selected(), Some(2));
}

#[test]
fn tab_from_the_sidebar_switches_tabs() {
    let mut app = app_with(&["a/1"]);
    assert_eq!(app.focus, Focus::Sidebar);
    assert_eq!(app.handle_key_event(key(KeyCode::Tab)), Action::TabRuns);
    app.key_pressed(key(KeyCode::Tab));
    assert_eq!(app.active_tab, MainTab::Runs);
    assert_eq!(app.focus, Focus::Sidebar);
    assert!(app.repo_list.focused && !app.run_list.focused);
    app.key_pressed(key(KeyCode::Tab));
    assert_eq!(app.active_tab, MainTab::Workflows);
}
