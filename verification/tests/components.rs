use ratspatcher::action::Action;
use ratspatcher::components::add_repo::AddRepoModal;
use ratspatcher::components::dispatch_form::{DispatchForm, FieldValue};
use ratspatcher::components::repo_list::RepoList;
use ratspatcher::components::run_list::RunList;
use ratspatcher::components::workflow_list::WorkflowList;
use ratspatcher::components::{Component, PanelState, Tone};
use ratspatcher::model::run::WorkflowRun;
use ratspatcher::input::{Key, KeyCode, TextInput, CONTROL, SHIFT};
use ratspatcher::model::repo::Repo;
use ratspatcher::model::workflow::{InputType, Workflow, WorkflowInput};

fn key(c: KeyCode) -> Key {
    Key::plain(c)
}

fn input(name: &str, t: InputType, required: bool, default: Option<&str>, options: &[&str]) -> WorkflowInput {
    WorkflowInput {
        name: name.to_string(),
        description: String::new(),
        required,
        default: default.map(|d| d.to_string()),
        input_type: t,
        options: options.iter().map(|o| o.to_string()).collect(),
    }
}

fn workflow(inputs: Vec<WorkflowInput>) -> Workflow {
    Workflow { id: 1, name: "Deploy".to_string(), path: "d.yml".to_string(), state: "active".to_string(), inputs }
}

#[test]
fn repo_list_adds_without_duplicates() {
    let mut l = RepoList::new();
    assert!(l.selected_repo().is_none());
    l.add_repo(Repo::new("a/b"));
    assert_eq!(l.state.selected(), Some(0));
    l.add_repo(Repo::new("c/d"));
    l.add_repo(Repo::new("a/b"));
    assert_eq!(l.repos.len(), 2);
    assert_eq!(l.selected_repo().unwrap().full_name, "a/b");
}

#[test]
fn repo_list_removal_moves_selection() {
    let mut l = RepoList::new();
    l.add_repo(Repo::new("a/1"));
    l.add_repo(Repo::new("a/2"));
    l.add_repo(Repo::new("a/3"));
    l.state.select(Some(2));
    let r = l.remove_selected().unwrap();
    assert_eq!(r.full_name, "a/3");
    assert_eq!(l.state.selected(), Some(1));
    l.state.select(Some(0));
    assert_eq!(l.remove_selected().unwrap().full_name, "a/1");
    assert_eq!(l.state.selected(), Some(0));
    assert_eq!(l.remove_selected().unwrap().full_name, "a/2");
    assert_eq!(l.state.selected(), None);
    assert!(l.remove_selected().is_none());
}

#[test]
fn add_then_remove_restores_the_list() {
    let mut l = RepoList::new();
    l.add_repo(Repo::new("a/1"));
    l.add_repo(Repo::new("a/2"));
    let idx = l.repos.len() - 1;
    l.state.select(Some(idx));
    let removed = l.remove_selected().unwrap();
    assert_eq!(removed.full_name, "a/2");
    assert_eq!(l.repos.len(), 1);
    assert_eq!(l.repos[0].full_name, "a/1");
}

#[test]
fn repo_list_keys_and_moves() {
    let mut l = RepoList::new();
    assert_eq!(l.handle_key_event(key(KeyCode::Char('a'))), Action::OpenAddRepo);
    assert_eq!(l.handle_key_event(key(KeyCode::Delete)), Action::RemoveRepo);
    assert_eq!(l.handle_key_event(key(KeyCode::Char('d'))), Action::RemoveRepo);
    assert_eq!(l.handle_key_event(key(KeyCode::Char('j'))), Action::Down);
    assert_eq!(l.handle_key_event(key(KeyCode::Up)), Action::Up);
    assert_eq!(l.handle_key_event(key(KeyCode::Right)), Action::FocusMain);
    assert_eq!(l.handle_key_event(key(KeyCode::Enter)), Action::FocusMain);
    assert_eq!(l.handle_key_event(key(KeyCode::Char('q'))), Action::Quit);
    assert_eq!(l.handle_key_event(key(KeyCode::Char('r'))), Action::Refresh);
    assert_eq!(l.handle_key_event(key(KeyCode::Char('x'))), Action::Noop);
    l.add_repo(Repo::new("a/1"));
    l.add_repo(Repo::new("a/2"));
    assert_eq!(l.update(&Action::Down), Some(Action::SelectRepo(1)));
    assert_eq!(l.update(&Action::Down), None);
    assert_eq!(l.update(&Action::Up), Some(Action::SelectRepo(0)));
    assert_eq!(l.update(&Action::Up), None);
    assert_eq!(l.update(&Action::Refresh), None);
    l.focused = false;
    assert_eq!(l.handle_key_event(key(KeyCode::Char('q'))), Action::Noop);
}

#[test]
fn workflow_list_keys_and_selection() {
    let mut w = WorkflowList::new();
    assert_eq!(w.handle_key_event(key(KeyCode::Char('j'))), Action::Noop);
    w.focused = true;
    assert_eq!(w.handle_key_event(key(KeyCode::Enter)), Action::Noop);
    w.set_workflows(vec![workflow(vec![]), workflow(vec![])]);
    assert_eq!(w.state.selected(), Some(0));
    assert_eq!(w.handle_key_event(key(KeyCode::Enter)), Action::OpenDispatchForm(0));
    assert_eq!(w.handle_key_event(key(KeyCode::Tab)), Action::TabRuns);
    assert_eq!(w.handle_key_event(key(KeyCode::Char('h'))), Action::FocusSidebar);
    assert_eq!(w.handle_key_event(key(KeyCode::Char('R'))), Action::RerunLastWorkflow);
    w.update(&Action::Down);
    assert_eq!(w.state.selected(), Some(1));
    w.update(&Action::Down);
    assert_eq!(w.state.selected(), Some(1));
    assert_eq!(w.selected_workflow().unwrap().name, "Deploy");
    w.set_error("boom".to_string());
    assert_eq!(w.error.as_deref(), Some("boom"));
    w.set_workflows(vec![]);
    assert_eq!(w.state.selected(), None);
    assert!(w.error.is_none());
    w.loading = true;
    w.clear();
    assert!(!w.loading);
}

#[test]
fn run_list_keys_and_selection() {
    let mut r = RunList::new();
    r.focused = true;
    assert_eq!(r.handle_key_event(key(KeyCode::Tab)), Action::TabWorkflows);
    assert_eq!(r.handle_key_event(key(KeyCode::Left)), Action::FocusSidebar);
    assert_eq!(r.handle_key_event(key(KeyCode::Enter)), Action::Noop);
    r.update(&Action::Down);
    assert_eq!(r.state.selected(), None);
    r.set_error("e".to_string());
    assert!(!r.loading);
    r.clear();
    assert!(r.error.is_none());
}

#[test]
fn add_repo_modal_validates_the_name() {
    let mut m = AddRepoModal::new();
    assert_eq!(m.handle_key_event(key(KeyCode::Char('a'))), Action::Noop);
    m.open();
    assert!(m.visible);
    assert_eq!(m.handle_key_event(key(KeyCode::Enter)), Action::Noop);
    assert_eq!(m.error_msg.as_deref(), Some("Please enter a repo name"));
    for c in " octo".chars() {
        m.handle_key_event(key(KeyCode::Char(c)));
    }
    assert!(m.error_msg.is_none());
    assert_eq!(m.handle_key_event(key(KeyCode::Enter)), Action::Noop);
    assert_eq!(m.error_msg.as_deref(), Some("Format: owner/repo"));
    for c in "/hx".chars() {
        m.handle_key_event(key(KeyCode::Char(c)));
    }
    m.handle_key_event(key(KeyCode::Backspace));
    assert_eq!(m.input.value(), " octo/h");
    assert_eq!(m.handle_key_event(key(KeyCode::Enter)), Action::AddRepo("octo/h".to_string()));
    assert!(m.loading);
    assert_eq!(m.handle_key_event(key(KeyCode::Esc)), Action::Noop);
    m.loading = false;
    assert_eq!(m.handle_key_event(Key::with_modifiers(KeyCode::Char('c'), CONTROL)), Action::CloseModal);
    assert!(!m.visible);
    assert_eq!(m.input.value(), "");
}

#[test]
fn text_input_edits_like_tui_input() {
    let mut t = TextInput::with_value("abc".to_string());
    assert_eq!(t.cursor, 3);
    t.handle_key(key(KeyCode::Left));
    t.handle_key(key(KeyCode::Char('X')));
    assert_eq!(t.value(), "abXc");
    t.handle_key(key(KeyCode::Home));
    t.handle_key(key(KeyCode::Delete));
    assert_eq!(t.value(), "bXc");
    t.handle_key(key(KeyCode::Enter));
    t.handle_key(key(KeyCode::Up));
    assert_eq!(t.value(), "bXc");
    t.handle_key(Key::with_modifiers(KeyCode::Char('u'), CONTROL));
    assert_eq!(t.value(), "");
    t.reset();
    assert_eq!(t.cursor, 0);
}

#[test]
fn dispatch_form_opens_with_defaults() {
    let mut f = DispatchForm::new();
    assert_eq!(f.ref_input.value(), "main");
    f.open(
        workflow(vec![
            input("env", InputType::Environment, true, Some("prod"), &[]),
            input("dry", InputType::Boolean, false, Some("true"), &[]),
            input("level", InputType::Choice, false, Some("high"), &["low", "high"]),
            input("missing", InputType::Choice, false, Some("x"), &["a"]),
        ]),
        3,
        "develop",
    );
    assert!(f.visible);
    assert_eq!(f.workflow_index, 3);
    assert_eq!(f.ref_input.value(), "develop");
    assert!(f.ref_focused && !f.button_focused);
    assert!(matches!(&f.fields[0].value, FieldValue::Text(t) if t.value() == "prod"));
    assert!(matches!(f.fields[1].value, FieldValue::Boolean(true)));
    assert!(matches!(f.fields[2].value, FieldValue::Choice { selected: 1, .. }));
    assert!(matches!(f.fields[3].value, FieldValue::Choice { selected: 0, .. }));
    assert_eq!(f.total_focusable(), 6);
    assert_eq!(
        f.collect_values(),
        vec![
            ("env".to_string(), "prod".to_string()),
            ("dry".to_string(), "true".to_string()),
            ("level".to_string(), "high".to_string()),
            ("missing".to_string(), "a".to_string()),
        ]
    );
}

#[test]
fn dispatch_form_focus_cycles() {
    let mut f = DispatchForm::new();
    f.open(workflow(vec![input("a", InputType::String, false, None, &[]), input("b", InputType::String, false, None, &[])]), 0, "main");
    let n = f.total_focusable();
    for _ in 0..n {
        f.update(&Action::NextField);
    }
    assert!(f.ref_focused && !f.button_focused);
    f.update(&Action::PrevField);
    assert!(f.button_focused);
    f.update(&Action::PrevField);
    assert!(!f.button_focused && !f.ref_focused && f.focused_field == 1);
    f.update(&Action::NextField);
    assert!(f.button_focused);
    let mut e = DispatchForm::new();
    e.open(workflow(vec![]), 0, "main");
    e.update(&Action::NextField);
    assert!(e.button_focused && !e.ref_focused);
    e.update(&Action::NextField);
    assert!(e.ref_focused);
}

#[test]
fn dispatch_form_keys() {
    let mut f = DispatchForm::new();
    f.open(
        workflow(vec![
            input("name", InputType::String, true, None, &[]),
            input("dry", InputType::Boolean, false, None, &[]),
            input("level", InputType::Choice, false, None, &["low", "high"]),
        ]),
        2,
        "main",
    );
    assert_eq!(f.handle_key_event(key(KeyCode::Tab)), Action::NextField);
    assert_eq!(f.handle_key_event(Key::with_modifiers(KeyCode::Tab, SHIFT)), Action::PrevField);
    assert_eq!(f.handle_key_event(Key::with_modifiers(KeyCode::BackTab, SHIFT)), Action::PrevField);
    assert_eq!(f.handle_key_event(key(KeyCode::Enter)), Action::NextField);
    f.update(&Action::NextField);
    f.handle_key_event(key(KeyCode::Char('x')));
    assert!(matches!(&f.fields[0].value, FieldValue::Text(t) if t.value() == "x"));
    assert_eq!(f.handle_key_event(key(KeyCode::Enter)), Action::NextField);
    f.update(&Action::NextField);
    f.handle_key_event(key(KeyCode::Char(' ')));
    assert!(matches!(f.fields[1].value, FieldValue::Boolean(true)));
    f.handle_key_event(key(KeyCode::Enter));
    assert!(matches!(f.fields[1].value, FieldValue::Boolean(false)));
    f.update(&Action::NextField);
    f.handle_key_event(key(KeyCode::Down));
    f.handle_key_event(key(KeyCode::Char('j')));
    assert!(matches!(f.fields[2].value, FieldValue::Choice { selected: 1, .. }));
    f.handle_key_event(key(KeyCode::Char('k')));
    f.handle_key_event(key(KeyCode::Up));
    assert!(matches!(f.fields[2].value, FieldValue::Choice { selected: 0, .. }));
    assert_eq!(f.handle_key_event(key(KeyCode::Enter)), Action::NextField);
    f.update(&Action::NextField);
    assert!(f.button_focused);
    let a = f.handle_key_event(key(KeyCode::Char(' ')));
    assert_eq!(
        a,
        Action::DispatchWorkflow(
            2,
            vec![
                ("name".to_string(), "x".to_string()),
                ("dry".to_string(), "false".to_string()),
                ("level".to_string(), "low".to_string()),
            ]
        )
    );
    assert!(f.dispatching);
    assert_eq!(f.handle_key_event(key(KeyCode::Esc)), Action::Noop);
    f.dispatching = false;
    assert_eq!(f.handle_key_event(key(KeyCode::Esc)), Action::CloseModal);
    assert!(!f.visible && f.fields.is_empty() && f.workflow.is_none());
}

#[test]
fn dispatch_form_validation_errors() {
    let mut f = DispatchForm::new();
    f.open(workflow(vec![input("need", InputType::String, true, Some("  "), &[]), input("c", InputType::Choice, true, None, &[])]), 0, "main");
    assert_eq!(f.validate().as_deref(), Some("'need' is required"));
    assert_eq!(f.try_dispatch(), Action::Noop);
    assert_eq!(f.error_msg.as_deref(), Some("'need' is required"));
    let mut g = DispatchForm::new();
    g.open(workflow(vec![input("c", InputType::Choice, true, None, &[])]), 0, "main");
    assert_eq!(g.validate().as_deref(), Some("'c' is required"));
    let mut h = DispatchForm::new();
    h.open(workflow(vec![input("opt", InputType::String, false, None, &[])]), 0, " ");
    assert_eq!(h.validate().as_deref(), Some("Branch/ref is required"));
    let mut k = DispatchForm::new();
    k.open(workflow(vec![input("b", InputType::Boolean, true, None, &[])]), 4, "main");
    assert_eq!(k.validate(), None);
    assert_eq!(k.try_dispatch(), Action::DispatchWorkflow(4, vec![("b".to_string(), "false".to_string())]));
    assert!(k.error_msg.is_none());
}

#[test]
fn dispatch_form_lines_show_each_kind_of_field() {
    let mut f = DispatchForm::new();
    let mut described = input("env", InputType::Choice, true, Some("prod"), &["dev", "prod"]);
    described.description = "target".to_string();
    f.open(
        workflow(vec![
            input("name", InputType::String, false, Some("x"), &[]),
            input("dry", InputType::Boolean, false, Some("true"), &[]),
            described,
            input("empty", InputType::Choice, false, None, &[]),
        ]),
        0,
        "main",
    );
    assert_eq!(f.title(), " Dispatch: Deploy ");
    assert_eq!(f.ref_line(), "\u{25b8} main");
    assert!(!f.field_focused(0));
    assert_eq!(f.value_line(0), "  x");
    assert_eq!(f.value_line(1), "  [x] true");
    assert_eq!(f.value_line(2), "  prod (2/2)");
    assert_eq!(f.value_line(3), "  (no options)");
    assert_eq!(f.description_note(0), None);
    assert_eq!(f.description_note(2), Some(" (target)".to_string()));
    f.update(&Action::NextField);
    f.update(&Action::NextField);
    assert!(f.field_focused(1));
    assert_eq!(f.ref_line(), "  main");
    assert_eq!(f.value_line(1), "\u{25b8} [x] true");
    f.handle_key_event(key(KeyCode::Char(' ')));
    assert_eq!(f.value_line(1), "\u{25b8} [ ] false");
    assert_eq!(f.hint(), "Tab: next field | Enter: dispatch | Esc: cancel");
    assert_eq!(f.border_tone(), Tone::Green);
}

#[test]
fn dispatch_form_height_fits_the_screen() {
    let mut f = DispatchForm::new();
    assert_eq!(f.title(), " Dispatch: Workflow ");
    assert_eq!(f.height(40), 10);
    f.open(workflow(vec![input("a", InputType::String, false, None, &[]), input("b", InputType::String, false, None, &[])]), 0, "main");
    assert_eq!(f.height(40), 16);
    assert_eq!(f.height(14), 10);
    assert_eq!(f.height(4), 0);
}

#[test]
fn dispatch_form_shows_errors_and_progress() {
    let mut f = DispatchForm::new();
    f.open(workflow(vec![input("tag", InputType::String, true, None, &[])]), 3, "main");
    f.update(&Action::PrevField);
    f.handle_key_event(key(KeyCode::Enter));
    assert_eq!(f.error_msg.as_deref(), Some("'tag' is required"));
    assert_eq!(f.border_tone(), Tone::Red);
    f.fields[0].value = FieldValue::Text(TextInput::with_value("v1".to_string()));
    f.handle_key_event(key(KeyCode::Enter));
    assert!(f.dispatching);
    assert_eq!(f.hint(), "Dispatching...");
}

#[test]
fn add_repo_modal_title_and_border() {
    let mut m = AddRepoModal::new();
    m.open();
    assert_eq!(m.title(), " Add Repository (owner/repo) ");
    assert_eq!(m.border_tone(), Tone::Cyan);
    m.handle_key_event(key(KeyCode::Enter));
    assert_eq!(m.border_tone(), Tone::Red);
    for c in "a/b".chars() {
        m.handle_key_event(key(KeyCode::Char(c)));
    }
    m.handle_key_event(key(KeyCode::Enter));
    assert_eq!(m.title(), " Validating repo... ");
    assert_eq!(m.border_tone(), Tone::Cyan);
}

#[test]
fn repo_list_border_follows_focus() {
    let mut l = RepoList::new();
    assert_eq!(l.border_tone(), Tone::Cyan);
    l.focused = false;
    assert_eq!(l.border_tone(), Tone::DarkGray);
}

#[test]
fn workflow_list_panel_and_input_note() {
    let mut w = WorkflowList::new();
    assert_eq!(w.panel_state(), PanelState::Empty);
    assert_eq!(w.border_tone(), Tone::DarkGray);
    w.loading = true;
    assert_eq!(w.panel_state(), PanelState::Loading);
    w.set_error("x".to_string());
    assert_eq!(w.panel_state(), PanelState::Error);
    w.set_workflows(vec![workflow(vec![])]);
    assert_eq!(w.panel_state(), PanelState::Rows);
    w.focused = true;
    assert_eq!(w.border_tone(), Tone::Cyan);
    assert_eq!(WorkflowList::input_info(&workflow(vec![])), " (no inputs)");
    let many: Vec<WorkflowInput> = (0..12).map(|i| input(&format!("i{}", i), InputType::String, false, None, &[])).collect();
    assert_eq!(WorkflowList::input_info(&workflow(many)), " (12 inputs)");
}

fn run_with(status: &str, conclusion: Option<&str>, workflow_name: Option<&str>) -> WorkflowRun {
    WorkflowRun {
        database_id: 1,
        name: "CI".to_string(),
        head_branch: "main".to_string(),
        status: status.to_string(),
        conclusion: conclusion.map(|c| c.to_string()),
        created_at: "2024-01-01T00:00:00Z".to_string(),
        workflow_name: workflow_name.map(|w| w.to_string()),
    }
}

#[test]
fn run_list_rows_show_status_and_label() {
    let done = run_with("completed", Some("success"), Some("Build"));
    assert_eq!(RunList::status_tone(&done), Tone::Green);
    assert_eq!(RunList::status_text(&done), "\u{2713} success");
    assert_eq!(RunList::run_label(&done), "Build");
    let failed = run_with("completed", Some("failure"), None);
    assert_eq!(RunList::status_tone(&failed), Tone::Red);
    assert_eq!(RunList::run_label(&failed), "CI");
    assert_eq!(RunList::status_tone(&run_with("completed", Some("cancelled"), None)), Tone::Yellow);
    assert_eq!(RunList::status_tone(&run_with("in_progress", None, None)), Tone::Blue);
    assert_eq!(RunList::status_tone(&run_with("waiting", None, None)), Tone::DarkGray);
    assert_eq!(RunList::status_text(&run_with("queued", None, None)), "\u{25cc} queued");
    assert_eq!(RunList::status_tone(&run_with("completed", Some("skipped"), None)), Tone::White);
    let mut r = RunList::new();
    assert_eq!(r.panel_state(), PanelState::Empty);
    r.set_runs(vec![done]);
    assert_eq!(r.panel_state(), PanelState::Rows);
}

#[test]
fn form_focus_returns_after_a_full_round_of_tabs() {
    let mut f = DispatchForm::new();
    f.open(
        workflow(vec![
            input("a", InputType::String, false, None, &[]),
            input("b", InputType::Boolean, false, None, &[]),
            input("c", InputType::Choice, false, None, &["x"]),
        ]),
        0,
        "main",
    );
    f.update(&Action::NextField);
    f.update(&Action::NextField);
    assert!(!f.ref_focused && f.focused_field == 1);
    for _ in 0..f.total_focusable() {
        f.update(&Action::NextField);
    }
    assert!(!f.ref_focused && !f.button_focused && f.focused_field == 1);
    f.update(&Action::NextField);
    f.update(&Action::NextField);
    assert!(f.button_focused);
    f.update(&Action::NextField);
    assert!(f.ref_focused);
}
