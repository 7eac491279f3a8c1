use ratspatcher::components::run_list::format_time;
use ratspatcher::model::repo::Repo;
use ratspatcher::model::run::WorkflowRun;

fn run(status: &str, conclusion: Option<&str>) -> WorkflowRun {
    WorkflowRun {
        database_id: 7,
        name: "CI".to_string(),
        head_branch: "main".to_string(),
        status: status.to_string(),
        conclusion: conclusion.map(|c| c.to_string()),
        created_at: "2024-05-01T12:34:56Z".to_string(),
        workflow_name: Some("Build".to_string()),
    }
}

#[test]
fn repo_owner_and_name() {
    let r = Repo::new("octo/hello");
    assert_eq!(r.full_name, "octo/hello");
    assert_eq!(r.owner(), "octo");
    assert_eq!(r.name(), "hello");
    assert_eq!(r.to_string(), "octo/hello");
}

#[test]
fn repo_without_slash_has_no_name() {
    let r = Repo::new("lonely");
    assert_eq!(r.owner(), "lonely");
    assert_eq!(r.name(), "");
}

#[test]
fn repo_with_two_slashes_takes_middle_part() {
    let r = Repo::new("a/b/c");
    assert_eq!(r.owner(), "a");
    assert_eq!(r.name(), "b");
    let e = Repo::new("");
    assert_eq!(e.owner(), "");
    assert_eq!(e.name(), "");
}

#[test]
fn run_status_prefers_conclusion() {
    assert_eq!(run("completed", Some("success")).display_status(), "success");
    assert_eq!(run("in_progress", None).display_status(), "in_progress");
}

#[test]
fn run_status_symbols() {
    assert_eq!(run("completed", Some("success")).status_symbol(), "✓");
    assert_eq!(run("completed", Some("failure")).status_symbol(), "✗");
    assert_eq!(run("completed", Some("cancelled")).status_symbol(), "⊘");
    assert_eq!(run("in_progress", None).status_symbol(), "●");
    assert_eq!(run("queued", None).status_symbol(), "◌");
    assert_eq!(run("waiting", None).status_symbol(), "◌");
    assert_eq!(run("completed", Some("skipped")).status_symbol(), "?");
}

#[test]
fn format_time_shortens_iso_timestamps() {
    assert_eq!(format_time("2024-05-01T12:34:56Z"), "2024-05-01 12:34");
    assert_eq!(format_time("2024-05-01"), "2024-05-01");
    assert_eq!(format_time(""), "");
    assert_eq!(format_time("TTTTTTTTTTTTTTTTTTTT"), "                ");
}

#[test]
fn run_clone_keeps_fields() {
    let r = run("completed", Some("success"));
    let c = r.clone();
    assert_eq!(c.database_id, 7);
    assert_eq!(c.conclusion.as_deref(), Some("success"));
    assert_eq!(c.workflow_name.as_deref(), Some("Build"));
}
