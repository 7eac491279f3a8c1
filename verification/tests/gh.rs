use ratspatcher::gh::{
    dispatch_workflow, dispatch_workflow_args, get_default_branch, get_default_branch_args, get_workflow_yaml,
    get_workflow_yaml_args, list_runs, list_runs_args, list_workflows, list_workflows_args,
    load_dispatchable_workflows, parse_workflow_inputs, validate_repo, validate_repo_args, workflow_entries,
    workflow_inputs_of, CommandOutput,
};
use ratspatcher::json::JsonValue;
use ratspatcher::model::workflow::InputType;
use ratspatcher::yaml::YamlValue;

fn ok(stdout: &str) -> CommandOutput {
    CommandOutput { success: true, stdout: stdout.as_bytes().to_vec(), stderr: Vec::new() }
}

fn failed(stderr: &str) -> CommandOutput {
    CommandOutput { success: false, stdout: Vec::new(), stderr: stderr.as_bytes().to_vec() }
}

#[test]
fn no_trigger_is_not_dispatchable() {
    let r = parse_workflow_inputs("name: CI\non: push\njobs: {}\n").unwrap();
    assert!(r.is_none());
    let r = parse_workflow_inputs("name: CI\njobs: {}\n").unwrap();
    assert!(r.is_none());
    let r = parse_workflow_inputs("on:\n  push:\n    branches: [main]\n").unwrap();
    assert!(r.is_none());
}

#[test]
fn trigger_as_name_or_list() {
    assert_eq!(parse_workflow_inputs("on: workflow_dispatch\n").unwrap().unwrap().len(), 0);
    assert_eq!(parse_workflow_inputs("on: [push, workflow_dispatch]\n").unwrap().unwrap().len(), 0);
    assert!(parse_workflow_inputs("on: [push, pull_request]\n").unwrap().is_none());
    assert_eq!(parse_workflow_inputs("on:\n  workflow_dispatch:\n").unwrap().unwrap().len(), 0);
    assert_eq!(parse_workflow_inputs("on:\n  workflow_dispatch: {}\n").unwrap().unwrap().len(), 0);
}

#[test]
fn inputs_of_every_type() {
    let yaml = "on:
  workflow_dispatch:
    inputs:
      env:
        description: Target
        required: true
        type: environment
      verbose:
        type: boolean
        default: true
      level:
        type: choice
        options: [low, high, 3]
        default: high
      count:
        default: 5
      note:
        description: 7
";
    let inputs = parse_workflow_inputs(yaml).unwrap().unwrap();
    assert_eq!(inputs.len(), 5);
    assert_eq!(inputs[0].name, "env");
    assert_eq!(inputs[0].description, "Target");
    assert!(inputs[0].required);
    assert_eq!(inputs[0].input_type, InputType::Environment);
    assert_eq!(inputs[0].default, None);
    assert_eq!(inputs[1].name, "verbose");
    assert_eq!(inputs[1].input_type, InputType::Boolean);
    assert_eq!(inputs[1].default.as_deref(), Some("true"));
    assert!(!inputs[1].required);
    assert_eq!(inputs[2].input_type, InputType::Choice);
    assert_eq!(inputs[2].options, vec!["low".to_string(), "high".to_string()]);
    assert_eq!(inputs[2].default.as_deref(), Some("high"));
    assert_eq!(inputs[3].input_type, InputType::String);
    assert_eq!(inputs[3].default.as_deref(), Some("Number(5)"));
    assert_eq!(inputs[4].description, "");
}

#[test]
fn null_default_is_printed() {
    let yaml = "on:\n  workflow_dispatch:\n    inputs:\n      x:\n        default:\n";
    let inputs = parse_workflow_inputs(yaml).unwrap().unwrap();
    assert_eq!(inputs[0].default.as_deref(), Some("Null"));
}

#[test]
fn bad_yaml_and_bad_keys_are_errors() {
    let e = parse_workflow_inputs("on: [unclosed\n").unwrap_err();
    assert!(e.starts_with("Failed to parse workflow YAML: "), "{}", e);
    let e = parse_workflow_inputs("on:\n  workflow_dispatch:\n    inputs:\n      1:\n        type: string\n").unwrap_err();
    assert_eq!(e, "Input key is not a string");
}

#[test]
fn inputs_from_a_built_document() {
    let doc = YamlValue::Mapping(vec![(
        YamlValue::String("on".to_string()),
        YamlValue::Sequence(vec![YamlValue::String("workflow_dispatch".to_string())]),
    )]);
    assert_eq!(workflow_inputs_of(&doc).unwrap().unwrap().len(), 0);
    let doc = YamlValue::Mapping(vec![(YamlValue::Bool(true), YamlValue::String("workflow_dispatch".to_string()))]);
    assert_eq!(workflow_inputs_of(&doc).unwrap().unwrap().len(), 0);
    let doc = YamlValue::Null;
    assert!(workflow_inputs_of(&doc).unwrap().is_none());
}

#[test]
fn validate_repo_reads_the_reply() {
    let repo = validate_repo("octo/x", &ok("{\"nameWithOwner\":\"Octo/X\"}")).unwrap();
    assert_eq!(repo.full_name, "Octo/X");
    let e = validate_repo("octo/x", &ok("{\"other\":1}")).unwrap_err();
    assert_eq!(e, "Missing nameWithOwner in response");
    let e = validate_repo("octo/x", &failed("  not found \n")).unwrap_err();
    assert_eq!(e, "Failed to validate repo 'octo/x': not found");
    let e = validate_repo("octo/x", &ok("not json")).unwrap_err();
    assert!(!e.is_empty());
    assert_eq!(
        validate_repo_args("octo/x"),
        vec!["repo", "view", "octo/x", "--json", "nameWithOwner"]
    );
}

#[test]
fn listing_workflows() {
    let out = ok("[{\"id\":12,\"name\":\"CI\",\"path\":\".github/workflows/ci.yml\",\"state\":\"active\"},{\"name\":5}]");
    let list = list_workflows(&out).unwrap();
    assert_eq!(list.len(), 2);
    let entries = workflow_entries(&list);
    assert_eq!(entries[0].id, 12);
    assert_eq!(entries[0].name, "CI");
    assert_eq!(entries[0].path, ".github/workflows/ci.yml");
    assert_eq!(entries[0].state, "active");
    assert_eq!(entries[1].id, 0);
    assert_eq!(entries[1].name, "");
    assert_eq!(list_workflows(&failed("boom")).unwrap_err(), "Failed to list workflows: boom");
    assert!(list_workflows(&ok("{}")).is_err());
    assert_eq!(
        list_workflows_args("o/r"),
        vec!["workflow", "list", "--json", "id,name,path,state", "-R", "o/r"]
    );
    let v = &list[0];
    match v {
        JsonValue::Object(m) => assert_eq!(m.len(), 4),
        _ => panic!("not an object"),
    }
}

#[test]
fn loading_dispatchable_workflows_keeps_only_dispatchable() {
    let list = list_workflows(&ok("[{\"id\":1,\"name\":\"A\",\"path\":\"a\",\"state\":\"active\"},{\"id\":2,\"name\":\"B\",\"path\":\"b\",\"state\":\"active\"},{\"id\":3,\"name\":\"C\",\"path\":\"c\",\"state\":\"active\"},{\"id\":4,\"name\":\"D\",\"path\":\"d\",\"state\":\"active\"}]")).unwrap();
    let entries = workflow_entries(&list);
    let texts = vec![
        Ok("on: workflow_dispatch\n".to_string()),
        Ok("on: push\n".to_string()),
        Err("Failed to fetch workflow YAML: nope".to_string()),
        Ok("on: [unclosed\n".to_string()),
    ];
    let wfs = load_dispatchable_workflows(&entries, &texts);
    assert_eq!(wfs.len(), 1);
    assert_eq!(wfs[0].id, 1);
    assert_eq!(wfs[0].name, "A");
    assert_eq!(wfs[0].path, "a");
}

#[test]
fn workflow_yaml_reply() {
    assert_eq!(get_workflow_yaml(&ok("on: push\n")).unwrap(), "on: push\n");
    let out = CommandOutput { success: true, stdout: vec![b'a', 0xff, b'b'], stderr: Vec::new() };
    assert_eq!(get_workflow_yaml(&out).unwrap(), "a\u{fffd}b");
    assert_eq!(get_workflow_yaml(&failed("x")).unwrap_err(), "Failed to fetch workflow YAML: x");
    assert_eq!(get_workflow_yaml_args("o/r", "CI"), vec!["workflow", "view", "CI", "--yaml", "-R", "o/r"]);
}

#[test]
fn dispatch_arguments_and_outcome() {
    let args = dispatch_workflow_args(
        "o/r",
        "Deploy",
        "main",
        &vec![("env".to_string(), "prod".to_string()), ("dry".to_string(), "true".to_string())],
    );
    assert_eq!(
        args,
        vec!["workflow", "run", "Deploy", "-R", "o/r", "--ref", "main", "-f", "env=prod", "-f", "dry=true"]
    );
    assert!(dispatch_workflow(&ok("")).is_ok());
    assert_eq!(dispatch_workflow(&failed(" denied ")).unwrap_err(), "Failed to dispatch workflow: denied");
}

#[test]
fn run_listing_arguments() {
    assert_eq!(
        list_runs_args("o/r", None, 30),
        vec![
            "run",
            "list",
            "--json",
            "databaseId,name,headBranch,status,conclusion,createdAt,workflowName",
            "-R",
            "o/r",
            "-L",
            "30"
        ]
    );
    let with = list_runs_args("o/r", Some("CI"), 5);
    assert_eq!(with[7], "5");
    assert_eq!(&with[8..], &["--workflow".to_string(), "CI".to_string()]);
    assert!(list_runs(&ok("[]")).is_ok());
    assert_eq!(list_runs(&failed("bad")).unwrap_err(), "Failed to list runs: bad");
}

#[test]
fn default_branch_reply() {
    assert_eq!(get_default_branch(&ok("develop\n")), "develop");
    assert_eq!(get_default_branch(&ok("  \n")), "main");
    assert_eq!(get_default_branch(&failed("x")), "main");
    assert_eq!(
        get_default_branch_args("o/r"),
        vec!["repo", "view", "o/r", "--json", "defaultBranchRef", "--jq", ".defaultBranchRef.name"]
    );
}
