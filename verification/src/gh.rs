//! What the `gh` command line tool is asked, and what is made of its replies:
//! the dispatch inputs of a workflow definition, the arguments of each
//! command, and the reading of each command's output.

use vstd::prelude::*;
use crate::model::workflow::{InputType, WorkflowInput, WorkflowInputView, inputs_view, strings_view, workflows_view};
use crate::model::repo::Repo;
use crate::model::workflow::{Workflow, WorkflowView};
use crate::json::{JsonValue, field, json_parse, json_parse_list, parse_json, parse_json_list};
use crate::text::{concat2, concat3, decimal, decimal_text, from_utf8_lossy, same_text, trim, trim_str, utf8_lossy};
use crate::yaml::{
    YamlValue, as_bool, as_sequence, as_str, get_bool, get_str, lemma_get_bool_valid, lemma_get_str_valid,
    lemma_lookup_str_valid, lookup_str, lookup_str_from, parse_yaml, tags_valid, yaml_debug, yaml_debug_text,
    yaml_parse,
};

verus! {

/// The input type named by a workflow's `type:` entry.
pub open spec fn input_type_named(t: Seq<char>) -> InputType {
    if t == "boolean"@ {
        InputType::Boolean
    } else if t == "choice"@ {
        InputType::Choice
    } else if t == "environment"@ {
        InputType::Environment
    } else {
        InputType::String
    }
}

/// The text a `default:` value is read as: a string as it is, a boolean as
/// `true` or `false`, anything else as `serde_yaml` prints it with `{:?}`.
pub open spec fn default_text(v: YamlValue) -> Seq<char> {
    match v {
        YamlValue::String(s) => s@,
        YamlValue::Bool(b) => if b {
            "true"@
        } else {
            "false"@
        },
        _ => yaml_debug(v),
    }
}

/// The strings among `items`, in order (`filter_map(as_str)`).
pub open spec fn string_items(items: Seq<YamlValue>) -> Seq<Seq<char>>
    decreases items.len(),
{
    if items.len() == 0 {
        Seq::empty()
    } else {
        let rest = string_items(items.drop_last());
        match as_str(items.last()) {
            Some(s) => rest.push(s),
            None => rest,
        }
    }
}

/// The text under `key` in `v`, or the empty text.
pub open spec fn str_entry(v: YamlValue, key: Seq<char>) -> Option<Seq<char>> {
    match get_str(v, key) {
        Some(x) => as_str(x),
        None => None,
    }
}

/// One dispatch input, read from its key and its definition.
pub open spec fn input_from_entry(key: YamlValue, value: YamlValue) -> Result<WorkflowInputView, Seq<char>> {
    match as_str(key) {
        None => Err("Input key is not a string"@),
        Some(name) => Ok(
            WorkflowInputView {
                name,
                description: match str_entry(value, "description"@) {
                    Some(d) => d,
                    None => Seq::empty(),
                },
                required: match get_str(value, "required"@) {
                    Some(x) => match as_bool(x) {
                        Some(b) => b,
                        None => false,
                    },
                    None => false,
                },
                default: match get_str(value, "default"@) {
                    Some(d) => Some(default_text(d)),
                    None => None,
                },
                input_type: match str_entry(value, "type"@) {
                    Some(t) => input_type_named(t),
                    None => InputType::String,
                },
                options: match get_str(value, "options"@) {
                    Some(o) => match as_sequence(o) {
                        Some(items) => string_items(items),
                        None => Seq::empty(),
                    },
                    None => Seq::empty(),
                },
            },
        ),
    }
}

/// The inputs read from the entries of `inputs:`, in order; the first entry
/// that cannot be read makes it an error.
pub open spec fn inputs_from_entries(entries: Seq<(YamlValue, YamlValue)>) -> Result<
    Seq<WorkflowInputView>,
    Seq<char>,
>
    decreases entries.len(),
{
    if entries.len() == 0 {
        Ok(Seq::empty())
    } else {
        match inputs_from_entries(entries.drop_last()) {
            Err(e) => Err(e),
            Ok(prefix) => match input_from_entry(entries.last().0, entries.last().1) {
                Err(e) => Err(e),
                Ok(i) => Ok(prefix.push(i)),
            },
        }
    }
}

/// Whether some item of a trigger list is the string `workflow_dispatch`.
pub open spec fn lists_dispatch(items: Seq<YamlValue>) -> bool {
    exists|i: int| 0 <= i < items.len() && as_str(#[trigger] items[i]) == Some("workflow_dispatch"@)
}

/// The `on:` entry of a workflow document (YAML 1.1 readers may have read
/// the key `on` as the boolean `true`).
pub open spec fn trigger_entry(doc: YamlValue) -> Option<YamlValue> {
    match get_str(doc, "on"@) {
        Some(v) => Some(v),
        None => get_bool(doc, true),
    }
}

/// The dispatch inputs of a workflow document: `None` when it has no
/// `workflow_dispatch` trigger, no inputs when the trigger is given as a
/// name, in a list, or without an `inputs:` mapping.
pub open spec fn dispatch_inputs(doc: YamlValue) -> Result<Option<Seq<WorkflowInputView>>, Seq<char>> {
    match trigger_entry(doc) {
        None => Ok(None),
        Some(on) => match on {
            YamlValue::String(s) => if s@ == "workflow_dispatch"@ {
                Ok(Some(Seq::empty()))
            } else {
                Ok(None)
            },
            YamlValue::Sequence(items) => if lists_dispatch(items@) {
                Ok(Some(Seq::empty()))
            } else {
                Ok(None)
            },
            YamlValue::Mapping(entries) => match lookup_str_from(entries@, "workflow_dispatch"@, 0) {
                None => Ok(None),
                Some(dispatch) => match get_str(dispatch, "inputs"@) {
                    Some(YamlValue::Mapping(m)) => match inputs_from_entries(m@) {
                        Ok(s) => Ok(Some(s)),
                        Err(e) => Err(e),
                    },
                    _ => Ok(Some(Seq::empty())),
                },
            },
            _ => Ok(None),
        },
    }
}

/// What `parse_workflow_inputs` gives for a workflow text.
pub open spec fn workflow_text_inputs(text: Seq<char>) -> Result<Option<Seq<WorkflowInputView>>, Seq<char>> {
    match yaml_parse(text) {
        Err(e) => Err("Failed to parse workflow YAML: "@ + e),
        Ok(doc) => dispatch_inputs(doc),
    }
}

/// The mathematical value of a result of reading inputs.
pub open spec fn inputs_result_view(r: Result<Option<Vec<WorkflowInput>>, String>) -> Result<
    Option<Seq<WorkflowInputView>>,
    Seq<char>,
> {
    match r {
        Ok(Some(v)) => Ok(Some(inputs_view(v@))),
        Ok(None) => Ok(None),
        Err(e) => Err(e@),
    }
}

proof fn lemma_inputs_error_stays(entries: Seq<(YamlValue, YamlValue)>, i: int, e: Seq<char>)
    requires
        0 <= i <= entries.len(),
        inputs_from_entries(entries.take(i)) == Err::<Seq<WorkflowInputView>, Seq<char>>(e),
    ensures
        inputs_from_entries(entries) == Err::<Seq<WorkflowInputView>, Seq<char>>(e),
    decreases entries.len() - i,
{
    if i < entries.len() {
        assert(entries.take(i + 1).drop_last() =~= entries.take(i));
        lemma_inputs_error_stays(entries, i + 1, e);
    } else {
        assert(entries.take(i) =~= entries);
    }
}

fn to_text(s: &str) -> (r: String)
    ensures
        r@ == s@,
{
    s.to_owned()
}

fn default_text_of(v: &YamlValue) -> (r: String)
    requires
        tags_valid(*v),
    ensures
        r@ == default_text(*v),
{
    match v {
        YamlValue::String(s) => s.clone(),
        YamlValue::Bool(b) => if *b {
            to_text("true")
        } else {
            to_text("false")
        },
        _ => yaml_debug_text(v),
    }
}

fn string_items_of(items: &Vec<YamlValue>) -> (r: Vec<String>)
    ensures
        strings_view(r@) == string_items(items@),
{
    let mut out: Vec<String> = Vec::new();
    let mut i: usize = 0;
    while i < items.len()
        invariant
            i <= items@.len(),
            strings_view(out@) == string_items(items@.take(i as int)),
        decreases items@.len() - i,
    {
        assert(items@.take(i + 1).drop_last() =~= items@.take(i as int));
        match items[i].as_str() {
            Some(s) => {
                out.push(s.to_owned());
                assert(strings_view(out@) =~= string_items(items@.take(i as int)).push(s@));
            },
            None => {},
        }
        i = i + 1;
    }
    assert(items@.take(items@.len() as int) =~= items@);
    out
}

fn input_from(key: &YamlValue, value: &YamlValue) -> (r: Result<WorkflowInput, String>)
    requires
        tags_valid(*value),
    ensures
        match r {
            Ok(i) => input_from_entry(*key, *value) == Ok::<WorkflowInputView, Seq<char>>(i@),
            Err(e) => input_from_entry(*key, *value) == Err::<WorkflowInputView, Seq<char>>(e@),
        },
{
    let name = match key.as_str() {
        Some(s) => s.to_owned(),
        None => return Err(to_text("Input key is not a string")),
    };
    let description = match value.get("description") {
        Some(d) => match d.as_str() {
            Some(s) => s.to_owned(),
            None => String::new(),
        },
        None => String::new(),
    };
    let required = match value.get("required") {
        Some(x) => match x.as_bool() {
            Some(b) => b,
            None => false,
        },
        None => false,
    };
    proof {
        lemma_get_str_valid(*value, "default"@);
    }
    let default = match value.get("default") {
        Some(d) => Some(default_text_of(d)),
        None => None,
    };
    let input_type = match value.get("type") {
        Some(t) => match t.as_str() {
            Some(s) => {
                if same_text(s, "boolean") {
                    InputType::Boolean
                } else if same_text(s, "choice") {
                    InputType::Choice
                } else if same_text(s, "environment") {
                    InputType::Environment
                } else {
                    InputType::String
                }
            },
            None => InputType::String,
        },
        None => InputType::String,
    };
    let options = match value.get("options") {
        Some(o) => match o.as_sequence() {
            Some(items) => string_items_of(items),
            None => Vec::new(),
        },
        None => Vec::new(),
    };
    proof {
        assert(strings_view(Seq::<String>::empty()) =~= Seq::<Seq<char>>::empty());
    }
    Ok(WorkflowInput { name, description, required, default, input_type, options })
}

/// Reads the dispatch inputs of a parsed workflow document. Returns `None`
/// if the workflow does not have a `workflow_dispatch` trigger.
pub fn workflow_inputs_of(doc: &YamlValue) -> (r: Result<Option<Vec<WorkflowInput>>, String>)
    requires
        tags_valid(*doc),
    ensures
        inputs_result_view(r) == dispatch_inputs(*doc),
{
    proof {
        lemma_get_str_valid(*doc, "on"@);
        lemma_get_bool_valid(*doc, true);
        assert(inputs_view(Seq::<WorkflowInput>::empty()) =~= Seq::<WorkflowInputView>::empty());
    }
    let on = match doc.get("on") {
        Some(v) => v,
        None => match doc.get_bool(true) {
            Some(v) => v,
            None => return Ok(None),
        },
    };
    let dispatch = match on {
        YamlValue::String(s) => {
            if same_text(s.as_str(), "workflow_dispatch") {
                return Ok(Some(Vec::new()));
            } else {
                return Ok(None);
            }
        },
        YamlValue::Sequence(items) => {
            let mut i: usize = 0;
            while i < items.len()
                invariant
                    i <= items@.len(),
                    trigger_entry(*doc) == Some(YamlValue::Sequence(*items)),
                    forall|k: int| 0 <= k < i ==> as_str(#[trigger] items@[k]) != Some("workflow_dispatch"@),
                decreases items@.len() - i,
            {
                match items[i].as_str() {
                    Some(s) => {
                        if same_text(s, "workflow_dispatch") {
                            assert(as_str(items@[i as int]) == Some("workflow_dispatch"@));
                            assert(inputs_view(Seq::<WorkflowInput>::empty()) =~= Seq::<WorkflowInputView>::empty());
                            return Ok(Some(Vec::new()));
                        }
                    },
                    None => {},
                }
                i = i + 1;
            }
            return Ok(None);
        },
        YamlValue::Mapping(entries) => match lookup_str(entries, "workflow_dispatch") {
            Some(v) => v,
            None => return Ok(None),
        },
        _ => return Ok(None),
    };
    if on.is_null() {
        return Ok(Some(Vec::new()));
    }
    proof {
        if let YamlValue::Mapping(entries) = on {
            assert forall|k: int| 0 <= k < entries@.len() implies tags_valid(#[trigger] entries@[k].1) by {
                assert(tags_valid(entries@[k].0) && tags_valid(entries@[k].1));
            }
            lemma_lookup_str_valid(entries@, "workflow_dispatch"@, 0);
        }
        lemma_get_str_valid(*dispatch, "inputs"@);
    }
    let inputs_map = match dispatch.get("inputs") {
        Some(YamlValue::Mapping(m)) => m,
        _ => return Ok(Some(Vec::new())),
    };
    proof {
        let m = YamlValue::Mapping(*inputs_map);
        assert(tags_valid(m));
        assert forall|k: int| 0 <= k < inputs_map@.len() implies tags_valid(#[trigger] inputs_map@[k].1) by {
            assert(tags_valid(inputs_map@[k].0) && tags_valid(inputs_map@[k].1));
        }
    }
    let mut inputs: Vec<WorkflowInput> = Vec::new();
    let mut i: usize = 0;
    while i < inputs_map.len()
        invariant
            i <= inputs_map@.len(),
            forall|k: int| 0 <= k < inputs_map@.len() ==> tags_valid(#[trigger] inputs_map@[k].1),
            dispatch_inputs(*doc) == match inputs_from_entries(inputs_map@) {
                Ok(s) => Ok(Some(s)),
                Err(e) => Err(e),
            },
            inputs_from_entries(inputs_map@.take(i as int)) == Ok::<Seq<WorkflowInputView>, Seq<char>>(
                inputs_view(inputs@),
            ),
        decreases inputs_map@.len() - i,
    {
        assert(inputs_map@.take(i + 1).drop_last() =~= inputs_map@.take(i as int));
        match input_from(&inputs_map[i].0, &inputs_map[i].1) {
            Ok(input) => {
                let ghost prev = inputs@;
                inputs.push(input);
                assert(inputs_view(inputs@) =~= inputs_view(prev).push(inputs@.last()@));
            },
            Err(e) => {
                proof {
                    lemma_inputs_error_stays(inputs_map@, i + 1, e@);
                }
                return Err(e);
            },
        }
        i = i + 1;
    }
    assert(inputs_map@.take(inputs_map@.len() as int) =~= inputs_map@);
    Ok(Some(inputs))
}

/// Parses a workflow YAML string and extracts its dispatch inputs.
/// Returns `None` if the workflow does not have a `workflow_dispatch` trigger.
pub fn parse_workflow_inputs(yaml_str: &str) -> (r: Result<Option<Vec<WorkflowInput>>, String>)
    ensures
        inputs_result_view(r) == workflow_text_inputs(yaml_str@),
{
    match parse_yaml(yaml_str) {
        Ok(doc) => workflow_inputs_of(&doc),
        Err(e) => {
            let mut msg = to_text("Failed to parse workflow YAML: ");
            msg.append(e.as_str());
            Err(msg)
        },
    }
}

/// What a finished `gh` command left: whether it exited successfully, and
/// the bytes it wrote to its standard output and standard error.
#[derive(Debug)]
pub struct CommandOutput {
    pub success: bool,
    pub stdout: Vec<u8>,
    pub stderr: Vec<u8>,
}

/// The message of a failed command: `prefix` and the command's standard
/// error, trimmed.
pub open spec fn failure_text(prefix: Seq<char>, stderr: Seq<u8>) -> Seq<char> {
    prefix + trim(utf8_lossy(stderr))
}

fn failure_message(prefix: &str, stderr: &Vec<u8>) -> (r: String)
    ensures
        r@ == failure_text(prefix@, stderr@),
{
    let err = from_utf8_lossy(stderr.as_slice());
    let trimmed = trim_str(err.as_str());
    concat2(prefix, trimmed.as_str())
}

/// What a check of a repository name gives: its full name as `gh` reports
/// it, or the error.
pub open spec fn repo_check(full_name: Seq<char>, output: CommandOutput) -> Result<Seq<char>, Seq<char>> {
    if !output.success {
        Err(failure_text("Failed to validate repo '"@ + full_name + "': "@, output.stderr@))
    } else {
        match json_parse(output.stdout@) {
            Err(e) => Err(e),
            Ok(v) => match crate::json::as_str(field(v, "nameWithOwner"@)) {
                Some(n) => Ok(n),
                None => Err("Missing nameWithOwner in response"@),
            },
        }
    }
}

/// The arguments of `gh` that check that a repository exists.
pub fn validate_repo_args(full_name: &str) -> (r: Vec<String>)
    ensures
        strings_view(r@) == seq!["repo"@, "view"@, full_name@, "--json"@, "nameWithOwner"@],
{
    let r = vec![to_text("repo"), to_text("view"), full_name.to_owned(), to_text("--json"), to_text("nameWithOwner")];
    assert(strings_view(r@) =~= seq!["repo"@, "view"@, full_name@, "--json"@, "nameWithOwner"@]);
    r
}

/// Reads the reply of `gh repo view <full_name> --json nameWithOwner`: the
/// repository, or why it could not be found.
pub fn validate_repo(full_name: &str, output: &CommandOutput) -> (r: Result<Repo, String>)
    ensures
        match r {
            Ok(repo) => repo_check(full_name@, *output) == Ok::<Seq<char>, Seq<char>>(repo.full_name@),
            Err(e) => repo_check(full_name@, *output) == Err::<Seq<char>, Seq<char>>(e@),
        },
{
    if !output.success {
        let prefix = concat3("Failed to validate repo '", full_name, "': ");
        return Err(failure_message(prefix.as_str(), &output.stderr));
    }
    let json = match parse_json(output.stdout.as_slice()) {
        Ok(v) => v,
        Err(e) => return Err(e),
    };
    match json.field_str("nameWithOwner") {
        Some(name) => Ok(Repo::new(name)),
        None => Err(to_text("Missing nameWithOwner in response")),
    }
}

/// What a listing of workflows gives: the entries, or the error.
pub open spec fn workflow_listing(output: CommandOutput) -> Result<Seq<JsonValue>, Seq<char>> {
    if !output.success {
        Err(failure_text("Failed to list workflows: "@, output.stderr@))
    } else {
        json_parse_list(output.stdout@)
    }
}

/// The arguments of `gh` that list the workflows of a repository.
pub fn list_workflows_args(repo: &str) -> (r: Vec<String>)
    ensures
        strings_view(r@) == seq!["workflow"@, "list"@, "--json"@, "id,name,path,state"@, "-R"@, repo@],
{
    let r = vec![
        to_text("workflow"),
        to_text("list"),
        to_text("--json"),
        to_text("id,name,path,state"),
        to_text("-R"),
        repo.to_owned(),
    ];
    assert(strings_view(r@) =~= seq!["workflow"@, "list"@, "--json"@, "id,name,path,state"@, "-R"@, repo@]);
    r
}

/// Reads the reply of `gh workflow list --json id,name,path,state`.
pub fn list_workflows(output: &CommandOutput) -> (r: Result<Vec<JsonValue>, String>)
    ensures
        match r {
            Ok(v) => workflow_listing(*output) == Ok::<Seq<JsonValue>, Seq<char>>(v@),
            Err(e) => workflow_listing(*output) == Err::<Seq<JsonValue>, Seq<char>>(e@),
        },
{
    if !output.success {
        return Err(failure_message("Failed to list workflows: ", &output.stderr));
    }
    parse_json_list(output.stdout.as_slice())
}

/// The arguments of `gh` that fetch the definition of a workflow.
pub fn get_workflow_yaml_args(repo: &str, workflow_name: &str) -> (r: Vec<String>)
    ensures
        strings_view(r@) == seq!["workflow"@, "view"@, workflow_name@, "--yaml"@, "-R"@, repo@],
{
    let r = vec![
        to_text("workflow"),
        to_text("view"),
        workflow_name.to_owned(),
        to_text("--yaml"),
        to_text("-R"),
        repo.to_owned(),
    ];
    assert(strings_view(r@) =~= seq!["workflow"@, "view"@, workflow_name@, "--yaml"@, "-R"@, repo@]);
    r
}

/// What fetching a workflow definition gives: its text, or the error.
pub open spec fn workflow_text(output: CommandOutput) -> Result<Seq<char>, Seq<char>> {
    if !output.success {
        Err(failure_text("Failed to fetch workflow YAML: "@, output.stderr@))
    } else {
        Ok(utf8_lossy(output.stdout@))
    }
}

/// Reads the reply of `gh workflow view <name> --yaml`.
pub fn get_workflow_yaml(output: &CommandOutput) -> (r: Result<String, String>)
    ensures
        match r {
            Ok(t) => workflow_text(*output) == Ok::<Seq<char>, Seq<char>>(t@),
            Err(e) => workflow_text(*output) == Err::<Seq<char>, Seq<char>>(e@),
        },
{
    if !output.success {
        return Err(failure_message("Failed to fetch workflow YAML: ", &output.stderr));
    }
    Ok(from_utf8_lossy(output.stdout.as_slice()))
}

/// A workflow as `gh workflow list` reports it.
#[derive(Debug)]
pub struct WorkflowEntry {
    pub id: u64,
    pub name: String,
    pub path: String,
    pub state: String,
}

/// A text, or the empty text.
pub open spec fn text_or_empty(o: Option<Seq<char>>) -> Seq<char> {
    match o {
        Some(s) => s,
        None => Seq::empty(),
    }
}

/// The entry read from one element of the listing: a missing or mistyped
/// id reads as 0, a missing or mistyped text as the empty text.
pub open spec fn entry_of(v: JsonValue) -> (u64, Seq<char>, Seq<char>, Seq<char>) {
    (
        match crate::json::as_u64(field(v, "id"@)) {
            Some(n) => n,
            None => 0,
        },
        text_or_empty(crate::json::as_str(field(v, "name"@))),
        text_or_empty(crate::json::as_str(field(v, "path"@))),
        text_or_empty(crate::json::as_str(field(v, "state"@))),
    )
}

/// The plain values of an entry.
pub open spec fn entry_view(e: WorkflowEntry) -> (u64, Seq<char>, Seq<char>, Seq<char>) {
    (e.id, e.name@, e.path@, e.state@)
}

fn text_field(v: &JsonValue, key: &str) -> (r: String)
    ensures
        r@ == text_or_empty(crate::json::as_str(field(*v, key@))),
{
    match v.field_str(key) {
        Some(s) => s.to_owned(),
        None => String::new(),
    }
}

/// Reads one element of the workflow listing.
pub fn workflow_entry(v: &JsonValue) -> (r: WorkflowEntry)
    ensures
        entry_view(r) == entry_of(*v),
{
    let id = match v.field_u64("id") {
        Some(n) => n,
        None => 0,
    };
    WorkflowEntry {
        id,
        name: text_field(v, "name"),
        path: text_field(v, "path"),
        state: text_field(v, "state"),
    }
}

/// Reads every element of the workflow listing, in order.
pub fn workflow_entries(list: &Vec<JsonValue>) -> (r: Vec<WorkflowEntry>)
    ensures
        r@.len() == list@.len(),
        forall|i: int| 0 <= i < list@.len() ==> entry_view(#[trigger] r@[i]) == entry_of(list@[i]),
{
    let mut r: Vec<WorkflowEntry> = Vec::new();
    let mut i: usize = 0;
    while i < list.len()
        invariant
            i <= list@.len(),
            r@.len() == i,
            forall|k: int| 0 <= k < i ==> entry_view(#[trigger] r@[k]) == entry_of(list@[k]),
        decreases list@.len() - i,
    {
        r.push(workflow_entry(&list[i]));
        i = i + 1;
    }
    r
}

/// The workflow made of an entry and its dispatch inputs.
pub open spec fn workflow_of(e: WorkflowEntry, inputs: Seq<WorkflowInputView>) -> WorkflowView {
    WorkflowView { id: e.id, name: e.name@, path: e.path@, state: e.state@, inputs }
}

/// The dispatchable workflows among the first `n` entries: those whose
/// definition was fetched, parsed, and has a `workflow_dispatch` trigger.
pub open spec fn dispatchable(entries: Seq<WorkflowEntry>, texts: Seq<Result<String, String>>, n: int) -> Seq<
    WorkflowView,
>
    decreases n,
{
    if n <= 0 {
        Seq::empty()
    } else {
        let prev = dispatchable(entries, texts, n - 1);
        match texts[n - 1] {
            Ok(text) => match workflow_text_inputs(text@) {
                Ok(Some(inputs)) => prev.push(workflow_of(entries[n - 1], inputs)),
                _ => prev,
            },
            Err(_) => prev,
        }
    }
}

/// Keeps the workflows that can be dispatched, with their inputs: of each
/// entry of the listing, `texts` holds at the same place what fetching its
/// definition gave. Workflows whose definition could not be fetched or
/// parsed, and those without a `workflow_dispatch` trigger, are left out.
pub fn load_dispatchable_workflows(entries: &Vec<WorkflowEntry>, texts: &Vec<Result<String, String>>) -> (r: Vec<Workflow>)
    requires
        entries@.len() == texts@.len(),
    ensures
        workflows_view(r@) == dispatchable(entries@, texts@, entries@.len() as int),
{
    let mut r: Vec<Workflow> = Vec::new();
    let mut i: usize = 0;
    while i < entries.len()
        invariant
            i <= entries@.len(),
            entries@.len() == texts@.len(),
            workflows_view(r@) == dispatchable(entries@, texts@, i as int),
        decreases entries@.len() - i,
    {
        match &texts[i] {
            Ok(text) => match parse_workflow_inputs(text.as_str()) {
                Ok(Some(inputs)) => {
                    let ghost prev = r@;
                    let e = &entries[i];
                    r.push(Workflow { id: e.id, name: e.name.clone(), path: e.path.clone(), state: e.state.clone(), inputs });
                    assert(workflows_view(r@) =~= workflows_view(prev).push(r@.last()@));
                },
                _ => {},
            },
            Err(_) => {},
        }
        i = i + 1;
    }
    r
}

/// The `-f key=value` arguments for the given inputs, in order.
pub open spec fn input_args(inputs: Seq<(String, String)>) -> Seq<Seq<char>>
    decreases inputs.len(),
{
    if inputs.len() == 0 {
        Seq::empty()
    } else {
        input_args(inputs.drop_last()) + seq!["-f"@, inputs.last().0@ + "="@ + inputs.last().1@]
    }
}

/// The arguments of `gh` that dispatch a workflow on a ref with inputs.
pub open spec fn dispatch_args(repo: Seq<char>, workflow_name: Seq<char>, ref_name: Seq<char>, inputs: Seq<
    (String, String),
>) -> Seq<Seq<char>> {
    seq!["workflow"@, "run"@, workflow_name, "-R"@, repo, "--ref"@, ref_name] + input_args(inputs)
}

/// The arguments of `gh` that dispatch `workflow_name` of `repo` on
/// `ref_name`, with `-f key=value` for each input.
pub fn dispatch_workflow_args(repo: &str, workflow_name: &str, ref_name: &str, inputs: &Vec<(String, String)>) -> (r: Vec<String>)
    ensures
        strings_view(r@) == dispatch_args(repo@, workflow_name@, ref_name@, inputs@),
{
    let mut r = vec![
        to_text("workflow"),
        to_text("run"),
        workflow_name.to_owned(),
        to_text("-R"),
        repo.to_owned(),
        to_text("--ref"),
        ref_name.to_owned(),
    ];
    let ghost head = seq!["workflow"@, "run"@, workflow_name@, "-R"@, repo@, "--ref"@, ref_name@];
    assert(strings_view(r@) =~= head + input_args(inputs@.take(0)));
    let mut i: usize = 0;
    while i < inputs.len()
        invariant
            i <= inputs@.len(),
            strings_view(r@) == head + input_args(inputs@.take(i as int)),
        decreases inputs@.len() - i,
    {
        assert(inputs@.take(i + 1).drop_last() =~= inputs@.take(i as int));
        let ghost prev = r@;
        r.push(to_text("-f"));
        r.push(concat3(inputs[i].0.as_str(), "=", inputs[i].1.as_str()));
        assert(strings_view(r@) =~= strings_view(prev) + seq!["-f"@, inputs@[i as int].0@ + "="@ + inputs@[i as int].1@]);
        i = i + 1;
    }
    assert(inputs@.take(inputs@.len() as int) =~= inputs@);
    r
}

/// What a dispatch gives: nothing, or the error.
pub open spec fn dispatch_outcome(output: CommandOutput) -> Result<(), Seq<char>> {
    if !output.success {
        Err(failure_text("Failed to dispatch workflow: "@, output.stderr@))
    } else {
        Ok(())
    }
}

/// Reads the outcome of `gh workflow run`.
pub fn dispatch_workflow(output: &CommandOutput) -> (r: Result<(), String>)
    ensures
        match r {
            Ok(_) => dispatch_outcome(*output) == Ok::<(), Seq<char>>(()),
            Err(e) => dispatch_outcome(*output) == Err::<(), Seq<char>>(e@),
        },
{
    if !output.success {
        return Err(failure_message("Failed to dispatch workflow: ", &output.stderr));
    }
    Ok(())
}

/// How many of the most recent runs the Runs tab lists.
pub const RUN_LIMIT: usize = 30;

/// The fields asked of each run.
pub open spec fn run_fields() -> Seq<char> {
    "databaseId,name,headBranch,status,conclusion,createdAt,workflowName"@
}

/// The arguments of `gh` that list the latest `limit` runs of a repository,
/// of one workflow when one is named.
pub open spec fn run_list_args(repo: Seq<char>, workflow_name: Option<Seq<char>>, limit: nat) -> Seq<Seq<char>> {
    let head = seq!["run"@, "list"@, "--json"@, run_fields(), "-R"@, repo, "-L"@, decimal(limit)];
    match workflow_name {
        Some(w) => head + seq!["--workflow"@, w],
        None => head,
    }
}

/// The arguments of `gh` that list recent runs.
pub fn list_runs_args(repo: &str, workflow_name: Option<&str>, limit: usize) -> (r: Vec<String>)
    ensures
        strings_view(r@) == run_list_args(
            repo@,
            match workflow_name {
                Some(w) => Some(w@),
                None => None,
            },
            limit as nat,
        ),
{
    let mut r = vec![
        to_text("run"),
        to_text("list"),
        to_text("--json"),
        to_text("databaseId,name,headBranch,status,conclusion,createdAt,workflowName"),
        to_text("-R"),
        repo.to_owned(),
        to_text("-L"),
        decimal_text(limit),
    ];
    let ghost head = seq!["run"@, "list"@, "--json"@, run_fields(), "-R"@, repo@, "-L"@, decimal(limit as nat)];
    assert(strings_view(r@) =~= head);
    match workflow_name {
        Some(w) => {
            r.push(to_text("--workflow"));
            r.push(w.to_owned());
            assert(strings_view(r@) =~= head + seq!["--workflow"@, w@]);
        },
        None => {},
    }
    r
}

/// What a listing of runs gives: nothing (the runs are then read from the
/// standard output), or the error.
pub open spec fn run_listing(output: CommandOutput) -> Result<(), Seq<char>> {
    if !output.success {
        Err(failure_text("Failed to list runs: "@, output.stderr@))
    } else {
        Ok(())
    }
}

/// Reads the outcome of `gh run list`; on success the runs are to be read
/// from `output.stdout`, a JSON array of runs.
pub fn list_runs(output: &CommandOutput) -> (r: Result<(), String>)
    ensures
        match r {
            Ok(_) => run_listing(*output) == Ok::<(), Seq<char>>(()),
            Err(e) => run_listing(*output) == Err::<(), Seq<char>>(e@),
        },
{
    if !output.success {
        return Err(failure_message("Failed to list runs: ", &output.stderr));
    }
    Ok(())
}

/// The arguments of `gh` that ask for the default branch of a repository.
pub fn get_default_branch_args(repo: &str) -> (r: Vec<String>)
    ensures
        strings_view(r@) == seq![
            "repo"@,
            "view"@,
            repo@,
            "--json"@,
            "defaultBranchRef"@,
            "--jq"@,
            ".defaultBranchRef.name"@,
        ],
{
    let r = vec![
        to_text("repo"),
        to_text("view"),
        repo.to_owned(),
        to_text("--json"),
        to_text("defaultBranchRef"),
        to_text("--jq"),
        to_text(".defaultBranchRef.name"),
    ];
    assert(strings_view(r@) =~= seq![
        "repo"@,
        "view"@,
        repo@,
        "--json"@,
        "defaultBranchRef"@,
        "--jq"@,
        ".defaultBranchRef.name"@,
    ]);
    r
}

/// The default branch read from a reply: what `gh` printed, trimmed, and
/// `main` when the command failed or printed nothing.
pub open spec fn default_branch(output: CommandOutput) -> Seq<char> {
    if !output.success {
        "main"@
    } else {
        let b = trim(utf8_lossy(output.stdout@));
        if b.len() == 0 {
            "main"@
        } else {
            b
        }
    }
}

/// Reads the reply of `gh repo view --json defaultBranchRef`.
pub fn get_default_branch(output: &CommandOutput) -> (r: String)
    ensures
        r@ == default_branch(*output),
{
    if !output.success {
        return to_text("main");
    }
    let out = from_utf8_lossy(output.stdout.as_slice());
    let branch = trim_str(out.as_str());
    if branch.as_str().is_empty() {
        to_text("main")
    } else {
        branch
    }
}

} // verus!
