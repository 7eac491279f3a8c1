# ratspatcher

A terminal interface for dispatching GitHub Actions workflows: keep a list of
repositories, find the workflows that have a `workflow_dispatch` trigger, fill
in their inputs in a form, dispatch them, and follow the latest runs. The work
with GitHub is done by the `gh` command line tool.

The decisions of the program are a library whose behaviour is stated in
contracts and proved with Verus; the terminal, the files and the `gh`
processes are driven by a thin program around it.

## Layout

- `src/` is the verified library.
  - `model/`: repositories, workflows with their inputs, and runs.
  - `text.rs`: trimming, searching and number formatting on text.
  - `input.rs`: key presses and the one-line text inputs of the forms.
  - `yaml.rs`, `json.rs`: the documents `gh` hands back, read through
    `serde_yaml` and `serde_json`.
  - `gh.rs`: the arguments given to `gh` and the reading of its replies,
    among them the dispatch inputs of a workflow definition.
  - `components/`: the sidebar, the workflow and run lists, and the two
    modals, each a small state machine from key presses to actions.
  - `app.rs`: the application state, what each action does to it, and the
    work (`Effect`) it asks of the program around it.
  - `laws.rs`: properties that span several operations, such as that every
    key press keeps the state well-formed, or that a refresh reloads the
    selected repository.
- `app/` is the program: the terminal loop, drawing with `ratatui`, the
  background `gh` calls and the saved list of repositories.
- `tests/` runs the library on concrete cases.
