//! The table of recent runs of the selected repository.

use vstd::prelude::*;
use crate::action::{Action, ActionView};
use crate::components::{Component, PanelState, Selection, Tone, border_tone, border_tone_of, panel_state, panel_state_of, select_down, select_first, select_up};
use crate::model::run::{shown_status, symbol_for};
use crate::text::{concat3, same_text};
use crate::input::{Key, KeyCode};
use crate::model::run::WorkflowRun;
use vstd::string::StringSliceAdditionalSpecFns;

verus! {

pub struct RunList {
    pub runs: Vec<WorkflowRun>,
    pub state: Selection,
    pub focused: bool,
    pub loading: bool,
    pub error: Option<String>,
}

/// The mathematical value of a [`RunList`].
pub struct RunListView {
    pub runs: Seq<WorkflowRun>,
    pub selected: Option<usize>,
    pub focused: bool,
    pub loading: bool,
    pub error: Option<Seq<char>>,
}

impl View for RunList {
    type V = RunListView;

    open spec fn view(&self) -> RunListView {
        RunListView {
            runs: self.runs@,
            selected: self.state.selected,
            focused: self.focused,
            loading: self.loading,
            error: crate::model::workflow::opt_view(self.error),
        }
    }
}

/// The list showing `runs`, the first one selected.
pub open spec fn show_runs(v: RunListView, runs: Seq<WorkflowRun>) -> RunListView {
    RunListView { runs, selected: select_first(runs.len()), loading: false, error: None, ..v }
}

/// The list showing an error.
pub open spec fn show_run_error(v: RunListView, err: Seq<char>) -> RunListView {
    RunListView { error: Some(err), loading: false, ..v }
}

/// The list emptied.
pub open spec fn clear_runs(v: RunListView) -> RunListView {
    RunListView { runs: Seq::empty(), selected: None, error: None, loading: false, ..v }
}

/// The list after a move up or down.
pub open spec fn move_runs(v: RunListView, up: bool) -> RunListView {
    RunListView {
        selected: if up {
            select_up(v.selected)
        } else {
            select_down(v.selected, v.runs.len())
        },
        ..v
    }
}

/// The action a key press stands for in the workflow list.
pub open spec fn run_list_key(v: RunListView, key: Key) -> ActionView {
    if !v.focused {
        ActionView::Noop
    } else {
        match key.code {
            KeyCode::Char('j') | KeyCode::Down => ActionView::Down,
            KeyCode::Char('k') | KeyCode::Up => ActionView::Up,
            KeyCode::Char('h') | KeyCode::Left => ActionView::FocusSidebar,
            KeyCode::Tab => ActionView::TabWorkflows,
            KeyCode::Char('q') => ActionView::Quit,
            KeyCode::Char('r') => ActionView::Refresh,
            KeyCode::Char('R') => ActionView::RerunLastWorkflow,
            _ => ActionView::Noop,
        }
    }
}

impl RunList {
    pub fn new() -> (r: Self)
        ensures
            r@ == (RunListView {
                runs: Seq::empty(),
                selected: None,
                focused: false,
                loading: false,
                error: None,
            }),
    {
        let r = RunList { runs: Vec::new(), state: Selection::new(), focused: false, loading: false, error: None };
        r
    }

    pub fn set_runs(&mut self, runs: Vec<WorkflowRun>)
        ensures
            final(self)@ == show_runs(old(self)@, runs@),
    {
        self.runs = runs;
        self.loading = false;
        self.error = None;
        if !self.runs.is_empty() {
            self.state.select(Some(0));
        } else {
            self.state.select(None);
        }
    }

    pub fn set_error(&mut self, err: String)
        ensures
            final(self)@ == show_run_error(old(self)@, err@),
    {
        self.error = Some(err);
        self.loading = false;
    }

    pub fn clear(&mut self)
        ensures
            final(self)@ == clear_runs(old(self)@),
    {
        self.runs.clear();
        self.state.select(None);
        self.error = None;
        self.loading = false;
    }
}

/// The color a run's status is shown in.
pub open spec fn status_tone(status: Seq<char>) -> Tone {
    if status == "success"@ {
        Tone::Green
    } else if status == "failure"@ {
        Tone::Red
    } else if status == "cancelled"@ {
        Tone::Yellow
    } else if status == "in_progress"@ {
        Tone::Blue
    } else if status == "queued"@ || status == "waiting"@ {
        Tone::DarkGray
    } else {
        Tone::White
    }
}

/// The name a run is listed under: its workflow's name when known.
pub open spec fn run_label(run: WorkflowRun) -> Seq<char> {
    match run.workflow_name {
        Some(w) => w@,
        None => run.name@,
    }
}

impl RunList {
    /// What the panel body shows.
    pub fn panel_state(&self) -> (r: PanelState)
        ensures
            r == panel_state(self.loading, self.error is Some, self.runs@.len()),
    {
        panel_state_of(self.loading, self.error.is_some(), self.runs.len())
    }

    /// The border color of the panel.
    pub fn border_tone(&self) -> (r: Tone)
        ensures
            r == border_tone(self.focused),
    {
        border_tone_of(self.focused)
    }

    /// The color of a run's status.
    pub fn status_tone(run: &WorkflowRun) -> (r: Tone)
        ensures
            r == status_tone(shown_status(*run)),
    {
        let s = run.display_status();
        if same_text(s, "success") {
            Tone::Green
        } else if same_text(s, "failure") {
            Tone::Red
        } else if same_text(s, "cancelled") {
            Tone::Yellow
        } else if same_text(s, "in_progress") {
            Tone::Blue
        } else if same_text(s, "queued") || same_text(s, "waiting") {
            Tone::DarkGray
        } else {
            Tone::White
        }
    }

    /// The status cell of a run: its symbol and its status.
    pub fn status_text(run: &WorkflowRun) -> (r: String)
        ensures
            r@ == symbol_for(shown_status(*run)) + " "@ + shown_status(*run),
    {
        concat3(run.status_symbol(), " ", run.display_status())
    }

    /// The name a run is listed under.
    pub fn run_label(run: &WorkflowRun) -> (r: &str)
        ensures
            r@ == run_label(*run),
    {
        match &run.workflow_name {
            Some(w) => w.as_str(),
            None => run.name.as_str(),
        }
    }
}

impl Component for RunList {
    fn handle_key_event(&mut self, key: Key) -> (r: Action)
        ensures
            *final(self) == *old(self),
            r@ == run_list_key(old(self)@, key),
    {
        if !self.focused {
            return Action::Noop;
        }
        match key.code {
            KeyCode::Char('j') | KeyCode::Down => Action::Down,
            KeyCode::Char('k') | KeyCode::Up => Action::Up,
            KeyCode::Char('h') | KeyCode::Left => Action::FocusSidebar,
            KeyCode::Tab => Action::TabWorkflows,
            KeyCode::Char('q') => Action::Quit,
            KeyCode::Char('r') => Action::Refresh,
            KeyCode::Char('R') => Action::RerunLastWorkflow,
            _ => Action::Noop,
        }
    }

    fn update(&mut self, action: &Action) -> (r: Option<Action>)
        ensures
            r is None,
            match *action {
                Action::Up => final(self)@ == move_runs(old(self)@, true),
                Action::Down => final(self)@ == move_runs(old(self)@, false),
                _ => *final(self) == *old(self),
            },
            final(self).runs == old(self).runs,
    {
        match action {
            Action::Up => {
                if let Some(selected) = self.state.selected() {
                    if selected > 0 {
                        self.state.select(Some(selected - 1));
                    }
                }
            },
            Action::Down => {
                if let Some(selected) = self.state.selected() {
                    if self.runs.len() > 0 && selected < self.runs.len() - 1 {
                        self.state.select(Some(selected + 1));
                    }
                } else if !self.runs.is_empty() {
                    self.state.select(Some(0));
                }
            },
            _ => {},
        }
        None
    }
}

/// `s` with every `T` replaced by a space.
pub open spec fn t_to_space(s: Seq<char>) -> Seq<char> {
    s.map_values(|c: char| if c == 'T' { ' ' } else { c })
}

/// The text a run's creation time is shown as: the first 16 bytes of the
/// ISO timestamp (date, hours and minutes) with `T` replaced by a space, or
/// the timestamp unchanged when it is shorter.
pub open spec fn short_time(iso: &str) -> Seq<char> {
    let bytes = iso.spec_bytes();
    if bytes.len() >= 16 {
        t_to_space(vstd::utf8::decode_utf8(bytes.subrange(0, 16)))
    } else {
        iso@
    }
}

/// Format an ISO timestamp to a shorter display format. Cutting a text at
/// byte 16 needs byte 16 to start a character, hence the requirement; the
/// other one holds of every text in memory.
pub fn format_time(iso: &str) -> (r: String)
    requires
        iso.spec_bytes().len() <= usize::MAX,
        iso.spec_bytes().len() >= 16 ==> vstd::utf8::is_char_boundary(iso.spec_bytes(), 16),
    ensures
        r@ == short_time(iso),
{
    if iso.len() >= 16 {
        let (head, _) = iso.split_at(16);
        proof {
            vstd::utf8::encode_utf8_decode_utf8(head@);
            assert(head.spec_bytes() == iso.spec_bytes().subrange(0, 16));
            assert(vstd::utf8::decode_utf8(iso.spec_bytes().subrange(0, 16)) == head@);
        }
        let n = head.unicode_len();
        let mut r = String::new();
        let mut i: usize = 0;
        while i < n
            invariant
                n == head@.len(),
                i <= n,
                r@ == t_to_space(head@.take(i as int)),
            decreases n - i,
        {
            let c = head.get_char(i);
            if c == 'T' {
                r.append(" ");
            } else {
                r.append(head.substring_char(i, i + 1));
            }
            proof {
                reveal_strlit(" ");
                assert(t_to_space(head@.take(i + 1)) =~= t_to_space(head@.take(i as int)).push(
                    if c == 'T' { ' ' } else { c },
                ));
            }
            i = i + 1;
        }
        assert(head@.take(n as int) =~= head@);
        assert(r@ == short_time(iso));
        r
    } else {
        iso.to_owned()
    }
}

} // verus!
