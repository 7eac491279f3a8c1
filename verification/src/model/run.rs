//! A GitHub Actions workflow run, as `gh run list` reports it.

use vstd::prelude::*;
use crate::text::same_text;

verus! {

/// A GitHub Actions workflow run.
#[derive(Debug)]
pub struct WorkflowRun {
    pub database_id: u64,
    pub name: String,
    pub head_branch: String,
    pub status: String,
    pub conclusion: Option<String>,
    pub created_at: String,
    pub workflow_name: Option<String>,
}

impl Clone for WorkflowRun {
    fn clone(&self) -> (r: Self)
        ensures
            r == *self,
    {
        WorkflowRun {
            database_id: self.database_id,
            name: self.name.clone(),
            head_branch: self.head_branch.clone(),
            status: self.status.clone(),
            conclusion: match &self.conclusion {
                Some(c) => Some(c.clone()),
                None => None,
            },
            created_at: self.created_at.clone(),
            workflow_name: match &self.workflow_name {
                Some(w) => Some(w.clone()),
                None => None,
            },
        }
    }
}

/// The status a run is shown with: its conclusion once it has one, its
/// status before.
pub open spec fn shown_status(run: WorkflowRun) -> Seq<char> {
    match run.conclusion {
        Some(c) => c@,
        None => run.status@,
    }
}

/// The symbol shown in front of a run's status.
pub open spec fn symbol_for(status: Seq<char>) -> Seq<char> {
    if status == "success"@ {
        "✓"@
    } else if status == "failure"@ {
        "✗"@
    } else if status == "cancelled"@ {
        "⊘"@
    } else if status == "in_progress"@ {
        "●"@
    } else if status == "queued"@ || status == "waiting"@ {
        "◌"@
    } else {
        "?"@
    }
}

impl WorkflowRun {
    /// Returns a display-friendly status string.
    pub fn display_status(&self) -> (r: &str)
        ensures
            r@ == shown_status(*self),
    {
        match &self.conclusion {
            Some(c) => c.as_str(),
            None => self.status.as_str(),
        }
    }

    /// Returns a symbol for the run status.
    pub fn status_symbol(&self) -> (r: &str)
        ensures
            r@ == symbol_for(shown_status(*self)),
    {
        let s = self.display_status();
        if same_text(s, "success") {
            "✓"
        } else if same_text(s, "failure") {
            "✗"
        } else if same_text(s, "cancelled") {
            "⊘"
        } else if same_text(s, "in_progress") {
            "●"
        } else if same_text(s, "queued") {
            "◌"
        } else if same_text(s, "waiting") {
            "◌"
        } else {
            "?"
        }
    }
}

} // verus!
