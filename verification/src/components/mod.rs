//! The panels of the interface: each keeps its own state, turns key presses
//! into actions, and reacts to the actions meant for it.

pub mod repo_list;
pub mod workflow_list;
pub mod run_list;
pub mod add_repo;
pub mod dispatch_form;

use vstd::prelude::*;
use crate::action::Action;
use crate::input::Key;

verus! {

/// Trait that all UI components implement.
/// Each component manages its own state and handles key events.
pub trait Component: Sized {
    /// Handle a key event and return an Action to be processed by the app.
    fn handle_key_event(&mut self, key: Key) -> Action;

    /// Update component state in response to an action.
    /// Returns a follow-up action if needed. Unless a component says
    /// otherwise, an action leaves it as it was and asks for nothing more.
    fn update(&mut self, action: &Action) -> (r: Option<Action>)
        default_ensures
            r is None,
            *final(self) == *old(self),
    {
        None
    }
}

/// The colors the panels are drawn with.
#[derive(Debug, Clone, Copy, PartialEq, Eq, Structural)]
pub enum Tone {
    White,
    DarkGray,
    Yellow,
    Red,
    Green,
    Blue,
    Cyan,
}

/// What the body of a list panel shows.
#[derive(Debug, Clone, Copy, PartialEq, Eq, Structural)]
pub enum PanelState {
    /// A load is under way.
    Loading,
    /// The last load failed; the error is shown.
    Error,
    /// There is nothing to list.
    Empty,
    /// The rows are listed.
    Rows,
}

/// The state of a list panel: loading before an error, an error before an
/// empty list.
pub open spec fn panel_state(loading: bool, has_error: bool, len: nat) -> PanelState {
    if loading {
        PanelState::Loading
    } else if has_error {
        PanelState::Error
    } else if len == 0 {
        PanelState::Empty
    } else {
        PanelState::Rows
    }
}

/// The border color of a panel: cyan when it has focus.
pub open spec fn border_tone(focused: bool) -> Tone {
    if focused {
        Tone::Cyan
    } else {
        Tone::DarkGray
    }
}

/// The border color of a panel.
pub fn border_tone_of(focused: bool) -> (r: Tone)
    ensures
        r == border_tone(focused),
{
    if focused {
        Tone::Cyan
    } else {
        Tone::DarkGray
    }
}

/// The state of a list panel.
pub fn panel_state_of(loading: bool, has_error: bool, len: usize) -> (r: PanelState)
    ensures
        r == panel_state(loading, has_error, len as nat),
{
    if loading {
        PanelState::Loading
    } else if has_error {
        PanelState::Error
    } else if len == 0 {
        PanelState::Empty
    } else {
        PanelState::Rows
    }
}

/// Which row of a list is selected, if any.
#[derive(Debug, Clone, Copy, PartialEq, Eq, Structural)]
pub struct Selection {
    pub selected: Option<usize>,
}

impl Selection {
    /// Nothing selected.
    pub fn new() -> (r: Selection)
        ensures
            r.selected is None,
    {
        Selection { selected: None }
    }

    /// The selected row.
    pub fn selected(&self) -> (r: Option<usize>)
        ensures
            r == self.selected,
    {
        self.selected
    }

    /// Selects a row, or none.
    pub fn select(&mut self, index: Option<usize>)
        ensures
            final(self).selected == index,
    {
        self.selected = index;
    }
}

/// The selection after moving up: one row up, unless at the top or nothing
/// is selected.
pub open spec fn select_up(sel: Option<usize>) -> Option<usize> {
    match sel {
        Some(i) => if i > 0 {
            Some((i - 1) as usize)
        } else {
            sel
        },
        None => sel,
    }
}

/// The selection after moving down in a list of `len` rows: one row down,
/// unless at the bottom; the first row when nothing is selected.
pub open spec fn select_down(sel: Option<usize>, len: nat) -> Option<usize> {
    match sel {
        Some(i) => if i + 1 < len {
            Some((i + 1) as usize)
        } else {
            sel
        },
        None => if len > 0 {
            Some(0)
        } else {
            sel
        },
    }
}

/// The selection after a list's content was replaced by `len` rows.
pub open spec fn select_first(len: nat) -> Option<usize> {
    if len > 0 {
        Some(0)
    } else {
        None
    }
}

/// A selection that is, when present, a row of a list of `len` rows.
pub open spec fn selection_in(sel: Option<usize>, len: nat) -> bool {
    match sel {
        Some(i) => i < len,
        None => true,
    }
}

} // verus!
