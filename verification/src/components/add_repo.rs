//! The modal in which a repository is added by its `owner/repo` name.

use vstd::prelude::*;
use crate::action::{Action, ActionView};
use crate::components::{Component, Tone};
use crate::input::{CONTROL, Key, KeyCode, TextInput, TextInputView, empty_input, holds_modifier, tui_input_edit};
use crate::model::workflow::opt_view;
use crate::text::{contains_char, has_char, trim, trim_str};

verus! {

pub struct AddRepoModal {
    pub input: TextInput,
    pub visible: bool,
    pub error_msg: Option<String>,
    pub loading: bool,
}

/// The mathematical value of an [`AddRepoModal`].
pub struct AddRepoModalView {
    pub input: TextInputView,
    pub visible: bool,
    pub error_msg: Option<Seq<char>>,
    pub loading: bool,
}

impl View for AddRepoModal {
    type V = AddRepoModalView;

    open spec fn view(&self) -> AddRepoModalView {
        AddRepoModalView {
            input: self.input@,
            visible: self.visible,
            error_msg: opt_view(self.error_msg),
            loading: self.loading,
        }
    }
}

/// The modal, emptied and shown (`visible`) or hidden.
pub open spec fn modal_reset(visible: bool) -> AddRepoModalView {
    AddRepoModalView { input: empty_input(), visible, error_msg: None, loading: false }
}

/// The input after `tui_input` handled a key press.
pub open spec fn edited(i: TextInputView, key: Key) -> TextInputView {
    let e = tui_input_edit(i.value, i.cursor, key.code, key.modifiers);
    TextInputView { value: e.0, cursor: e.1 }
}

/// The modal after a key press, and the action it stands for: Esc or
/// Ctrl+C closes; Enter asks to add the trimmed name when it has an owner
/// and a name, and shows why not otherwise; other keys edit the name. While
/// hidden or while a name is being checked, keys do nothing.
pub open spec fn add_repo_key(v: AddRepoModalView, key: Key) -> (AddRepoModalView, ActionView) {
    if !v.visible || v.loading {
        (v, ActionView::Noop)
    } else {
        match key.code {
            KeyCode::Esc => (modal_reset(false), ActionView::CloseModal),
            KeyCode::Enter => {
                let value = trim(v.input.value);
                if value.len() == 0 {
                    (AddRepoModalView { error_msg: Some("Please enter a repo name"@), ..v }, ActionView::Noop)
                } else if !has_char(value, '/') {
                    (AddRepoModalView { error_msg: Some("Format: owner/repo"@), ..v }, ActionView::Noop)
                } else {
                    (AddRepoModalView { loading: true, error_msg: None, ..v }, ActionView::AddRepo(value))
                }
            },
            KeyCode::Char('c') if holds_modifier(key.modifiers, CONTROL) => (
                modal_reset(false),
                ActionView::CloseModal,
            ),
            _ => (AddRepoModalView { input: edited(v.input, key), error_msg: None, ..v }, ActionView::Noop),
        }
    }
}

impl AddRepoModal {
    pub fn new() -> (r: Self)
        ensures
            r@ == modal_reset(false),
    {
        AddRepoModal { input: TextInput::new(), visible: false, error_msg: None, loading: false }
    }

    pub fn open(&mut self)
        ensures
            final(self)@ == modal_reset(true),
    {
        self.visible = true;
        self.input.reset();
        self.error_msg = None;
        self.loading = false;
    }

    pub fn close(&mut self)
        ensures
            final(self)@ == modal_reset(false),
    {
        self.visible = false;
        self.input.reset();
        self.error_msg = None;
        self.loading = false;
    }
}

/// The title of the modal: it says so while the name is being checked.
pub open spec fn modal_title(v: AddRepoModalView) -> Seq<char> {
    if v.loading {
        " Validating repo... "@
    } else {
        " Add Repository (owner/repo) "@
    }
}

/// The border color of the modal: red while an error is shown.
pub open spec fn modal_border_tone(v: AddRepoModalView) -> Tone {
    if v.error_msg is Some {
        Tone::Red
    } else {
        Tone::Cyan
    }
}

impl AddRepoModal {
    /// The title of the modal.
    pub fn title(&self) -> (r: &'static str)
        ensures
            r@ == modal_title(self@),
    {
        if self.loading {
            " Validating repo... "
        } else {
            " Add Repository (owner/repo) "
        }
    }

    /// The border color of the modal.
    pub fn border_tone(&self) -> (r: Tone)
        ensures
            r == modal_border_tone(self@),
    {
        if self.error_msg.is_some() {
            Tone::Red
        } else {
            Tone::Cyan
        }
    }
}

impl Component for AddRepoModal {
    fn handle_key_event(&mut self, key: Key) -> (r: Action)
        ensures
            (final(self)@, r@) == add_repo_key(old(self)@, key),
    {
        if !self.visible || self.loading {
            return Action::Noop;
        }
        match key.code {
            KeyCode::Esc => {
                self.close();
                Action::CloseModal
            },
            KeyCode::Enter => {
                let value = trim_str(self.input.value());
                if value.as_str().is_empty() {
                    self.error_msg = Some("Please enter a repo name".to_owned());
                    Action::Noop
                } else if !contains_char(value.as_str(), '/') {
                    self.error_msg = Some("Format: owner/repo".to_owned());
                    Action::Noop
                } else {
                    self.loading = true;
                    self.error_msg = None;
                    Action::AddRepo(value)
                }
            },
            KeyCode::Char('c') if key.ctrl() => {
                self.close();
                Action::CloseModal
            },
            _ => {
                self.input.handle_key(key);
                self.error_msg = None;
                Action::Noop
            },
        }
    }
}

} // verus!
