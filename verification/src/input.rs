//! Key presses and single-line text inputs.
//!
//! A key press is held as plain values: the key and the modifier bits, with
//! the bit values that `crossterm` gives them. Editing a text input on a key
//! press is the work of `tui_input`, reached through one trusted item.

use vstd::prelude::*;
use crossterm::event::KeyCode as CtKeyCode;
use tui_input::backend::crossterm::EventHandler;

verus! {

/// The keys that the panels tell apart.
#[derive(Debug, Clone, Copy, PartialEq, Eq, Structural)]
pub enum KeyCode {
    Char(char),
    Backspace,
    Enter,
    Left,
    Right,
    Up,
    Down,
    Home,
    End,
    Tab,
    /// Shift+Tab, as terminals report it.
    BackTab,
    Delete,
    Esc,
    /// Any other key: no panel and no text input reacts to it.
    Other,
}

/// The SHIFT modifier bit.
pub const SHIFT: u8 = 1;

/// The CONTROL modifier bit.
pub const CONTROL: u8 = 2;

/// The ALT modifier bit.
pub const ALT: u8 = 4;

/// The META modifier bit.
pub const META: u8 = 32;

/// A key press: the key and the modifiers held down with it.
#[derive(Debug, Clone, Copy, PartialEq, Eq, Structural)]
pub struct Key {
    pub code: KeyCode,
    pub modifiers: u8,
}

/// Whether the modifier bits `m` hold `bit`.
pub open spec fn holds_modifier(m: u8, bit: u8) -> bool {
    m & bit == bit
}

impl Key {
    /// A key press without modifiers.
    pub fn plain(code: KeyCode) -> (r: Key)
        ensures
            r.code == code,
            r.modifiers == 0,
    {
        Key { code, modifiers: 0 }
    }

    /// A key press with the given modifier bits.
    pub fn with_modifiers(code: KeyCode, modifiers: u8) -> (r: Key)
        ensures
            r.code == code,
            r.modifiers == modifiers,
    {
        Key { code, modifiers }
    }

    /// Whether SHIFT was held.
    pub fn shift(&self) -> (r: bool)
        ensures
            r == holds_modifier(self.modifiers, SHIFT),
    {
        self.modifiers & SHIFT == SHIFT
    }

    /// Whether CONTROL was held.
    pub fn ctrl(&self) -> (r: bool)
        ensures
            r == holds_modifier(self.modifiers, CONTROL),
    {
        self.modifiers & CONTROL == CONTROL
    }
}

/// The mathematical value of a [`TextInput`].
pub struct TextInputView {
    pub value: Seq<char>,
    pub cursor: nat,
}

/// A single-line text buffer with a cursor, counted in characters.
#[derive(Debug)]
pub struct TextInput {
    pub value: String,
    pub cursor: usize,
}

impl View for TextInput {
    type V = TextInputView;

    open spec fn view(&self) -> TextInputView {
        TextInputView { value: self.value@, cursor: self.cursor as nat }
    }
}

/// An empty input.
pub open spec fn empty_input() -> TextInputView {
    TextInputView { value: Seq::empty(), cursor: 0 }
}

/// An input holding `s`, with the cursor after its last character.
pub open spec fn input_with(s: Seq<char>) -> TextInputView {
    TextInputView { value: s, cursor: s.len() }
}

/// What `tui_input` makes of an input holding `value` with the cursor at
/// `cursor` when the key `code` is pressed with the modifier bits
/// `modifiers`: the new text and the new cursor.
pub uninterp spec fn tui_input_edit(value: Seq<char>, cursor: nat, code: KeyCode, modifiers: u8) -> (
    Seq<char>,
    nat,
);

/// Calls `tui_input`'s `Input::handle_event` on an input built by
/// `Input::new(value).with_cursor(cursor)`, for the key press `key` turned
/// into a `crossterm` key event. The keys this library does not tell apart
/// go to `tui_input` as `KeyCode::Null`, which `tui_input` ignores, as it
/// ignores Enter, Esc, Tab, Up and Down. The contract names the outcome
/// ([`tui_input_edit`]) and claims that it depends on nothing but the text,
/// the cursor, the key and its modifiers.
#[verifier::external_body]
fn tui_input_handle_key(value: &String, cursor: usize, key: Key) -> (r: (String, usize))
    ensures
        (r.0@, r.1 as nat) == tui_input_edit(value@, cursor as nat, key.code, key.modifiers),
{
    let code = match key.code {
        KeyCode::Char(c) => CtKeyCode::Char(c),
        KeyCode::Backspace => CtKeyCode::Backspace,
        KeyCode::Left => CtKeyCode::Left,
        KeyCode::Right => CtKeyCode::Right,
        KeyCode::Home => CtKeyCode::Home,
        KeyCode::End => CtKeyCode::End,
        KeyCode::Delete => CtKeyCode::Delete,
        _ => CtKeyCode::Null,
    };
    let mods = crossterm::event::KeyModifiers::from_bits_truncate(key.modifiers);
    let mut input = tui_input::Input::new(value.clone()).with_cursor(cursor);
    input.handle_event(&crossterm::event::Event::Key(crossterm::event::KeyEvent::new(code, mods)));
    (input.value().to_string(), input.cursor())
}

impl TextInput {
    /// An empty input (`Input::default()`).
    pub fn new() -> (r: TextInput)
        ensures
            r@ == empty_input(),
    {
        TextInput { value: String::new(), cursor: 0 }
    }

    /// An input holding `value`, with the cursor at its end (`with_value`).
    pub fn with_value(value: String) -> (r: TextInput)
        ensures
            r@ == input_with(value@),
    {
        let n = value.as_str().unicode_len();
        TextInput { value, cursor: n }
    }

    /// Empties the input (`reset`).
    pub fn reset(&mut self)
        ensures
            final(self)@ == empty_input(),
    {
        self.value = String::new();
        self.cursor = 0;
    }

    /// The text held.
    pub fn value(&self) -> (r: &str)
        ensures
            r@ == self.value@,
    {
        self.value.as_str()
    }

    /// Edits the input as `tui_input` does on the key press `key`.
    pub fn handle_key(&mut self, key: Key)
        ensures
            (final(self)@.value, final(self)@.cursor) == tui_input_edit(
                old(self)@.value,
                old(self)@.cursor,
                key.code,
                key.modifiers,
            ),
    {
        let (v, c) = tui_input_handle_key(&self.value, self.cursor, key);
        self.value = v;
        self.cursor = c;
    }
}

} // verus!
