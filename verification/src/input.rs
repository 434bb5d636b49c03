//! The line on which the filter is typed, kept by `tui_input`.

use crate::key::{KeyCode, KeyEvent, NONE, SHIFT};
use tui_input::backend::crossterm::EventHandler;
use tui_input::Input;
use vstd::prelude::*;

verus! {

/// `tui_input::Input`: a line of text with a cursor.
#[verifier::external_type_specification]
#[verifier::external_body]
pub struct ExInput(Input);

/// The text that an input line holds.
pub uninterp spec fn input_text(input: Input) -> Seq<char>;

/// How many characters of an input line stand before its cursor.
pub uninterp spec fn input_cursor(input: Input) -> nat;

/// Where a character goes that is typed into a line: at the cursor, or at the
/// end if the cursor stands beyond it.
pub open spec fn place_of(text: Seq<char>, cursor: nat) -> int {
    if cursor <= text.len() {
        cursor as int
    } else {
        text.len() as int
    }
}

/// A key that types its character: a character with nothing but Shift held.
pub open spec fn types(key: KeyEvent) -> bool {
    key.code is Char && (key.modifiers == NONE || key.modifiers == SHIFT)
}

/// Calls `Input::default`: a line that holds no text, the cursor at its start.
#[verifier::external_body]
pub(crate) fn empty_input() -> (input: Input)
    ensures
        input_text(input).len() == 0,
        input_cursor(input) == 0,
{
    Input::default()
}

/// Calls `Input::value`: the text that the line holds.
#[verifier::external_body]
pub(crate) fn input_value(input: &Input) -> (value: String)
    ensures
        value@ == input_text(*input),
{
    input.value().to_string()
}

/// Hands a key press to `Input::handle_event`, which edits the line or moves
/// its cursor as the key says. A character with nothing but Shift held is put
/// in at the cursor, and the cursor moves past it; of any other key nothing
/// is claimed.
#[verifier::external_body]
pub(crate) fn input_handle(input: &mut Input, key: KeyEvent)
    ensures
        types(key) ==> input_text(*final(input)) == input_text(*old(input)).insert(
            place_of(input_text(*old(input)), input_cursor(*old(input))),
            key.code->Char_0,
        ) && input_cursor(*final(input)) == input_cursor(*old(input)) + 1,
{
    let code = match key.code {
        KeyCode::Char(c) => crossterm::event::KeyCode::Char(c),
        KeyCode::Backspace => crossterm::event::KeyCode::Backspace,
        KeyCode::Delete => crossterm::event::KeyCode::Delete,
        KeyCode::Left => crossterm::event::KeyCode::Left,
        KeyCode::Right => crossterm::event::KeyCode::Right,
        KeyCode::Home => crossterm::event::KeyCode::Home,
        KeyCode::End => crossterm::event::KeyCode::End,
        _ => crossterm::event::KeyCode::Null,
    };
    let held = crossterm::event::KeyModifiers::from_bits_truncate(key.modifiers);
    input.handle_event(&crossterm::event::Event::Key(crossterm::event::KeyEvent::new(code, held)));
}

} // verus!
