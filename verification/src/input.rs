use vstd::prelude::*;
use tui_input::backend::crossterm::EventHandler;

verus! {

/// The single-line text input of `tui-input`, which holds the text being
/// typed and a cursor into it.
#[verifier::external_type_specification]
#[verifier::external_body]
pub struct ExInput(tui_input::Input);

/// A key press as `crossterm` reports it.
#[verifier::external_type_specification]
#[verifier::external_body]
pub struct ExKeyEvent(crossterm::event::KeyEvent);

/// Names the text that a `tui_input::Input` holds.
pub uninterp spec fn input_text(input: tui_input::Input) -> Seq<char>;

/// Names the cursor of a `tui_input::Input`: the number of characters before
/// it.
pub uninterp spec fn input_cursor(input: tui_input::Input) -> nat;

/// Names the input that `tui-input`'s `handle_event` makes of an input's
/// whole state (its text, its cursor, its cut buffer) and a key press:
/// characters typed are inserted at the cursor, editing keys delete by
/// character, word or line, cursor keys move the cursor, other keys change
/// nothing.
pub uninterp spec fn input_after_key(
    input: tui_input::Input,
    key: crossterm::event::KeyEvent,
) -> tui_input::Input;

/// Calls `<tui_input::Input as Default>::default`, which builds an input
/// holding the empty text, with the cursor at its start.
#[verifier::external_body]
pub(crate) fn new_input() -> (r: tui_input::Input)
    ensures
        input_text(r) == Seq::<char>::empty(),
        input_cursor(r) == 0,
{
    tui_input::Input::default()
}

/// Calls `tui_input::Input::value`, which returns the text the input holds;
/// the result is copied into a `String`.
#[verifier::external_body]
pub(crate) fn input_value(input: &tui_input::Input) -> (r: String)
    ensures
        r@ == input_text(*input),
{
    input.value().to_string()
}

/// Calls `tui_input::Input::with_value`, which replaces the text of the
/// input by `value` and puts the cursor at its end.
#[verifier::external_body]
pub(crate) fn input_with_value(input: tui_input::Input, value: String) -> (r: tui_input::Input)
    ensures
        input_text(r) == value@,
        input_cursor(r) == value@.len(),
{
    input.with_value(value)
}

/// Calls `EventHandler::handle_event` of `tui-input` with the key wrapped in
/// a `crossterm` key event, and reports whether the input says its text
/// changed. The contract claims that the input afterwards (text, cursor and
/// cut buffer) is the named input that `tui-input` makes of the old input and
/// the key, a function of those alone, and that its text is the old text when
/// the input reports no change of text. Which edit or cursor move each key
/// makes is not written out here.
#[verifier::external_body]
pub(crate) fn input_handle_key(input: &mut tui_input::Input, key: crossterm::event::KeyEvent) -> (changed: bool)
    ensures
        *final(input) == input_after_key(*old(input), key),
        !changed ==> input_text(*final(input)) == input_text(*old(input)),
{
    match input.handle_event(&crossterm::event::Event::Key(key)) {
        Some(state) => state.value,
        None => false,
    }
}

} // verus!
