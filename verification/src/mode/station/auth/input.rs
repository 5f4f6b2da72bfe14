//! Line editors of the dialogs.

use tui_input::Input;
use vstd::prelude::*;

verus! {

/// `tui_input::Input`: a line editor, of which only the text it holds is
/// spoken of here.
#[verifier::external_type_specification]
#[verifier::external_body]
pub struct ExInput(Input);

/// The text that a line editor holds.
pub uninterp spec fn input_text(input: Input) -> Seq<char>;

/// `Input::default`: a line editor that holds no text.
#[verifier::external_body]
pub(crate) fn empty_input() -> (r: Input)
    ensures
        input_text(r).len() == 0,
{
    Input::default()
}

/// `Input::reset`: afterwards the line editor holds no text.
#[verifier::external_body]
pub(crate) fn reset_input(input: &mut Input)
    ensures
        input_text(*final(input)).len() == 0,
{
    input.reset()
}

/// `Input::value`: the text that the line editor holds.
#[verifier::external_body]
pub(crate) fn input_value(input: &Input) -> (r: String)
    ensures
        r@ == input_text(*input),
{
    input.value().to_owned()
}

} // verus!
