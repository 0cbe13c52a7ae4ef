use vstd::prelude::*;
use vstd::string::StringExecFns;

verus! {

/// What stands before the user's text: the opening of the user's turn.
pub open spec fn turn_opening() -> Seq<char> {
    "<start_of_turn>user\n"@
}

/// What stands after the user's text: the end of the user's turn and the
/// opening of the model's turn.
pub open spec fn turn_closing() -> Seq<char> {
    "\n<end_of_turn><start_of_turn>model\n"@
}

/// The conversation template applied to `prompt`.
pub open spec fn formatted(prompt: Seq<char>) -> Seq<char> {
    turn_opening() + prompt + turn_closing()
}

/// Wraps the user's text in the turn markers of the model family. An empty
/// prompt is accepted and yields the bare template.
pub fn format_prompt(prompt: &str) -> (text: String)
    ensures
        text@ == formatted(prompt@),
{
    let mut text = String::from_str("<start_of_turn>user\n");
    text.append(prompt);
    text.append("\n<end_of_turn><start_of_turn>model\n");
    text
}

} // verus!
