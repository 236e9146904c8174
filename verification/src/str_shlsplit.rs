//! The `str shl-split` command: split a command line into arguments the way
//! a Unix shell would, with word expansion limited to quote removal.
use vstd::prelude::*;

use crate::value::InputValue;

verus! {

/// What shell-splitting yields for the text: `None` when the line ends
/// inside an unclosed quote, otherwise the arguments in order, with quotes
/// removed (a trailing backslash outside quotes is kept literally).
pub uninterp spec fn shell_split(s: Seq<char>) -> Option<Seq<Seq<char>>>;

/// An error from the `str shl-split` command.
#[derive(Clone, Debug, PartialEq, Eq)]
pub enum ShlSplitError {
    /// The input was not a text value; `actual` names the kind received.
    UnsupportedInput { actual: String },
    /// The line could not be parsed as shell words.
    Parse { message: String },
}

/// Relies on shell_words::split: the outcome is a function of the text
/// alone, and a malformed line is an error, never a panic.
#[verifier::external_body]
fn split_raw(s: &str) -> (r: Result<Vec<String>, String>)
    ensures
        r is Ok <==> shell_split(s@) is Some,
        r matches Ok(words) ==> Some(words.deep_view()) == shell_split(s@),
{
    match shell_words::split(s) {
        Ok(words) => Ok(words),
        Err(e) => Err(format!("{}", e)),
    }
}

/// The `str shl-split` command: parse an argument string with Unix rules.
pub struct StrShlSplit;

impl StrShlSplit {
    /// The command's name.
    pub fn name(&self) -> (r: String)
        ensures
            r@ == "str shl-split"@,
    {
        "str shl-split".to_string()
    }

    /// Split a text value into shell words; a malformed line surfaces as a
    /// parse error, and any other kind of value is rejected with an error
    /// naming it.
    pub fn run(&self, input: &InputValue) -> (r: Result<Vec<String>, ShlSplitError>)
        ensures
            input matches InputValue::Text(s) ==> {
                &&& (r is Ok <==> shell_split(s@) is Some)
                &&& (r matches Ok(words) ==> Some(words.deep_view()) == shell_split(s@))
                &&& (r matches Err(e) ==> e is Parse)
            },
            !(input is Text) ==> (r matches Err(e) && e matches ShlSplitError::UnsupportedInput {
                actual,
            } && actual@ == input.kind_spec()),
    {
        match input {
            InputValue::Text(s) => {
                match split_raw(s.as_str()) {
                    Ok(words) => Ok(words),
                    Err(message) => Err(ShlSplitError::Parse { message }),
                }
            },
            _ => Err(ShlSplitError::UnsupportedInput { actual: input.kind_name() }),
        }
    }
}

} // verus!
