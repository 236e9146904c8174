//! The `str dedent` command: remove the common leading whitespace from each
//! line of a string.
use vstd::prelude::*;

use crate::error::UnsupportedInput;
use crate::value::InputValue;

verus! {

/// The text with each line's common leading whitespace removed.
pub uninterp spec fn dedented(s: Seq<char>) -> Seq<char>;

/// Relies on textwrap::dedent: the result is a function of the text alone.
#[verifier::external_body]
fn dedent_raw(s: &str) -> (r: String)
    ensures
        r@ == dedented(s@),
{
    textwrap::dedent(s)
}

/// The `str dedent` command: removes common leading whitespace from each line.
pub struct StrDedent;

impl StrDedent {
    /// The command's name.
    pub fn name(&self) -> (r: String)
        ensures
            r@ == "str dedent"@,
    {
        "str dedent".to_string()
    }

    /// Dedent a text value; any other kind is rejected with an error naming
    /// it.
    pub fn run(&self, input: &InputValue) -> (r: Result<String, UnsupportedInput>)
        ensures
            input matches InputValue::Text(s) ==> (r matches Ok(out) && out@ == dedented(s@)),
            !(input is Text) ==> (r matches Err(e) && e.actual@ == input.kind_spec()),
    {
        match input {
            InputValue::Text(s) => Ok(dedent_raw(s.as_str())),
            _ => Err(UnsupportedInput { actual: input.kind_name() }),
        }
    }
}

} // verus!
