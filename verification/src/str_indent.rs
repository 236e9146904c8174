//! The `str indent` command: prepend a prefix to each line of a string.
use vstd::prelude::*;

use crate::error::UnsupportedInput;
use crate::value::InputValue;

verus! {

/// The text with `prefix` prepended to each line; on a line with no
/// content the prefix is first stripped of its trailing whitespace, so an
/// all-whitespace prefix leaves empty lines empty.
pub uninterp spec fn indented(s: Seq<char>, prefix: Seq<char>) -> Seq<char>;

/// Relies on textwrap::indent: the result is a function of the text and the
/// prefix alone.
#[verifier::external_body]
fn indent_raw(s: &str, prefix: &str) -> (r: String)
    ensures
        r@ == indented(s@, prefix@),
{
    textwrap::indent(s, prefix)
}

/// The `str indent` command: indent each line by the given prefix.
pub struct StrIndent;

impl StrIndent {
    /// The command's name.
    pub fn name(&self) -> (r: String)
        ensures
            r@ == "str indent"@,
    {
        "str indent".to_string()
    }

    /// Indent each line of a text value with `prefix`; any other kind of
    /// value is rejected with an error naming it.
    pub fn run(&self, input: &InputValue, prefix: &str) -> (r: Result<String, UnsupportedInput>)
        ensures
            input matches InputValue::Text(s) ==> (r matches Ok(out) && out@ == indented(
                s@,
                prefix@,
            )),
            !(input is Text) ==> (r matches Err(e) && e.actual@ == input.kind_spec()),
    {
        match input {
            InputValue::Text(s) => Ok(indent_raw(s.as_str(), prefix)),
            _ => Err(UnsupportedInput { actual: input.kind_name() }),
        }
    }
}

} // verus!
