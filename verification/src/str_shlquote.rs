//! The `str shl-quote` command: escape a string so it keeps its literal
//! meaning as part of a Unix shell command.
use vstd::prelude::*;

use crate::error::UnsupportedInput;
use crate::value::InputValue;

verus! {

/// The text quoted for a Unix shell: unchanged when no character needs
/// escaping, otherwise wrapped and escaped so the shell reads it literally.
pub uninterp spec fn shell_quoted(s: Seq<char>) -> Seq<char>;

/// Relies on shell_words::quote: the result is a function of the text alone.
#[verifier::external_body]
fn quote_raw(s: &str) -> (r: String)
    ensures
        r@ == shell_quoted(s@),
{
    shell_words::quote(s).into_owned()
}

/// The `str shl-quote` command: escape special characters for a Unix shell.
pub struct StrShlQuote;

impl StrShlQuote {
    /// The command's name.
    pub fn name(&self) -> (r: String)
        ensures
            r@ == "str shl-quote"@,
    {
        "str shl-quote".to_string()
    }

    /// Shell-quote a text value; any other kind is rejected with an error
    /// naming it.
    pub fn run(&self, input: &InputValue) -> (r: Result<String, UnsupportedInput>)
        ensures
            input matches InputValue::Text(s) ==> (r matches Ok(out) && out@ == shell_quoted(s@)),
            !(input is Text) ==> (r matches Err(e) && e.actual@ == input.kind_spec()),
    {
        match input {
            InputValue::Text(s) => Ok(quote_raw(s.as_str())),
            _ => Err(UnsupportedInput { actual: input.kind_name() }),
        }
    }
}

} // verus!
