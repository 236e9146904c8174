//! The `str slug` command: convert a string into a URL- and
//! filename-friendly slug.
use vstd::prelude::*;

use crate::error::UnsupportedInput;
use crate::value::InputValue;

verus! {

/// The slug of the text: lower-cased, transliterated to ASCII, with runs of
/// other characters collapsed into single hyphens and no hyphen at either
/// end.
pub uninterp spec fn slugified(s: Seq<char>) -> Seq<char>;

/// Relies on slug::slugify: the result is a function of the text alone.
#[verifier::external_body]
fn slugify_raw(s: &str) -> (r: String)
    ensures
        r@ == slugified(s@),
{
    slug::slugify(s)
}

/// The `str slug` command: convert a string to a slug.
pub struct StrSlug;

impl StrSlug {
    /// The command's name.
    pub fn name(&self) -> (r: String)
        ensures
            r@ == "str slug"@,
    {
        "str slug".to_string()
    }

    /// Slugify a text value; any other kind is rejected with an error
    /// naming it.
    pub fn run(&self, input: &InputValue) -> (r: Result<String, UnsupportedInput>)
        ensures
            input matches InputValue::Text(s) ==> (r matches Ok(out) && out@ == slugified(s@)),
            !(input is Text) ==> (r matches Err(e) && e.actual@ == input.kind_spec()),
    {
        match input {
            InputValue::Text(s) => Ok(slugify_raw(s.as_str())),
            _ => Err(UnsupportedInput { actual: input.kind_name() }),
        }
    }
}

} // verus!
