//! The `str wrap` command: fill text so no line exceeds a given width, with
//! a choice between the greedy first-fit algorithm and an optimal-fit
//! algorithm with look-ahead.
use vstd::prelude::*;

use crate::error::UnsupportedInput;
use crate::value::InputValue;

verus! {

/// The default wrap width when none is supplied.
pub const DEFAULT_WRAP_WIDTH: usize = 80;

/// The text filled to `width` columns; `optimal` selects the look-ahead
/// algorithm over the greedy first-fit one.
pub uninterp spec fn filled(s: Seq<char>, width: usize, optimal: bool) -> Seq<char>;

/// Relies on textwrap::fill with the first-fit wrap algorithm: the result
/// is a function of the text and the width alone.
#[verifier::external_body]
fn fill_first_fit_raw(s: &str, width: usize) -> (r: String)
    ensures
        r@ == filled(s@, width, false),
{
    let options = textwrap::Options::new(width).wrap_algorithm(
        textwrap::WrapAlgorithm::FirstFit,
    );
    textwrap::fill(s, options)
}

/// Relies on textwrap::fill with the optimal-fit wrap algorithm: the result
/// is a function of the text and the width alone.
#[verifier::external_body]
fn fill_optimal_fit_raw(s: &str, width: usize) -> (r: String)
    ensures
        r@ == filled(s@, width, true),
{
    let options = textwrap::Options::new(width).wrap_algorithm(
        textwrap::WrapAlgorithm::new_optimal_fit(),
    );
    textwrap::fill(s, options)
}

/// The `str wrap` command: wrap text passed into the pipeline.
pub struct StrWrap;

impl StrWrap {
    /// The command's name.
    pub fn name(&self) -> (r: String)
        ensures
            r@ == "str wrap"@,
    {
        "str wrap".to_string()
    }

    /// Wrap a text value at `width` columns (the default where none is
    /// supplied), with look-ahead when `optimal` is set; any other kind of
    /// value is rejected with an error naming it.
    pub fn run(&self, input: &InputValue, optimal: bool, width: Option<usize>) -> (r: Result<
        String,
        UnsupportedInput,
    >)
        ensures
            input matches InputValue::Text(s) ==> (r matches Ok(out) && out@ == filled(
                s@,
                match width {
                    Some(w) => w,
                    None => DEFAULT_WRAP_WIDTH,
                },
                optimal,
            )),
            !(input is Text) ==> (r matches Err(e) && e.actual@ == input.kind_spec()),
    {
        let w = match width {
            Some(w) => w,
            None => DEFAULT_WRAP_WIDTH,
        };
        match input {
            InputValue::Text(s) => {
                if optimal {
                    Ok(fill_optimal_fit_raw(s.as_str(), w))
                } else {
                    Ok(fill_first_fit_raw(s.as_str(), w))
                }
            },
            _ => Err(UnsupportedInput { actual: input.kind_name() }),
        }
    }
}

} // verus!
