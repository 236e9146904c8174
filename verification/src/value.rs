//! The host values the commands consume, reduced to what the dispatchers
//! actually inspect: the value's kind, its text for string inputs, and its
//! bytes for binary inputs.
use vstd::prelude::*;

verus! {

/// A caller-supplied value. The decoder accepts only the `Binary` variant;
/// every other variant is rejected with an error naming its kind. The string
/// commands accept only the `Text` variant.
#[derive(Clone, Debug, PartialEq, Eq)]
pub enum InputValue {
    /// A text value.
    Text(String),
    /// A binary value: the only kind the decoder accepts.
    Binary(Vec<u8>),
    /// An integer value.
    Int(i64),
    /// A boolean value.
    Bool(bool),
    /// The empty value.
    Nothing,
}

impl InputValue {
    /// The kind of the value, as error messages name it.
    pub open spec fn kind_spec(self) -> Seq<char> {
        match self {
            InputValue::Text(_) => "string"@,
            InputValue::Binary(_) => "binary"@,
            InputValue::Int(_) => "int"@,
            InputValue::Bool(_) => "bool"@,
            InputValue::Nothing => "nothing"@,
        }
    }

    /// Name the kind of the value, for type-mismatch errors.
    pub fn kind_name(&self) -> (r: String)
        ensures
            r@ == self.kind_spec(),
    {
        match self {
            InputValue::Text(_) => "string".to_string(),
            InputValue::Binary(_) => "binary".to_string(),
            InputValue::Int(_) => "int".to_string(),
            InputValue::Bool(_) => "bool".to_string(),
            InputValue::Nothing => "nothing".to_string(),
        }
    }
}

} // verus!
