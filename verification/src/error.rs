//! The error taxonomy shared by the validator and the converter.

use vstd::prelude::*;

verus! {

/// Why an input was rejected.
///
/// `TooSmall` and `TooBig` come from the integer range check,
/// `InvalidCharacter` from the lexical check of a numeral string, and
/// `MalformedNumeral` from the strict structural check: the characters are
/// all Roman symbols, but they do not spell the canonical numeral of any
/// integer in `[1, 3999]` (for example `"IIII"` or `"IC"`).
#[derive(Debug, Clone, Copy, PartialEq, Eq)]
pub enum InputError {
    TooSmall,
    TooBig,
    InvalidCharacter,
    MalformedNumeral,
}

impl InputError {
    /// The message shown to a user for this error.
    pub open spec fn message_spec(self) -> Seq<char> {
        match self {
            InputError::TooSmall => "Integers below 1 are not allowed."@,
            InputError::TooBig => "Integers above 3999 are not allowed."@,
            InputError::InvalidCharacter => "The input contains a character that is not a valid roman numeral"@,
            InputError::MalformedNumeral => "The input is not a well-formed roman numeral"@,
        }
    }

    /// Renders the error as text for display by a caller.
    pub fn message(&self) -> (r: String)
        ensures
            r@ == self.message_spec(),
    {
        match self {
            InputError::TooSmall => String::from_str("Integers below 1 are not allowed."),
            InputError::TooBig => String::from_str("Integers above 3999 are not allowed."),
            InputError::InvalidCharacter => String::from_str("The input contains a character that is not a valid roman numeral"),
            InputError::MalformedNumeral => String::from_str("The input is not a well-formed roman numeral"),
        }
    }
}

} // verus!
