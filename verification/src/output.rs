//! A small result-holding wrapper around the converters, for callers that
//! drive a conversion step by step and then display `output`.

use vstd::prelude::*;

use crate::convert::{convert_to_integer, convert_to_numeral};
use crate::decimal::{decimal_digits, to_decimal_string};
use crate::error::InputError;
use crate::model::{canonical, decode, fold_seq, is_canonical, valid_numeral};

verus! {

/// Holds the outcome of the latest conversion: the converted value rendered
/// as text, or the error that rejected the input.
#[derive(Debug)]
pub struct Output {
    pub output: Result<String, InputError>,
}

impl Output {
    /// A fresh `Output`, holding an empty success value.
    pub fn init() -> (r: Self)
        ensures
            r.output is Ok,
            r.output->Ok_0@ == Seq::<char>::empty(),
    {
        Output { output: Ok(String::new()) }
    }

    /// Decodes a Roman numeral string and stores its value, rendered in
    /// base 10, or the validation error.
    pub fn convert_roman_numeral(&mut self, roman_numeral: &str)
        ensures
            !valid_numeral(roman_numeral@) ==> final(self).output == Err::<String, InputError>(
                InputError::InvalidCharacter,
            ),
            valid_numeral(roman_numeral@) && is_canonical(fold_seq(roman_numeral@)) ==> final(self).output is Ok
                && final(self).output->Ok_0@ == decimal_digits(decode(fold_seq(roman_numeral@))),
            valid_numeral(roman_numeral@) && !is_canonical(fold_seq(roman_numeral@)) ==> final(self).output
                == Err::<String, InputError>(InputError::MalformedNumeral),
    {
        match convert_to_integer(roman_numeral) {
            Ok(value) => {
                self.output = Ok(to_decimal_string(value as u64));
            },
            Err(e) => {
                self.output = Err(e);
            },
        }
    }

    /// Encodes an integer as its canonical Roman numeral and stores it, or
    /// stores the range error.
    pub fn convert_integer(&mut self, i: &i64)
        ensures
            *i < 1 ==> final(self).output == Err::<String, InputError>(InputError::TooSmall),
            *i > 3999 ==> final(self).output == Err::<String, InputError>(InputError::TooBig),
            1 <= *i <= 3999 ==> final(self).output is Ok && final(self).output->Ok_0@ == canonical(
                *i as int,
            ),
    {
        self.output = convert_to_numeral(*i);
    }
}

} // verus!
