use rusty_romans::convert::{convert_to_integer, convert_to_numeral, validate_integer, validate_numeral};
use rusty_romans::error::InputError;

#[test]
fn round_trip_every_value() {
    for n in 1i64..=3999 {
        let numeral = convert_to_numeral(n).unwrap();
        assert_eq!(convert_to_integer(&numeral), Ok(n));
    }
}

#[test]
fn numeral_rejects_zero() {
    assert_eq!(convert_to_numeral(0), Err(InputError::TooSmall));
}

#[test]
fn numeral_rejects_negative() {
    assert_eq!(convert_to_numeral(-7), Err(InputError::TooSmall));
}

#[test]
fn numeral_rejects_four_thousand() {
    assert_eq!(convert_to_numeral(4000), Err(InputError::TooBig));
}

#[test]
fn numeral_of_one() {
    assert_eq!(convert_to_numeral(1).unwrap(), "I");
}

#[test]
fn numeral_of_largest_value() {
    assert_eq!(convert_to_numeral(3999).unwrap(), "MMMCMXCIX");
}

#[test]
fn integer_rejects_foreign_character() {
    assert_eq!(convert_to_integer("MXA"), Err(InputError::InvalidCharacter));
}

#[test]
fn canonical_encodings() {
    assert_eq!(convert_to_numeral(4).unwrap(), "IV");
    assert_eq!(convert_to_numeral(9).unwrap(), "IX");
    assert_eq!(convert_to_numeral(40).unwrap(), "XL");
    assert_eq!(convert_to_numeral(90).unwrap(), "XC");
    assert_eq!(convert_to_numeral(400).unwrap(), "CD");
    assert_eq!(convert_to_numeral(900).unwrap(), "CM");
    assert_eq!(convert_to_numeral(58).unwrap(), "LVIII");
    assert_eq!(convert_to_numeral(1994).unwrap(), "MCMXCIV");
}

#[test]
fn decoding_matches_encoding() {
    assert_eq!(convert_to_integer("MCMXCIV"), Ok(1994));
    assert_eq!(convert_to_integer("LVIII"), Ok(58));
}

#[test]
fn decoding_is_case_insensitive() {
    assert_eq!(convert_to_integer("mcmxciv"), Ok(1994));
    assert_eq!(convert_to_integer("lviii"), Ok(58));
    assert_eq!(convert_to_integer("McMxCiV"), Ok(1994));
}

#[test]
fn malformed_numerals_are_rejected() {
    assert_eq!(convert_to_integer("IIII"), Err(InputError::MalformedNumeral));
    assert_eq!(convert_to_integer("VV"), Err(InputError::MalformedNumeral));
    assert_eq!(convert_to_integer("IIV"), Err(InputError::MalformedNumeral));
    assert_eq!(convert_to_integer("IC"), Err(InputError::MalformedNumeral));
    assert_eq!(convert_to_integer("MMMM"), Err(InputError::MalformedNumeral));
    assert_eq!(convert_to_integer(""), Err(InputError::MalformedNumeral));
}

#[test]
fn validate_integer_bounds() {
    assert_eq!(validate_integer(0), Err(InputError::TooSmall));
    assert_eq!(validate_integer(-1), Err(InputError::TooSmall));
    assert_eq!(validate_integer(4000), Err(InputError::TooBig));
    assert_eq!(validate_integer(1), Ok(1));
    assert_eq!(validate_integer(3999), Ok(3999));
    assert_eq!(validate_integer(2024), Ok(2024));
}

#[test]
fn validate_numeral_characters() {
    assert_eq!(validate_numeral("MCMXCIV").unwrap(), "MCMXCIV");
    assert_eq!(validate_numeral("mcmxciv").unwrap(), "mcmxciv");
    assert_eq!(validate_numeral("IIII").unwrap(), "IIII");
    assert_eq!(validate_numeral("MXA"), Err(InputError::InvalidCharacter));
    assert_eq!(validate_numeral("12"), Err(InputError::InvalidCharacter));
    assert_eq!(validate_numeral("M M"), Err(InputError::InvalidCharacter));
}

#[test]
fn error_messages() {
    assert_eq!(
        InputError::TooSmall.message(),
        "Integers below 1 are not allowed."
    );
    assert_eq!(
        InputError::TooBig.message(),
        "Integers above 3999 are not allowed."
    );
    assert_eq!(
        InputError::InvalidCharacter.message(),
        "The input contains a character that is not a valid roman numeral"
    );
    assert_eq!(
        InputError::MalformedNumeral.message(),
        "The input is not a well-formed roman numeral"
    );
}
