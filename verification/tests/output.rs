use rusty_romans::error::InputError;
use rusty_romans::output::Output;

#[test]
fn init_holds_empty_success() {
    let out = Output::init();
    assert_eq!(out.output, Ok(String::new()));
}

#[test]
fn converts_integer_to_numeral() {
    let mut out = Output::init();
    out.convert_integer(&1994);
    assert_eq!(out.output, Ok("MCMXCIV".to_string()));
}

#[test]
fn converts_numeral_to_decimal_text() {
    let mut out = Output::init();
    out.convert_roman_numeral("MCMXCIV");
    assert_eq!(out.output, Ok("1994".to_string()));
}

#[test]
fn converts_lowercase_numeral() {
    let mut out = Output::init();
    out.convert_roman_numeral("lviii");
    assert_eq!(out.output, Ok("58".to_string()));
}

#[test]
fn stores_range_errors() {
    let mut out = Output::init();
    out.convert_integer(&0);
    assert_eq!(out.output, Err(InputError::TooSmall));
    out.convert_integer(&4000);
    assert_eq!(out.output, Err(InputError::TooBig));
}

#[test]
fn stores_character_error() {
    let mut out = Output::init();
    out.convert_roman_numeral("XVII!");
    assert_eq!(out.output, Err(InputError::InvalidCharacter));
}

#[test]
fn stores_malformed_error() {
    let mut out = Output::init();
    out.convert_roman_numeral("VIIII");
    assert_eq!(out.output, Err(InputError::MalformedNumeral));
}
