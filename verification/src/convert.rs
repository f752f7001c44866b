//! The validator and the two converters: integer to canonical numeral and
//! numeral to integer, each with an exact contract over the model.

use vstd::prelude::*;

use crate::error::InputError;
use crate::model::{
    canonical, decode, fold_seq, fold_upper, is_canonical, is_roman_char, is_roman_symbol,
    symbol_value, valid_numeral,
};

verus! {

/// Accepts exactly the integers in `[1, 3999]`.
pub fn validate_integer(n: i64) -> (r: Result<i64, InputError>)
    ensures
        n < 1 ==> r == Err::<i64, InputError>(InputError::TooSmall),
        n > 3999 ==> r == Err::<i64, InputError>(InputError::TooBig),
        1 <= n <= 3999 ==> r == Ok::<i64, InputError>(n),
{
    if n < 1 {
        Err(InputError::TooSmall)
    } else if n > 3999 {
        Err(InputError::TooBig)
    } else {
        Ok(n)
    }
}

/// Accepts exactly the strings whose characters, case-folded, are all Roman
/// symbols, and returns such a string unchanged.
pub fn validate_numeral(s: &str) -> (r: Result<String, InputError>)
    ensures
        valid_numeral(s@) ==> r is Ok && r->Ok_0@ == s@,
        !valid_numeral(s@) ==> r == Err::<String, InputError>(InputError::InvalidCharacter),
{
    let len = s.unicode_len();
    let mut k: usize = 0;
    while k < len
        invariant
            len == s@.len(),
            k <= len,
            forall|j: int| 0 <= j < k ==> is_roman_char(#[trigger] s@[j]),
        decreases len - k,
    {
        let c = s.get_char(k);
        if !roman_symbol(fold_char(c)) {
            return Err(InputError::InvalidCharacter);
        }
        k += 1;
    }
    Ok(s.to_owned())
}

/// The executable case folding of one character, matching `fold_upper`.
fn fold_char(c: char) -> (r: char)
    ensures
        r == fold_upper(c),
{
    match c {
        'i' => 'I',
        'v' => 'V',
        'x' => 'X',
        'l' => 'L',
        'c' => 'C',
        'd' => 'D',
        'm' => 'M',
        _ => c,
    }
}

/// Whether `c` is an uppercase Roman symbol, matching `is_roman_symbol`.
fn roman_symbol(c: char) -> (b: bool)
    ensures
        b == is_roman_symbol(c),
{
    c == 'I' || c == 'V' || c == 'X' || c == 'L' || c == 'C' || c == 'D' || c == 'M'
}

/// The base value of an uppercase Roman symbol, matching `symbol_value`.
fn char_value(c: char) -> (v: u16)
    ensures
        v as int == symbol_value(c),
{
    match c {
        'I' => 1,
        'V' => 5,
        'X' => 10,
        'L' => 50,
        'C' => 100,
        'D' => 500,
        'M' => 1000,
        _ => 0,
    }
}

/// Greedy encoding of an in-range integer to its canonical numeral.
fn encode_numeral(n: u64) -> (r: String)
    requires
        n <= 3999,
    ensures
        r@ == canonical(n as int),
    decreases n,
{
    proof {
        reveal_strlit("M");
        reveal_strlit("CM");
        reveal_strlit("D");
        reveal_strlit("CD");
        reveal_strlit("C");
        reveal_strlit("XC");
        reveal_strlit("L");
        reveal_strlit("XL");
        reveal_strlit("X");
        reveal_strlit("IX");
        reveal_strlit("V");
        reveal_strlit("IV");
        reveal_strlit("I");
        reveal_strlit("");
    }
    let (prefix, rest): (&str, u64) = if n >= 1000 {
        ("M", n - 1000)
    } else if n >= 900 {
        ("CM", n - 900)
    } else if n >= 500 {
        ("D", n - 500)
    } else if n >= 400 {
        ("CD", n - 400)
    } else if n >= 100 {
        ("C", n - 100)
    } else if n >= 90 {
        ("XC", n - 90)
    } else if n >= 50 {
        ("L", n - 50)
    } else if n >= 40 {
        ("XL", n - 40)
    } else if n >= 10 {
        ("X", n - 10)
    } else if n >= 9 {
        ("IX", n - 9)
    } else if n >= 5 {
        ("V", n - 5)
    } else if n >= 4 {
        ("IV", n - 4)
    } else if n >= 1 {
        ("I", n - 1)
    } else {
        ("", n)
    };
    if n == 0 {
        return String::from_str("");
    }
    let mut out = String::from_str(prefix);
    let tail = encode_numeral(rest);
    out.append(tail.as_str());
    out
}

/// Validates the range of `n` and, on success, encodes it to its canonical
/// Roman numeral.
pub fn convert_to_numeral(n: i64) -> (r: Result<String, InputError>)
    ensures
        n < 1 ==> r == Err::<String, InputError>(InputError::TooSmall),
        n > 3999 ==> r == Err::<String, InputError>(InputError::TooBig),
        1 <= n <= 3999 ==> r is Ok && r->Ok_0@ == canonical(n as int),
{
    if n < 1 {
        Err(InputError::TooSmall)
    } else if n > 3999 {
        Err(InputError::TooBig)
    } else {
        Ok(encode_numeral(n as u64))
    }
}

/// Runs the decoding scan over an already case-folded character vector.
fn decode_chars(v: &Vec<char>) -> (t: u128)
    ensures
        t as int == decode(v@),
{
    let ghost full = v@;
    proof {
        assert(full.skip(0) =~= full);
    }
    let mut acc: u128 = 0;
    let mut i: usize = 0;
    while i < v.len()
        invariant
            full == v@,
            i <= v.len(),
            0 <= acc <= 1000 * (i as int),
            decode(full) == acc + decode(full.skip(i as int)),
        decreases v.len() - i,
    {
        let ghost rem = full.skip(i as int);
        if i + 1 < v.len() && char_value(v[i]) < char_value(v[i + 1]) {
            proof {
                assert(rem[0] == full[i as int]);
                assert(rem[1] == full[i + 1]);
                assert(rem.skip(2) =~= full.skip(i + 2));
            }
            acc = acc + (char_value(v[i + 1]) - char_value(v[i])) as u128;
            i += 2;
        } else {
            proof {
                assert(rem[0] == full[i as int]);
                if rem.len() > 1 {
                    assert(rem[1] == full[i + 1]);
                }
                assert(rem.skip(1) =~= full.skip(i + 1));
            }
            acc = acc + char_value(v[i]) as u128;
            i += 1;
        }
    }
    proof {
        assert(full.skip(i as int) =~= Seq::<char>::empty());
    }
    acc
}

/// Whether the characters of `s` are exactly those of `v`.
fn chars_match(s: &str, v: &Vec<char>) -> (b: bool)
    ensures
        b == (s@ == v@),
{
    let len = s.unicode_len();
    if len != v.len() {
        return false;
    }
    let mut j: usize = 0;
    while j < len
        invariant
            len == s@.len() == v@.len(),
            j <= len,
            forall|k: int| 0 <= k < j ==> s@[k] == v@[k],
        decreases len - j,
    {
        if s.get_char(j) != v[j] {
            return false;
        }
        j += 1;
    }
    proof {
        assert(s@ =~= v@);
    }
    true
}

/// Validates the character set of `s` and, on success, decodes it strictly:
/// the decoded integer is returned only when re-encoding it reproduces the
/// case-folded input, so exactly the canonical numerals of `[1, 3999]` are
/// accepted (case-insensitively) and every other lexically valid string is
/// rejected as malformed.
pub fn convert_to_integer(s: &str) -> (r: Result<i64, InputError>)
    ensures
        !valid_numeral(s@) ==> r == Err::<i64, InputError>(InputError::InvalidCharacter),
        valid_numeral(s@) && is_canonical(fold_seq(s@)) ==> r is Ok && r->Ok_0 as int == decode(
            fold_seq(s@),
        ),
        valid_numeral(s@) && !is_canonical(fold_seq(s@)) ==> r == Err::<i64, InputError>(
            InputError::MalformedNumeral,
        ),
{
    let len = s.unicode_len();
    let mut folded: Vec<char> = Vec::new();
    let mut k: usize = 0;
    while k < len
        invariant
            len == s@.len(),
            k <= len,
            folded@.len() == k,
            forall|j: int| 0 <= j < k ==> is_roman_char(#[trigger] s@[j]),
            forall|j: int| 0 <= j < k ==> folded@[j] == fold_upper(s@[j]),
        decreases len - k,
    {
        let c = s.get_char(k);
        let u = fold_char(c);
        if !roman_symbol(u) {
            return Err(InputError::InvalidCharacter);
        }
        folded.push(u);
        k += 1;
    }
    proof {
        assert(folded@ =~= fold_seq(s@));
    }
    let total = decode_chars(&folded);
    if total < 1 || total > 3999 {
        return Err(InputError::MalformedNumeral);
    }
    let encoded = encode_numeral(total as u64);
    if chars_match(encoded.as_str(), &folded) {
        Ok(total as i64)
    } else {
        Err(InputError::MalformedNumeral)
    }
}

} // verus!
