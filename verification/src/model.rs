//! The mathematical model of Roman numerals: symbol values, case folding,
//! the canonical (greedy subtractive) encoding, the left-to-right decoding
//! scan, and the proof that decoding inverts encoding.

use vstd::prelude::*;

verus! {

/// The base value of an uppercase Roman symbol; 0 for any other character.
pub open spec fn symbol_value(c: char) -> int {
    if c == 'I' {
        1
    } else if c == 'V' {
        5
    } else if c == 'X' {
        10
    } else if c == 'L' {
        50
    } else if c == 'C' {
        100
    } else if c == 'D' {
        500
    } else if c == 'M' {
        1000
    } else {
        0
    }
}

/// Whether `c` is one of the seven uppercase Roman symbols.
pub open spec fn is_roman_symbol(c: char) -> bool {
    symbol_value(c) > 0
}

/// Case folding for numeral input: the seven lowercase Roman letters map to
/// their uppercase forms; every other character is left unchanged.
pub open spec fn fold_upper(c: char) -> char {
    if c == 'i' {
        'I'
    } else if c == 'v' {
        'V'
    } else if c == 'x' {
        'X'
    } else if c == 'l' {
        'L'
    } else if c == 'c' {
        'C'
    } else if c == 'd' {
        'D'
    } else if c == 'm' {
        'M'
    } else {
        c
    }
}

/// Whether `c`, case-folded, is a Roman symbol.
pub open spec fn is_roman_char(c: char) -> bool {
    is_roman_symbol(fold_upper(c))
}

/// The character-wise case folding of a whole string.
pub open spec fn fold_seq(s: Seq<char>) -> Seq<char> {
    Seq::new(s.len(), |i: int| fold_upper(s[i]))
}

/// Lexical validity: every character of `s`, case-folded, is a Roman symbol.
pub open spec fn valid_numeral(s: Seq<char>) -> bool {
    forall|i: int| 0 <= i < s.len() ==> is_roman_char(s[i])
}

/// The canonical Roman numeral of `n`, by greedy subtractive encoding:
/// repeatedly emit the symbols of the largest table weight not exceeding the
/// remainder. `n <= 0` yields the empty string.
pub open spec fn canonical(n: int) -> Seq<char>
    decreases n,
{
    if n >= 1000 {
        seq!['M'] + canonical(n - 1000)
    } else if n >= 900 {
        seq!['C', 'M'] + canonical(n - 900)
    } else if n >= 500 {
        seq!['D'] + canonical(n - 500)
    } else if n >= 400 {
        seq!['C', 'D'] + canonical(n - 400)
    } else if n >= 100 {
        seq!['C'] + canonical(n - 100)
    } else if n >= 90 {
        seq!['X', 'C'] + canonical(n - 90)
    } else if n >= 50 {
        seq!['L'] + canonical(n - 50)
    } else if n >= 40 {
        seq!['X', 'L'] + canonical(n - 40)
    } else if n >= 10 {
        seq!['X'] + canonical(n - 10)
    } else if n >= 9 {
        seq!['I', 'X'] + canonical(n - 9)
    } else if n >= 5 {
        seq!['V'] + canonical(n - 5)
    } else if n >= 4 {
        seq!['I', 'V'] + canonical(n - 4)
    } else if n >= 1 {
        seq!['I'] + canonical(n - 1)
    } else {
        Seq::empty()
    }
}

/// The left-to-right decoding scan: a symbol strictly smaller than its
/// successor forms a subtractive pair contributing the difference; any other
/// symbol contributes its own value.
pub open spec fn decode(s: Seq<char>) -> int
    decreases s.len(),
{
    if s.len() == 0 {
        0
    } else if s.len() == 1 {
        symbol_value(s[0])
    } else if symbol_value(s[0]) < symbol_value(s[1]) {
        symbol_value(s[1]) - symbol_value(s[0]) + decode(s.skip(2))
    } else {
        symbol_value(s[0]) + decode(s.skip(1))
    }
}

/// Whether an (already case-folded) string is the canonical numeral of some
/// integer in `[1, 3999]`.
pub open spec fn is_canonical(s: Seq<char>) -> bool {
    &&& 1 <= decode(s) <= 3999
    &&& canonical(decode(s)) == s
}

/// The canonical numeral of a positive integer is non-empty, and its leading
/// symbol is bounded: by 1000 always, and more tightly below each table
/// threshold. These bounds are what makes the decoding scan treat a greedy
/// prefix additively.
proof fn lemma_canonical_lead(n: int)
    requires
        n >= 1,
    ensures
        canonical(n).len() >= 1,
        1 <= symbol_value(canonical(n)[0]) <= 1000,
        n < 400 ==> symbol_value(canonical(n)[0]) <= 100,
        n < 40 ==> symbol_value(canonical(n)[0]) <= 10,
        n < 4 ==> symbol_value(canonical(n)[0]) <= 1,
{
}

/// Every character of a canonical numeral is an uppercase Roman symbol.
pub proof fn lemma_canonical_symbols(n: int)
    ensures
        forall|i: int| 0 <= i < canonical(n).len() ==> is_roman_symbol(#[trigger] canonical(n)[i]),
    decreases n,
{
    if n >= 1 {
        let w: int = if n >= 1000 {
            1000
        } else if n >= 900 {
            900
        } else if n >= 500 {
            500
        } else if n >= 400 {
            400
        } else if n >= 100 {
            100
        } else if n >= 90 {
            90
        } else if n >= 50 {
            50
        } else if n >= 40 {
            40
        } else if n >= 10 {
            10
        } else if n >= 9 {
            9
        } else if n >= 5 {
            5
        } else if n >= 4 {
            4
        } else {
            1
        };
        lemma_canonical_symbols(n - w);
        let head = canonical(n).len() - canonical(n - w).len();
        assert forall|i: int| 0 <= i < canonical(n).len() implies is_roman_symbol(
            #[trigger] canonical(n)[i],
        ) by {
            if i >= head {
                assert(canonical(n)[i] == canonical(n - w)[i - head]);
            }
        }
    }
}

/// An uppercase Roman symbol is left unchanged by case folding.
proof fn lemma_fold_fixes_symbol(c: char)
    requires
        is_roman_symbol(c),
    ensures
        fold_upper(c) == c,
        is_roman_char(c),
{
}

/// A canonical numeral is lexically valid and is its own case folding.
pub proof fn lemma_canonical_folds_to_itself(n: int)
    ensures
        valid_numeral(canonical(n)),
        fold_seq(canonical(n)) == canonical(n),
{
    lemma_canonical_symbols(n);
    assert forall|i: int| 0 <= i < canonical(n).len() implies is_roman_char(
        #[trigger] canonical(n)[i],
    ) && fold_seq(canonical(n))[i] == canonical(n)[i] by {
        lemma_fold_fixes_symbol(canonical(n)[i]);
    }
    assert(fold_seq(canonical(n)) =~= canonical(n));
}

/// Decoding inverts the greedy encoding: for every `n >= 0`,
/// `decode(canonical(n)) == n`.
pub proof fn lemma_decode_canonical(n: int)
    requires
        n >= 0,
    ensures
        decode(canonical(n)) == n,
    decreases n, 1int,
{
    if n >= 1000 {
        lemma_decode_step_single(n, 1000);
    } else if n >= 900 {
        lemma_decode_step_pair(n, 900);
    } else if n >= 500 {
        lemma_decode_step_single(n, 500);
    } else if n >= 400 {
        lemma_decode_step_pair(n, 400);
    } else if n >= 100 {
        lemma_decode_step_single(n, 100);
    } else if n >= 90 {
        lemma_decode_step_pair(n, 90);
    } else if n >= 50 {
        lemma_decode_step_single(n, 50);
    } else if n >= 40 {
        lemma_decode_step_pair(n, 40);
    } else if n >= 10 {
        lemma_decode_step_single(n, 10);
    } else if n >= 9 {
        lemma_decode_step_pair(n, 9);
    } else if n >= 5 {
        lemma_decode_step_single(n, 5);
    } else if n >= 4 {
        lemma_decode_step_pair(n, 4);
    } else if n >= 1 {
        lemma_decode_step_single(n, 1);
    }
}

/// One greedy step with a single-symbol weight `w` (1000, 500, 100, 50, 10,
/// 5 or 1): the leading symbol decodes additively, because the rest of the
/// numeral cannot begin with a strictly larger symbol.
proof fn lemma_decode_step_single(n: int, w: int)
    requires
        w == 1000 && 1000 <= n || w == 500 && 500 <= n < 900 || w == 100 && 100 <= n < 400 || w
            == 50 && 50 <= n < 90 || w == 10 && 10 <= n < 40 || w == 5 && 5 <= n < 9 || w == 1 && 1
            <= n < 4,
    ensures
        decode(canonical(n)) == n,
    decreases n, 0int,
{
    let rest = canonical(n - w);
    let s = canonical(n);
    lemma_decode_canonical(n - w);
    if n - w == 0 {
        assert(s.len() == 1);
    } else {
        lemma_canonical_lead(n - w);
        assert(s[1] == rest[0]);
        assert(symbol_value(s[0]) >= symbol_value(s[1]));
        assert(s.skip(1) =~= rest);
    }
}

/// One greedy step with a subtractive-pair weight `w` (900, 400, 90, 40, 9
/// or 4): the leading two symbols decode as a subtractive pair.
proof fn lemma_decode_step_pair(n: int, w: int)
    requires
        w == 900 && 900 <= n < 1000 || w == 400 && 400 <= n < 500 || w == 90 && 90 <= n < 100 || w
            == 40 && 40 <= n < 50 || w == 9 && n == 9 || w == 4 && n == 4,
    ensures
        decode(canonical(n)) == n,
    decreases n, 0int,
{
    let rest = canonical(n - w);
    let s = canonical(n);
    lemma_decode_canonical(n - w);
    assert(symbol_value(s[0]) < symbol_value(s[1]));
    assert(s.skip(2) =~= rest);
}

/// The round-trip law: encoding any integer in `[1, 3999]` to its canonical
/// numeral and decoding it back recovers the integer, and the canonical
/// numeral passes both the lexical check and the strict structural check.
pub proof fn lemma_round_trip(n: int)
    requires
        1 <= n <= 3999,
    ensures
        valid_numeral(canonical(n)),
        fold_seq(canonical(n)) == canonical(n),
        decode(canonical(n)) == n,
        is_canonical(canonical(n)),
{
    lemma_canonical_folds_to_itself(n);
    lemma_decode_canonical(n);
}

} // verus!
