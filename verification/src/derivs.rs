//! Next-character queries over a synthesized pattern, by Brzozowski
//! derivatives: a character is a valid continuation of a prefix exactly
//! when the pattern's derivative with respect to the prefix and that
//! character still matches something. The derivative engine is the
//! outside regex crate; this module drives it and assembles the answer.

use vstd::prelude::*;
use vstd::string::*;

use crate::grammar::{count_digits, is_digit, run_len, str_to_chars};

verus! {

#[verifier::external_type_specification]
#[verifier::external_body]
pub struct ExRegex(rzozowski::Regex);

/// What a regular-expression value of the engine matches: the set of
/// strings in its language.
pub uninterp spec fn regex_lang(r: rzozowski::Regex) -> Set<Seq<char>>;

/// The language of the regular expression that parsing a pattern string
/// yields; `None` when the engine's parser rejects the pattern.
pub uninterp spec fn pattern_lang(p: Seq<char>) -> Option<Set<Seq<char>>>;

/// Every repetition-count bound of the pattern has at most nineteen
/// digits, so its value fits a 64-bit machine integer. The engine's
/// pattern parser reads the digit run after a `{` or `,` into a machine
/// integer and does not survive overflow.
pub open spec fn count_bounds_fit(p: Seq<char>) -> bool {
    forall|i: int|
        0 <= i < p.len() && (p[i] == '{' || p[i] == ',') ==> run_len(
            p,
            i + 1,
            |c: char| is_digit(c),
        ) <= 19
}

/// Relies on `rzozowski::Regex::new`: parsing a pattern string into a
/// regular expression whose language is the pattern's; a rejected
/// pattern gives `None`. The count-bound precondition keeps the number
/// parsing inside the engine within a machine integer.
#[verifier::external_body]
fn regex_parse(pattern: &str) -> (r: Option<rzozowski::Regex>)
    requires
        count_bounds_fit(pattern@),
    ensures
        r is Some <==> pattern_lang(pattern@) is Some,
        r matches Some(re) ==> Some(regex_lang(re)) == pattern_lang(pattern@),
{
    match rzozowski::Regex::new(pattern) {
        Ok(r) => Some(r),
        Err(_) => None,
    }
}

/// Relies on `rzozowski::Regex::derivative`: the Brzozowski derivative
/// with respect to one character, whose language holds exactly the
/// suffixes `s` such that the character followed by `s` is in the
/// original language.
#[verifier::external_body]
fn regex_derivative(r: &rzozowski::Regex, c: char) -> (d: rzozowski::Regex)
    ensures
        forall|s: Seq<char>| #[trigger]
            regex_lang(d).contains(s) <==> regex_lang(*r).contains(seq![c] + s),
{
    r.derivative(c)
}

/// Relies on the shape of `rzozowski::Regex`: the `Empty` variant is
/// the expression matching no string, so a positive answer means the
/// language is empty. A negative answer promises nothing: other shapes
/// can denote an empty language too.
#[verifier::external_body]
fn regex_is_empty(r: &rzozowski::Regex) -> (b: bool)
    ensures
        b ==> regex_lang(*r) == Set::<Seq<char>>::empty(),
{
    matches!(r, rzozowski::Regex::Empty)
}

/// Whether every repetition-count bound of the pattern stays within
/// nineteen digits.
#[verifier::loop_isolation(false)]
fn check_count_bounds(p: &Vec<char>) -> (b: bool)
    ensures
        b == count_bounds_fit(p@),
{
    let mut i: usize = 0;
    while i < p.len()
        invariant
            0 <= i <= p@.len(),
            forall|j: int|
                0 <= j < i && (p@[j] == '{' || p@[j] == ',') ==> run_len(
                    p@,
                    j + 1,
                    |c: char| is_digit(c),
                ) <= 19,
        decreases p@.len() - i,
    {
        if p[i] == '{' || p[i] == ',' {
            let run = count_digits(p, i + 1);
            if run > 19 {
                assert(!count_bounds_fit(p@));
                return false;
            }
        }
        i += 1;
    }
    true
}

/// The characters, drawn from the first 256 code points in ascending
/// order, that extend `prefix` to a prefix of some string the pattern
/// matches, judged by the derivative engine. `None` when a count bound
/// of the pattern overflows or the engine rejects the pattern. The
/// result is complete: every character below 256 that the pattern's
/// language allows after the prefix is in it. The engine's emptiness
/// test is one-directional, so a returned character is not guaranteed
/// to have a continuation.
pub fn next_valid_characters(prefix: &str, pattern: &str) -> (r: Option<Vec<char>>)
    ensures
        !count_bounds_fit(pattern@) ==> r is None,
        count_bounds_fit(pattern@) ==> (r is Some <==> pattern_lang(pattern@) is Some),
        r matches Some(v) ==> {
            &&& v@.len() <= 256
            &&& forall|k: int| 0 <= k < v@.len() ==> (v@[k] as u32) < 256
            &&& forall|k: int, l: int|
                0 <= k < l < v@.len() ==> (v@[k] as u32) < (v@[l] as u32)
            &&& pattern_lang(pattern@) matches Some(lang) ==> forall|b: u8, s: Seq<char>|
                #[trigger] lang.contains(prefix@ + seq![b as char] + s) ==> v@.contains(b as char)
        },
{
    let pattern_chars = str_to_chars(pattern);
    if !check_count_bounds(&pattern_chars) {
        return None;
    }
    let mut regex = match regex_parse(pattern) {
        Some(re) => re,
        None => {
            return None;
        },
    };
    let ghost lang = pattern_lang(pattern@)->0;
    proof {
        assert forall|s: Seq<char>|
            #[trigger] regex_lang(regex).contains(s) <==> lang.contains(
                prefix@.take(0) + s,
            ) by {
            assert(prefix@.take(0) + s =~= s);
        }
    }
    let n = prefix.unicode_len();
    let mut i: usize = 0;
    while i < n
        invariant
            0 <= i <= n,
            n == prefix@.len(),
            forall|s: Seq<char>|
                #[trigger] regex_lang(regex).contains(s) <==> lang.contains(
                    prefix@.take(i as int) + s,
                ),
        decreases n - i,
    {
        let c = prefix.get_char(i);
        let d = regex_derivative(&regex, c);
        proof {
            assert forall|s: Seq<char>|
                #[trigger] regex_lang(d).contains(s) <==> lang.contains(
                    prefix@.take(i + 1) + s,
                ) by {
                assert(regex_lang(d).contains(s) <==> regex_lang(regex).contains(seq![c] + s));
                assert(prefix@.take(i as int) + (seq![c] + s) =~= prefix@.take(i + 1) + s);
            }
        }
        regex = d;
        i += 1;
    }
    proof {
        assert(prefix@.take(n as int) =~= prefix@);
    }
    let mut valid: Vec<char> = Vec::new();
    let mut c: u16 = 0;
    while c <= 255
        invariant
            0 <= c <= 256,
            valid@.len() <= c,
            forall|s: Seq<char>|
                #[trigger] regex_lang(regex).contains(s) <==> lang.contains(prefix@ + s),
            forall|k: int| 0 <= k < valid@.len() ==> (valid@[k] as u32) < c,
            forall|k: int, l: int|
                0 <= k < l < valid@.len() ==> (valid@[k] as u32) < (valid@[l] as u32),
            forall|b: u8, s: Seq<char>|
                (b as int) < c && #[trigger] lang.contains(prefix@ + seq![b as char] + s)
                    ==> valid@.contains(b as char),
        decreases 256 - c,
    {
        let ch = (c as u8) as char;
        assert((ch as u32) == c);
        let ghost valid_before = valid@;
        let d = regex_derivative(&regex, ch);
        let empty = regex_is_empty(&d);
        if !empty {
            valid.push(ch);
        }
        proof {
            assert forall|b: u8, s: Seq<char>|
                (b as int) < c + 1 && #[trigger] lang.contains(prefix@ + seq![b as char] + s)
                    implies valid@.contains(b as char) by {
                if (b as int) < c {
                    assert(valid_before.contains(b as char));
                    let k = choose|k: int|
                        0 <= k < valid_before.len() && valid_before[k] == b as char;
                    assert(valid@[k] == b as char);
                } else {
                    assert(b == c as u8);
                    assert(b as char == ch);
                    assert(prefix@ + (seq![ch] + s) =~= prefix@ + seq![ch] + s);
                    assert(regex_lang(regex).contains(seq![ch] + s));
                    assert(regex_lang(d).contains(s));
                    assert(!empty) by {
                        if empty {
                            assert(regex_lang(d) == Set::<Seq<char>>::empty());
                            assert(!Set::<Seq<char>>::empty().contains(s));
                        }
                    }
                    assert(valid@[valid@.len() - 1] == ch);
                }
            }
        }
        c += 1;
    }
    Some(valid)
}

} // verus!
