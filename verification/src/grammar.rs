//! The grammar primitives: character classes, greedy runs, literal
//! matching, digit parsing and whitespace trimming, each defined once as a
//! spec function and once as executable code proved against it. Every
//! matcher works on the front of a character buffer.

use vstd::prelude::*;
use vstd::string::*;

verus! {

/// An ASCII decimal digit.
pub open spec fn is_digit(c: char) -> bool {
    48 <= (c as u32) && (c as u32) <= 57
}

/// A character a player name may contain: ASCII letters, the Latin
/// accented ranges, period, apostrophe, hyphen and space.
pub open spec fn is_name_char(c: char) -> bool {
    ||| 65 <= (c as u32) && (c as u32) <= 90
    ||| 97 <= (c as u32) && (c as u32) <= 122
    ||| 192 <= (c as u32) && (c as u32) <= 214
    ||| 216 <= (c as u32) && (c as u32) <= 246
    ||| 248 <= (c as u32) && (c as u32) <= 255
    ||| (c as u32) == 46
    ||| (c as u32) == 39
    ||| (c as u32) == 45
    ||| (c as u32) == 32
}

/// A character a venue or weather word may contain: letters and space,
/// without punctuation.
pub open spec fn is_letter_space(c: char) -> bool {
    ||| 65 <= (c as u32) && (c as u32) <= 90
    ||| 97 <= (c as u32) && (c as u32) <= 122
    ||| 192 <= (c as u32) && (c as u32) <= 214
    ||| 216 <= (c as u32) && (c as u32) <= 246
    ||| 248 <= (c as u32) && (c as u32) <= 255
    ||| (c as u32) == 32
}

/// Inter-token whitespace.
pub open spec fn is_space(c: char) -> bool {
    c == ' ' || c == '\n' || c == '\t' || c == '\r'
}

/// A word character for word-boundary purposes: letters (accented ranges
/// included), digits and underscore.
pub open spec fn is_word_char(c: char) -> bool {
    ||| 48 <= (c as u32) && (c as u32) <= 57
    ||| 65 <= (c as u32) && (c as u32) <= 90
    ||| 97 <= (c as u32) && (c as u32) <= 122
    ||| 192 <= (c as u32) && (c as u32) <= 214
    ||| 216 <= (c as u32) && (c as u32) <= 246
    ||| 248 <= (c as u32) && (c as u32) <= 255
    ||| (c as u32) == 95
}

/// The length of the longest run of characters satisfying `p` that starts
/// at position `i` of `s`.
pub open spec fn run_len(s: Seq<char>, i: int, p: spec_fn(char) -> bool) -> int
    decreases s.len() - i,
{
    if i < 0 || i >= s.len() || !p(s[i]) {
        0
    } else {
        1 + run_len(s, i + 1, p)
    }
}

/// Basic bounds of a run: it stays inside `s` and ends at the first
/// character that fails `p` (or at the end of `s`).
pub proof fn lemma_run_len(s: Seq<char>, i: int, p: spec_fn(char) -> bool)
    requires
        0 <= i <= s.len(),
    ensures
        0 <= run_len(s, i, p),
        i + run_len(s, i, p) <= s.len(),
        forall|j: int| i <= j < i + run_len(s, i, p) ==> p(s[j]),
        i + run_len(s, i, p) < s.len() ==> !p(s[i + run_len(s, i, p)]),
    decreases s.len() - i,
{
    if i < s.len() && p(s[i]) {
        lemma_run_len(s, i + 1, p);
    }
}

/// The literal `lit` occurs in `s` starting at position `i`.
pub open spec fn lit_at(s: Seq<char>, i: int, lit: Seq<char>) -> bool {
    &&& 0 <= i
    &&& i + lit.len() <= s.len()
    &&& forall|k: int| 0 <= k < lit.len() ==> s[i + k] == lit[k]
}

/// The numeric value of the `k` digits of `s` starting at position `i`.
pub open spec fn digits_val(s: Seq<char>, i: int, k: int) -> nat
    decreases k,
{
    if k <= 0 {
        0
    } else {
        digits_val(s, i, k - 1) * 10 + (if (s[i + k - 1] as u32) >= 48 {
            ((s[i + k - 1] as u32) - 48) as nat
        } else {
            0
        })
    }
}

/// The value of up to six digits fits far below `u64::MAX`.
pub proof fn lemma_digits_val_bound(s: Seq<char>, i: int, k: int)
    requires
        0 <= k <= 6,
        0 <= i,
        i + k <= s.len(),
        forall|j: int| i <= j < i + k ==> is_digit(s[j]),
    ensures
        digits_val(s, i, k) < 1000000,
    decreases k,
{
    if k > 0 {
        lemma_digits_val_bound(s, i, k - 1);
        assert(digits_val(s, i, k - 1) <= 99999) by {
            lemma_digits_val_pow(s, i, k - 1);
        }
    }
}

/// The value of `k` digits is below ten to the `k`.
pub proof fn lemma_digits_val_pow(s: Seq<char>, i: int, k: int)
    requires
        0 <= k <= 5,
        0 <= i,
        i + k <= s.len(),
        forall|j: int| i <= j < i + k ==> is_digit(s[j]),
    ensures
        digits_val(s, i, k) < (if k == 0 {
            1int
        } else if k == 1 {
            10int
        } else if k == 2 {
            100int
        } else if k == 3 {
            1000int
        } else if k == 4 {
            10000int
        } else {
            100000int
        }),
    decreases k,
{
    if k > 0 {
        lemma_digits_val_pow(s, i, k - 1);
    }
}

/// The characters of a string, as a vector.
#[verifier::loop_isolation(false)]
pub fn str_to_chars(s: &str) -> (r: Vec<char>)
    ensures
        r@ == s@,
{
    let n = s.unicode_len();
    let mut r: Vec<char> = Vec::new();
    let mut i: usize = 0;
    while i < n
        invariant
            0 <= i <= n,
            n == s@.len(),
            r@ =~= s@.subrange(0, i as int),
        decreases n - i,
    {
        r.push(s.get_char(i));
        i += 1;
    }
    assert(r@ =~= s@);
    r
}

/// Relies on `Iterator::collect` for `String`: collecting characters
/// builds the string of exactly those characters.
#[verifier::external_body]
pub fn chars_to_string(v: &Vec<char>) -> (r: String)
    ensures
        r@ == v@,
{
    v.iter().collect()
}

/// Whether the characters of `lit` occur in `buf` starting at `i`.
#[verifier::loop_isolation(false)]
pub fn match_lit(buf: &Vec<char>, i: usize, lit: &Vec<char>) -> (b: bool)
    ensures
        b == lit_at(buf@, i as int, lit@),
{
    if i > buf.len() || lit.len() > buf.len() - i {
        return false;
    }
    let mut k: usize = 0;
    while k < lit.len()
        invariant
            0 <= k <= lit@.len(),
            i + lit@.len() <= buf@.len(),
            forall|j: int| 0 <= j < k ==> buf@[i + j] == lit@[j],
        decreases lit@.len() - k,
    {
        assert(i + k < buf@.len());
        if buf[i + k] != lit[k] {
            return false;
        }
        k += 1;
    }
    true
}

/// Whether a character is a decimal digit.
pub fn digit_char(c: char) -> (b: bool)
    ensures
        b == is_digit(c),
{
    let u = c as u32;
    48 <= u && u <= 57
}

/// Whether a character may appear in a player name.
pub fn name_char(c: char) -> (b: bool)
    ensures
        b == is_name_char(c),
{
    let u = c as u32;
    (65 <= u && u <= 90) || (97 <= u && u <= 122) || (192 <= u && u <= 214) || (216 <= u && u
        <= 246) || (248 <= u && u <= 255) || u == 46 || u == 39 || u == 45 || u == 32
}

/// Whether a character is a letter or a space.
pub fn letter_space_char(c: char) -> (b: bool)
    ensures
        b == is_letter_space(c),
{
    let u = c as u32;
    (65 <= u && u <= 90) || (97 <= u && u <= 122) || (192 <= u && u <= 214) || (216 <= u && u
        <= 246) || (248 <= u && u <= 255) || u == 32
}

/// Whether a character is inter-token whitespace.
pub fn space_char(c: char) -> (b: bool)
    ensures
        b == is_space(c),
{
    c == ' ' || c == '\n' || c == '\t' || c == '\r'
}

/// Whether a character counts as a word character at a word boundary.
pub fn word_char(c: char) -> (b: bool)
    ensures
        b == is_word_char(c),
{
    let u = c as u32;
    (48 <= u && u <= 57) || (65 <= u && u <= 90) || (97 <= u && u <= 122) || (192 <= u && u
        <= 214) || (216 <= u && u <= 246) || (248 <= u && u <= 255) || u == 95
}

/// The length of the digit run starting at `i`.
#[verifier::loop_isolation(false)]
pub fn count_digits(buf: &Vec<char>, i: usize) -> (n: usize)
    requires
        i <= buf@.len(),
    ensures
        n == run_len(buf@, i as int, |c: char| is_digit(c)),
        i + n <= buf@.len(),
{
    let ghost p = |c: char| is_digit(c);
    let mut j: usize = i;
    while j < buf.len() && digit_char(buf[j])
        invariant
            i <= j <= buf@.len(),
            run_len(buf@, i as int, p) == (j - i) + run_len(buf@, j as int, p),
        decreases buf@.len() - j,
    {
        assert(run_len(buf@, j as int, p) == 1 + run_len(buf@, j + 1, p));
        j += 1;
    }
    assert(run_len(buf@, j as int, p) == 0);
    j - i
}

/// The length of the name-character run starting at `i`.
#[verifier::loop_isolation(false)]
pub fn count_name(buf: &Vec<char>, i: usize) -> (n: usize)
    requires
        i <= buf@.len(),
    ensures
        n == run_len(buf@, i as int, |c: char| is_name_char(c)),
        i + n <= buf@.len(),
{
    let ghost p = |c: char| is_name_char(c);
    let mut j: usize = i;
    while j < buf.len() && name_char(buf[j])
        invariant
            i <= j <= buf@.len(),
            run_len(buf@, i as int, p) == (j - i) + run_len(buf@, j as int, p),
        decreases buf@.len() - j,
    {
        assert(run_len(buf@, j as int, p) == 1 + run_len(buf@, j + 1, p));
        j += 1;
    }
    assert(run_len(buf@, j as int, p) == 0);
    j - i
}

/// The length of the letter-or-space run starting at `i`.
#[verifier::loop_isolation(false)]
pub fn count_letter_space(buf: &Vec<char>, i: usize) -> (n: usize)
    requires
        i <= buf@.len(),
    ensures
        n == run_len(buf@, i as int, |c: char| is_letter_space(c)),
        i + n <= buf@.len(),
{
    let ghost p = |c: char| is_letter_space(c);
    let mut j: usize = i;
    while j < buf.len() && letter_space_char(buf[j])
        invariant
            i <= j <= buf@.len(),
            run_len(buf@, i as int, p) == (j - i) + run_len(buf@, j as int, p),
        decreases buf@.len() - j,
    {
        assert(run_len(buf@, j as int, p) == 1 + run_len(buf@, j + 1, p));
        j += 1;
    }
    assert(run_len(buf@, j as int, p) == 0);
    j - i
}

/// The length of the whitespace run starting at `i`.
#[verifier::loop_isolation(false)]
pub fn count_spaces(buf: &Vec<char>, i: usize) -> (n: usize)
    requires
        i <= buf@.len(),
    ensures
        n == run_len(buf@, i as int, |c: char| is_space(c)),
        i + n <= buf@.len(),
{
    let ghost p = |c: char| is_space(c);
    let mut j: usize = i;
    while j < buf.len() && space_char(buf[j])
        invariant
            i <= j <= buf@.len(),
            run_len(buf@, i as int, p) == (j - i) + run_len(buf@, j as int, p),
        decreases buf@.len() - j,
    {
        assert(run_len(buf@, j as int, p) == 1 + run_len(buf@, j + 1, p));
        j += 1;
    }
    assert(run_len(buf@, j as int, p) == 0);
    j - i
}

/// The numeric value of the `k` digits starting at `i`, as an integer.
#[verifier::loop_isolation(false)]
pub fn parse_digits(buf: &Vec<char>, i: usize, k: usize) -> (n: u64)
    requires
        k <= 6,
        i + k <= buf@.len(),
        forall|j: int| i <= j < i + k ==> is_digit(buf@[j]),
    ensures
        n == digits_val(buf@, i as int, k as int),
{
    proof {
        lemma_digits_val_bound(buf@, i as int, k as int);
    }
    let blen = buf.len();
    assert(i + k <= blen);
    let mut n: u64 = 0;
    let mut j: usize = 0;
    while j < k
        invariant
            0 <= j <= k,
            k <= 6,
            i + k <= buf@.len(),
            forall|m: int| i <= m < i + k ==> is_digit(buf@[m]),
            n == digits_val(buf@, i as int, j as int),
            n < 1000000,
        decreases k - j,
    {
        assert(is_digit(buf@[i + j]));
        let d = (buf[i + j] as u32) - 48;
        proof {
            lemma_digits_val_bound(buf@, i as int, j + 1);
        }
        n = n * 10 + (d as u64);
        j += 1;
    }
    n
}

/// The number of trailing whitespace characters of `q`.
pub open spec fn trail_spaces(q: Seq<char>) -> int
    decreases q.len(),
{
    if q.len() == 0 || !is_space(q.last()) {
        0
    } else {
        1 + trail_spaces(q.drop_last())
    }
}

/// `q` with leading and trailing whitespace removed.
pub open spec fn trim_spaces(q: Seq<char>) -> Seq<char> {
    let lead = run_len(q, 0, |c: char| is_space(c));
    if lead == q.len() {
        Seq::empty()
    } else {
        q.subrange(lead, q.len() - trail_spaces(q))
    }
}

/// Trailing whitespace never reaches past the first non-space character.
pub proof fn lemma_trim_bounds(q: Seq<char>)
    ensures
        0 <= trail_spaces(q) <= q.len(),
        run_len(q, 0, |c: char| is_space(c)) < q.len() ==> run_len(q, 0, |c: char| is_space(c))
            + trail_spaces(q) <= q.len(),
    decreases q.len(),
{
    lemma_run_len(q, 0, |c: char| is_space(c));
    if q.len() > 0 && is_space(q.last()) {
        lemma_trim_bounds(q.drop_last());
        let lead = run_len(q, 0, |c: char| is_space(c));
        if lead < q.len() {
            let leadd = run_len(q.drop_last(), 0, |c: char| is_space(c));
            assert(leadd == lead) by {
                lemma_run_len_prefix(q, q.drop_last(), 0);
            }
        }
    }
}

/// Two sequences agreeing on a prefix that ends before either's run ends
/// have the same run length.
pub proof fn lemma_run_len_prefix(q: Seq<char>, w: Seq<char>, i: int)
    requires
        0 <= i <= w.len(),
        w.len() <= q.len(),
        forall|j: int| 0 <= j < w.len() ==> q[j] == w[j],
        run_len(q, i, |c: char| is_space(c)) + i <= w.len() || run_len(
            w,
            i,
            |c: char| is_space(c),
        ) + i < w.len(),
    ensures
        run_len(q, i, |c: char| is_space(c)) == run_len(w, i, |c: char| is_space(c)) || (run_len(
            q,
            i,
            |c: char| is_space(c),
        ) + i > w.len() && run_len(w, i, |c: char| is_space(c)) + i == w.len()),
    decreases q.len() - i,
{
    lemma_run_len(q, i, |c: char| is_space(c));
    lemma_run_len(w, i, |c: char| is_space(c));
    if i < w.len() && is_space(q[i]) {
        lemma_run_len_prefix(q, w, i + 1);
    }
}

/// The characters of `buf` from `a` to `b`, as a vector.
#[verifier::loop_isolation(false)]
pub fn extract_range(buf: &Vec<char>, a: usize, b: usize) -> (r: Vec<char>)
    requires
        a <= b <= buf@.len(),
    ensures
        r@ == buf@.subrange(a as int, b as int),
{
    let mut r: Vec<char> = Vec::new();
    let mut i: usize = a;
    while i < b
        invariant
            a <= i <= b <= buf@.len(),
            r@ =~= buf@.subrange(a as int, i as int),
        decreases b - i,
    {
        r.push(buf[i]);
        i += 1;
    }
    assert(r@ =~= buf@.subrange(a as int, b as int));
    r
}

/// The substring of `buf` from `a` to `b`, trimmed of surrounding
/// whitespace, as an owned string.
pub fn extract_trimmed(buf: &Vec<char>, a: usize, b: usize) -> (r: String)
    requires
        a <= b <= buf@.len(),
    ensures
        r@ == trim_spaces(buf@.subrange(a as int, b as int)),
{
    let piece = extract_range(buf, a, b);
    let ghost q = buf@.subrange(a as int, b as int);
    proof {
        lemma_trim_bounds(q);
        lemma_run_len(q, 0, |c: char| is_space(c));
    }
    let lead = count_spaces(&piece, 0);
    if lead == piece.len() {
        let r = String::new();
        assert(r@ =~= trim_spaces(q));
        return r;
    }
    let trail = count_trail_spaces(&piece);
    assert(piece@.subrange(lead as int, (piece@.len() - trail) as int) == trim_spaces(q));
    let inner = extract_range(&piece, lead, piece.len() - trail);
    chars_to_string(&inner)
}

/// The number of trailing whitespace characters of `buf`.
#[verifier::rlimit(30)]
#[verifier::loop_isolation(false)]
pub fn count_trail_spaces(buf: &Vec<char>) -> (n: usize)
    ensures
        n == trail_spaces(buf@),
        n <= buf@.len(),
{
    proof {
        lemma_trim_bounds(buf@);
        assert(buf@.subrange(0, buf@.len() as int) =~= buf@);
    }
    let mut j: usize = buf.len();
    while j > 0 && space_char(buf[j - 1])
        invariant
            0 <= j <= buf@.len(),
            trail_spaces(buf@) == (buf@.len() - j) + trail_spaces(buf@.subrange(0, j as int)),
            trail_spaces(buf@.subrange(0, j as int)) <= j,
        decreases j,
    {
        assert(buf@.subrange(0, j as int).drop_last() =~= buf@.subrange(0, j - 1));
        assert(buf@.subrange(0, j as int).last() == buf@[j - 1]);
        proof {
            lemma_trim_bounds(buf@.subrange(0, j - 1));
        }
        j -= 1;
    }
    assert(trail_spaces(buf@.subrange(0, j as int)) == 0);
    buf.len() - j
}

} // verus!
