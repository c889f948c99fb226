//! The anchored token matchers of the surface grammar, one per section
//! primitive. Each is defined as a spec function over the character buffer
//! and implemented by executable code proved to return exactly what the
//! spec function says. A match result is the end index of the matched
//! prefix together with the parsed value; no match is `None`.

use vstd::prelude::*;
use vstd::string::*;

use crate::grammar::{
    chars_to_string, count_digits, count_letter_space, count_name, digit_char, digits_val,
    extract_trimmed, is_digit, is_letter_space, is_name_char, is_space, is_word_char,
    lemma_run_len, lit_at, match_lit, parse_digits, run_len, str_to_chars, trim_spaces, word_char,
};
use crate::ontology::{Base, Position, TopBottom};
use crate::play_type::{all_play_types, spec_all_play_types, PlayType};

verus! {

/// What remains of the buffer after committing a match that ends at
/// `end`: the suffix, left-trimmed of whitespace.
pub open spec fn spec_consumed(s: Seq<char>, end: int) -> Seq<char>
    recommends
        0 <= end <= s.len(),
{
    s.subrange(end + run_len(s, end, |c: char| is_space(c)), s.len() as int)
}

/// `[GAME] ` followed by one to six digits; the value is the game
/// identifier.
pub open spec fn spec_game_match(s: Seq<char>) -> Option<(int, u64)> {
    let tag = "[GAME] "@;
    if lit_at(s, 0, tag) {
        let run = run_len(s, tag.len() as int, |c: char| is_digit(c));
        if run >= 1 {
            let k = if run <= 6 {
                run
            } else {
                6
            };
            Some(((tag.len() + k) as int, digits_val(s, tag.len() as int, k) as u64))
        } else {
            None
        }
    } else {
        None
    }
}

/// `[DATE] ` followed by digits in the shape `YYYY-MM-DD`; the value is
/// the date text.
pub open spec fn spec_date_match(s: Seq<char>) -> Option<(int, Seq<char>)> {
    let tag = "[DATE] "@;
    let i = tag.len() as int;
    if lit_at(s, 0, tag) && i + 10 <= s.len() && is_digit(s[i]) && is_digit(s[i + 1]) && is_digit(
        s[i + 2],
    ) && is_digit(s[i + 3]) && s[i + 4] == '-' && is_digit(s[i + 5]) && is_digit(s[i + 6]) && s[i
        + 7] == '-' && is_digit(s[i + 8]) && is_digit(s[i + 9]) {
        Some((i + 10, s.subrange(i, i + 10)))
    } else {
        None
    }
}

/// `[VENUE] ` followed by letters and spaces; the value is the venue
/// name, trimmed.
pub open spec fn spec_venue_match(s: Seq<char>) -> Option<(int, Seq<char>)> {
    let tag = "[VENUE] "@;
    let i = tag.len() as int;
    if lit_at(s, 0, tag) {
        let run = run_len(s, i, |c: char| is_letter_space(c));
        if run >= 1 {
            Some((i + run, trim_spaces(s.subrange(i, i + run))))
        } else {
            None
        }
    } else {
        None
    }
}

/// The largest index strictly below `run` at which a space stands, or
/// `-1` when there is none.
pub open spec fn last_space(s: Seq<char>, base: int, run: int) -> int
    decreases run,
{
    if run <= 0 {
        -1
    } else if s[base + run - 1] == ' ' {
        run - 1
    } else {
        last_space(s, base, run - 1)
    }
}

/// `[WEATHER] ` followed by a condition of letters and spaces, a one- to
/// three-digit temperature and a one- to three-digit wind speed. The
/// condition ends at the last space of the letters-and-spaces run, as a
/// backtracking match of the pattern does.
pub open spec fn spec_weather_match(s: Seq<char>) -> Option<(int, Seq<char>, u64, u64)> {
    let tag = "[WEATHER] "@;
    let i = tag.len() as int;
    if lit_at(s, 0, tag) {
        let run = run_len(s, i, |c: char| is_letter_space(c));
        let k = last_space(s, i, run);
        if k >= 1 {
            let t_start = i + k + 1;
            let d1 = run_len(s, t_start, |c: char| is_digit(c));
            if 1 <= d1 <= 3 && t_start + d1 < s.len() && s[t_start + d1] == ' ' {
                let w_start = t_start + d1 + 1;
                let d2 = run_len(s, w_start, |c: char| is_digit(c));
                if d2 >= 1 {
                    let w = if d2 <= 3 {
                        d2
                    } else {
                        3
                    };
                    Some(
                        (
                            w_start + w,
                            s.subrange(i, i + k),
                            digits_val(s, t_start, d1) as u64,
                            digits_val(s, w_start, w) as u64,
                        ),
                    )
                } else {
                    None
                }
            } else {
                None
            }
        } else {
            None
        }
    } else {
        None
    }
}

/// `[TEAM] ` followed by one to three digits; the value is the team
/// identifier.
pub open spec fn spec_team_match(s: Seq<char>) -> Option<(int, u64)> {
    let tag = "[TEAM] "@;
    if lit_at(s, 0, tag) {
        let run = run_len(s, tag.len() as int, |c: char| is_digit(c));
        if run >= 1 {
            let k = if run <= 3 {
                run
            } else {
                3
            };
            Some(((tag.len() + k) as int, digits_val(s, tag.len() as int, k) as u64))
        } else {
            None
        }
    } else {
        None
    }
}

/// The roster tag of a position: `[`, its spelling, `] `.
pub open spec fn position_tag(p: Position) -> Seq<char> {
    seq!['['] + p.spec_text() + seq![']', ' ']
}

/// The first position in `ps` whose roster tag starts the buffer.
pub open spec fn find_position(s: Seq<char>, ps: Seq<Position>) -> Option<Position>
    decreases ps.len(),
{
    if ps.len() == 0 {
        None
    } else if lit_at(s, 0, position_tag(ps[0])) {
        Some(ps[0])
    } else {
        find_position(s, ps.drop_first())
    }
}

/// A roster line: a position tag followed by a player name; the value is
/// the position and the name, trimmed.
pub open spec fn spec_player_match(s: Seq<char>) -> Option<(int, Position, Seq<char>)> {
    match find_position(s, crate::ontology::spec_all_positions()) {
        None => None,
        Some(p) => {
            let i = position_tag(p).len() as int;
            let run = run_len(s, i, |c: char| is_name_char(c));
            if run >= 1 {
                Some((i + run, p, trim_spaces(s.subrange(i, i + run))))
            } else {
                None
            }
        },
    }
}

/// `[INNING] ` followed by a one- or two-digit number, a space, and the
/// side.
pub open spec fn spec_inning_match(s: Seq<char>) -> Option<(int, u64, TopBottom)> {
    let tag = "[INNING] "@;
    let i = tag.len() as int;
    if lit_at(s, 0, tag) {
        let r1 = run_len(s, i, |c: char| is_digit(c));
        if 1 <= r1 <= 2 && i + r1 < s.len() && s[i + r1] == ' ' {
            let j = i + r1 + 1;
            if lit_at(s, j, TopBottom::Top.spec_text()) {
                Some(
                    (
                        j + TopBottom::Top.spec_text().len(),
                        digits_val(s, i, r1) as u64,
                        TopBottom::Top,
                    ),
                )
            } else if lit_at(s, j, TopBottom::Bottom.spec_text()) {
                Some(
                    (
                        j + TopBottom::Bottom.spec_text().len(),
                        digits_val(s, i, r1) as u64,
                        TopBottom::Bottom,
                    ),
                )
            } else {
                None
            }
        } else {
            None
        }
    } else {
        None
    }
}

/// Whether the canonical string of `t` follows the `[PLAY] ` tag.
pub open spec fn play_at(s: Seq<char>, t: PlayType) -> bool {
    lit_at(s, "[PLAY] "@.len() as int, t.spec_text())
}

/// Of the play types in `ts`, the one with the longest canonical string
/// that follows the `[PLAY] ` tag; an earlier type wins a tie.
pub open spec fn best_play(s: Seq<char>, ts: Seq<PlayType>) -> Option<PlayType>
    decreases ts.len(),
{
    if ts.len() == 0 {
        None
    } else {
        let rest = best_play(s, ts.drop_last());
        let t = ts.last();
        if play_at(s, t) && (rest is None || t.spec_text().len() > rest->0.spec_text().len()) {
            Some(t)
        } else {
            rest
        }
    }
}

/// `[PLAY] ` followed by a canonical play-type string, longest first.
pub open spec fn spec_play_match(s: Seq<char>) -> Option<(int, PlayType)> {
    if lit_at(s, 0, "[PLAY] "@) {
        match best_play(s, spec_all_play_types()) {
            None => None,
            Some(t) => Some((("[PLAY] "@.len() + t.spec_text().len()) as int, t)),
        }
    } else {
        None
    }
}

/// A base token at position `j`: `1`, `2`, `3`, `4` or `home`.
pub open spec fn spec_base_token(s: Seq<char>, j: int) -> Option<(int, Base)> {
    if j < s.len() && s[j] == '1' {
        Some((j + 1, Base::First))
    } else if j < s.len() && s[j] == '2' {
        Some((j + 1, Base::Second))
    } else if j < s.len() && s[j] == '3' {
        Some((j + 1, Base::Third))
    } else if j < s.len() && s[j] == '4' {
        Some((j + 1, Base::Home))
    } else if j + 4 <= s.len() && s[j] == 'h' && s[j + 1] == 'o' && s[j + 2] == 'm' && s[j + 3]
        == 'e' {
        Some((j + 4, Base::Home))
    } else {
        None
    }
}

/// A base name at position `i`: an optional space, a base token, and an
/// optional trailing space.
pub open spec fn spec_base_name_match(s: Seq<char>, i: int) -> Option<(int, Base)> {
    let j = if i < s.len() && s[i] == ' ' {
        i + 1
    } else {
        i
    };
    match spec_base_token(s, j) {
        None => None,
        Some((p, b)) => {
            let end = if p < s.len() && s[p] == ' ' {
                p + 1
            } else {
                p
            };
            Some((end, b))
        },
    }
}

/// `[BASE] ` followed by a base name.
pub open spec fn spec_base_tag_match(s: Seq<char>) -> Option<(int, Base)> {
    let tag = "[BASE] "@;
    if lit_at(s, 0, tag) {
        spec_base_name_match(s, tag.len() as int)
    } else {
        None
    }
}

/// A tag such as `[BATTER] ` followed by a player name; the value is the
/// name, trimmed.
pub open spec fn spec_tagged_name_match(s: Seq<char>, tag: Seq<char>) -> Option<(int, Seq<char>)> {
    if lit_at(s, 0, tag) {
        let i = tag.len() as int;
        let run = run_len(s, i, |c: char| is_name_char(c));
        if run >= 1 {
            Some((i + run, trim_spaces(s.subrange(i, i + run))))
        } else {
            None
        }
    } else {
        None
    }
}

/// A bare player name at the front of the buffer, as in a fielders list.
pub open spec fn spec_fielder_name_match(s: Seq<char>) -> Option<(int, Seq<char>)> {
    let run = run_len(s, 0, |c: char| is_name_char(c));
    if run >= 1 {
        Some((run, trim_spaces(s.subrange(0, run))))
    } else {
        None
    }
}

/// Whether a base name, reachable after at most two spaces, stands at
/// position `e`, with a word boundary after it: the lookahead that ends a
/// runner's name inside a movement.
pub open spec fn base_ahead(s: Seq<char>, e: int) -> bool {
    let t = if e < s.len() && s[e] == ' ' {
        if e + 1 < s.len() && s[e + 1] == ' ' {
            2int
        } else {
            1int
        }
    } else {
        0int
    };
    match spec_base_token(s, e + t) {
        None => false,
        Some((p, _)) => p == s.len() || !is_word_char(s[p]),
    }
}

/// The largest end index at most `e` of a name-character run from the
/// start of the buffer with a base name ahead of it.
pub open spec fn move_name_end(s: Seq<char>, e: int) -> Option<int>
    decreases e + 1,
{
    if e < 0 {
        None
    } else if base_ahead(s, e) {
        Some(e)
    } else {
        move_name_end(s, e - 1)
    }
}

/// The runner name that starts a movement: the longest name-character
/// run whose end has a base name ahead of it; the value is that prefix,
/// trimmed. The name may be empty.
pub open spec fn spec_move_name_match(s: Seq<char>) -> Option<(int, Seq<char>)> {
    match move_name_end(s, run_len(s, 0, |c: char| is_name_char(c))) {
        None => None,
        Some(e) => Some((e, trim_spaces(s.subrange(0, e)))),
    }
}


/// A sequence stepped past its head: basic facts about `skip`.
proof fn lemma_skip_step<T>(s: Seq<T>, i: int)
    requires
        0 <= i < s.len(),
    ensures
        s.skip(i).drop_first() =~= s.skip(i + 1),
        s.skip(i)[0] == s[i],
        s.skip(i).len() == s.len() - i,
{
}

/// A sequence grown by its next element: basic facts about `take`.
proof fn lemma_take_step<T>(s: Seq<T>, i: int)
    requires
        0 <= i < s.len(),
    ensures
        s.take(i + 1).drop_last() =~= s.take(i),
        s.take(i + 1).last() == s[i],
        s.take(i + 1).len() == i + 1,
{
}

/// Match the `[GAME] ` line at the front of the buffer.
#[verifier::loop_isolation(false)]
pub fn match_game(buf: &Vec<char>) -> (r: Option<(usize, u64)>)
    ensures
        r matches Some(x) ==> x.0 >= 1,
        r is None ==> spec_game_match(buf@) is None,
        r matches Some((end, v)) ==> spec_game_match(buf@) == Some((end as int, v)) && end
            <= buf@.len(),
{
    let _blen = buf.len();
    let tag = str_to_chars("[GAME] ");
    if !match_lit(buf, 0, &tag) {
        return None;
    }
    let run = count_digits(buf, tag.len());
    if run == 0 {
        return None;
    }
    let k = if run <= 6 {
        run
    } else {
        6
    };
    proof {
        lemma_run_len(buf@, tag@.len() as int, |c: char| is_digit(c));
    }
    let v = parse_digits(buf, tag.len(), k);
    Some((tag.len() + k, v))
}

/// Match the `[DATE] ` line at the front of the buffer.
pub fn match_date(buf: &Vec<char>) -> (r: Option<(usize, String)>)
    ensures
        r matches Some(x) ==> x.0 >= 1,
        r is None ==> spec_date_match(buf@) is None,
        r matches Some((end, d)) ==> spec_date_match(buf@) == Some((end as int, d@)) && end
            <= buf@.len(),
{
    let _blen = buf.len();
    let tag = str_to_chars("[DATE] ");
    if !match_lit(buf, 0, &tag) {
        return None;
    }
    let i = tag.len();
    assert(i <= buf@.len());
    if buf.len() - i < 10 {
        return None;
    }
    let ok = digit_char(buf[i]) && digit_char(buf[i + 1]) && digit_char(buf[i + 2]) && digit_char(
        buf[i + 3],
    ) && buf[i + 4] == '-' && digit_char(buf[i + 5]) && digit_char(buf[i + 6]) && buf[i + 7] == '-'
        && digit_char(buf[i + 8]) && digit_char(buf[i + 9]);
    if !ok {
        return None;
    }
    let piece = crate::grammar::extract_range(buf, i, i + 10);
    let d = chars_to_string(&piece);
    Some((i + 10, d))
}

/// Match the `[VENUE] ` line at the front of the buffer.
pub fn match_venue(buf: &Vec<char>) -> (r: Option<(usize, String)>)
    ensures
        r matches Some(x) ==> x.0 >= 1,
        r is None ==> spec_venue_match(buf@) is None,
        r matches Some((end, v)) ==> spec_venue_match(buf@) == Some((end as int, v@)) && end
            <= buf@.len(),
{
    let _blen = buf.len();
    let tag = str_to_chars("[VENUE] ");
    if !match_lit(buf, 0, &tag) {
        return None;
    }
    let run = count_letter_space(buf, tag.len());
    if run == 0 {
        return None;
    }
    let v = extract_trimmed(buf, tag.len(), tag.len() + run);
    Some((tag.len() + run, v))
}

/// The largest index strictly below `run` at which a space stands.
#[verifier::loop_isolation(false)]
fn find_last_space(buf: &Vec<char>, base: usize, run: usize) -> (r: Option<usize>)
    requires
        base + run <= buf@.len(),
    ensures
        r is None ==> last_space(buf@, base as int, run as int) == -1,
        r matches Some(k) ==> last_space(buf@, base as int, run as int) == k && k < run,
{
    let _blen = buf.len();
    let mut j: usize = run;
    while j > 0
        invariant
            0 <= j <= run,
            last_space(buf@, base as int, run as int) == last_space(buf@, base as int, j as int),
        decreases j,
    {
        if buf[base + j - 1] == ' ' {
            return Some(j - 1);
        }
        j -= 1;
    }
    None
}

/// Match the `[WEATHER] ` line at the front of the buffer.
#[verifier::loop_isolation(false)]
pub fn match_weather(buf: &Vec<char>) -> (r: Option<(usize, String, u64, u64)>)
    ensures
        r matches Some(x) ==> x.0 >= 1,
        r is None ==> spec_weather_match(buf@) is None,
        r matches Some((end, c, t, w)) ==> spec_weather_match(buf@) == Some(
            (end as int, c@, t, w),
        ) && end <= buf@.len(),
{
    let _blen = buf.len();
    let tag = str_to_chars("[WEATHER] ");
    if !match_lit(buf, 0, &tag) {
        return None;
    }
    let i = tag.len();
    let run = count_letter_space(buf, i);
    let k = match find_last_space(buf, i, run) {
        Some(k) => k,
        None => {
            return None;
        },
    };
    if k == 0 {
        return None;
    }
    let t_start = i + k + 1;
    assert(t_start <= buf@.len()) by {
        lemma_run_len(buf@, i as int, |c: char| is_letter_space(c));
        lemma_last_space_bound(buf@, i as int, run as int);
    }
    let d1 = count_digits(buf, t_start);
    if d1 == 0 || d1 > 3 {
        return None;
    }
    if t_start + d1 >= buf.len() || buf[t_start + d1] != ' ' {
        return None;
    }
    let w_start = t_start + d1 + 1;
    let d2 = count_digits(buf, w_start);
    if d2 == 0 {
        return None;
    }
    let w = if d2 <= 3 {
        d2
    } else {
        3
    };
    proof {
        lemma_run_len(buf@, t_start as int, |c: char| is_digit(c));
        lemma_run_len(buf@, w_start as int, |c: char| is_digit(c));
    }
    let cond = {
        let piece = crate::grammar::extract_range(buf, i, i + k);
        chars_to_string(&piece)
    };
    let temperature = parse_digits(buf, t_start, d1);
    let wind = parse_digits(buf, w_start, w);
    Some((w_start + w, cond, temperature, wind))
}

/// A last space found by `last_space` lies inside the run.
proof fn lemma_last_space_bound(s: Seq<char>, base: int, run: int)
    requires
        0 <= run,
    ensures
        last_space(s, base, run) < run,
        last_space(s, base, run) >= -1,
    decreases run,
{
    if run > 0 && !(s[base + run - 1] == ' ') {
        lemma_last_space_bound(s, base, run - 1);
    }
}

/// Match the `[TEAM] ` line at the front of the buffer.
#[verifier::loop_isolation(false)]
pub fn match_team(buf: &Vec<char>) -> (r: Option<(usize, u64)>)
    ensures
        r matches Some(x) ==> x.0 >= 1,
        r is None ==> spec_team_match(buf@) is None,
        r matches Some((end, v)) ==> spec_team_match(buf@) == Some((end as int, v)) && end
            <= buf@.len(),
{
    let _blen = buf.len();
    let tag = str_to_chars("[TEAM] ");
    if !match_lit(buf, 0, &tag) {
        return None;
    }
    let run = count_digits(buf, tag.len());
    if run == 0 {
        return None;
    }
    let k = if run <= 3 {
        run
    } else {
        3
    };
    proof {
        lemma_run_len(buf@, tag@.len() as int, |c: char| is_digit(c));
    }
    let v = parse_digits(buf, tag.len(), k);
    Some((tag.len() + k, v))
}

/// The roster tag of a position, as characters.
fn position_tag_chars(p: &Position) -> (r: Vec<char>)
    ensures
        r@ == position_tag(*p),
{
    let text = p.text();
    let inner = str_to_chars(text.as_str());
    let mut r: Vec<char> = Vec::new();
    r.push('[');
    let mut i: usize = 0;
    while i < inner.len()
        invariant
            0 <= i <= inner@.len(),
            inner@ == p.spec_text(),
            r@ =~= seq!['['] + inner@.subrange(0, i as int),
        decreases inner@.len() - i,
    {
        r.push(inner[i]);
        i += 1;
    }
    r.push(']');
    r.push(' ');
    assert(r@ =~= position_tag(*p));
    r
}

/// Match a roster line at the front of the buffer.
#[verifier::loop_isolation(false)]
pub fn match_player(buf: &Vec<char>) -> (r: Option<(usize, Position, String)>)
    ensures
        r matches Some(x) ==> x.0 >= 1,
        r is None ==> spec_player_match(buf@) is None,
        r matches Some((end, p, n)) ==> spec_player_match(buf@) == Some((end as int, p, n@)) && end
            <= buf@.len(),
{
    let _blen = buf.len();
    let ghost all = crate::ontology::spec_all_positions();
    let positions = crate::ontology::all_positions();
    let mut idx: usize = 0;
    assert(all.skip(0) =~= all);
    while idx < positions.len()
        invariant
            0 <= idx <= all.len(),
            positions@ == all,
            find_position(buf@, all.skip(idx as int)) == find_position(buf@, all),
        decreases all.len() - idx,
    {
        let p = positions[idx];
        let tagv = position_tag_chars(&p);
        proof {
            lemma_skip_step(all, idx as int);
        }
        if match_lit(buf, 0, &tagv) {
            assert(find_position(buf@, all) == Some(p));
            let i = tagv.len();
            let run = count_name(buf, i);
            if run == 0 {
                return None;
            }
            let n = extract_trimmed(buf, i, i + run);
            return Some((i + run, p, n));
        }
        idx += 1;
    }
    assert(all.skip(all.len() as int) =~= Seq::<Position>::empty());
    None
}

/// Match the `[INNING] ` line at the front of the buffer.
pub fn match_inning(buf: &Vec<char>) -> (r: Option<(usize, u64, TopBottom)>)
    ensures
        r matches Some(x) ==> x.0 >= 1,
        r is None ==> spec_inning_match(buf@) is None,
        r matches Some((end, n, tb)) ==> spec_inning_match(buf@) == Some((end as int, n, tb)) && end
            <= buf@.len(),
{
    let _blen = buf.len();
    let tag = str_to_chars("[INNING] ");
    if !match_lit(buf, 0, &tag) {
        return None;
    }
    let i = tag.len();
    let r1 = count_digits(buf, i);
    if r1 == 0 || r1 > 2 {
        return None;
    }
    if i + r1 >= buf.len() || buf[i + r1] != ' ' {
        return None;
    }
    let j = i + r1 + 1;
    proof {
        lemma_run_len(buf@, i as int, |c: char| is_digit(c));
    }
    let n = parse_digits(buf, i, r1);
    let top = str_to_chars(TopBottom::Top.text().as_str());
    if match_lit(buf, j, &top) {
        return Some((j + top.len(), n, TopBottom::Top));
    }
    let bottom = str_to_chars(TopBottom::Bottom.text().as_str());
    if match_lit(buf, j, &bottom) {
        return Some((j + bottom.len(), n, TopBottom::Bottom));
    }
    None
}

/// Match the `[PLAY] ` line at the front of the buffer, preferring the
/// longest play-type string.
#[verifier::loop_isolation(false)]
pub fn match_play(buf: &Vec<char>) -> (r: Option<(usize, PlayType)>)
    ensures
        r matches Some(x) ==> x.0 >= 1,
        r is None ==> spec_play_match(buf@) is None,
        r matches Some((end, t)) ==> spec_play_match(buf@) == Some((end as int, t)) && end
            <= buf@.len(),
{
    let _blen = buf.len();
    let tag = str_to_chars("[PLAY] ");
    if !match_lit(buf, 0, &tag) {
        return None;
    }
    proof {
        reveal_strlit("[PLAY] ");
    }
    let ghost all = spec_all_play_types();
    let types = all_play_types();
    let mut idx: usize = 0;
    let mut best: Option<(PlayType, usize)> = None;
    while idx < types.len()
        invariant
            0 <= idx <= all.len(),
            types@ == all,
            tag@ == "[PLAY] "@,
            (match best {
                None => best_play(buf@, all.take(idx as int)) is None,
                Some((t, l)) => {
                    &&& best_play(buf@, all.take(idx as int)) == Some(t)
                    &&& l == t.spec_text().len()
                    &&& play_at(buf@, t)
                },
            }),
        decreases all.len() - idx,
    {
        let t = types[idx];
        let textv = str_to_chars(t.text().as_str());
        proof {
            lemma_take_step(all, idx as int);
        }
        if match_lit(buf, tag.len(), &textv) {
            let better = match best {
                None => true,
                Some((_, l)) => textv.len() > l,
            };
            if better {
                best = Some((t, textv.len()));
            }
        }
        idx += 1;
    }
    assert(all.take(all.len() as int) =~= all);
    match best {
        None => None,
        Some((t, l)) => {
            assert(lit_at(buf@, tag@.len() as int, t.spec_text()));
            Some((tag.len() + l, t))
        },
    }
}

/// Match a base token at position `j` of the buffer.
pub fn match_base_token(buf: &Vec<char>, j: usize) -> (r: Option<(usize, Base)>)
    ensures
        r is None ==> spec_base_token(buf@, j as int) is None,
        r matches Some((end, b)) ==> spec_base_token(buf@, j as int) == Some((end as int, b)) && end
            <= buf@.len(),
{
    if j < buf.len() && buf[j] == '1' {
        Some((j + 1, Base::First))
    } else if j < buf.len() && buf[j] == '2' {
        Some((j + 1, Base::Second))
    } else if j < buf.len() && buf[j] == '3' {
        Some((j + 1, Base::Third))
    } else if j < buf.len() && buf[j] == '4' {
        Some((j + 1, Base::Home))
    } else if j <= buf.len() && buf.len() - j >= 4 && buf[j] == 'h' && buf[j + 1] == 'o' && buf[j
        + 2] == 'm' && buf[j + 3] == 'e' {
        Some((j + 4, Base::Home))
    } else {
        None
    }
}

/// Match a base name at position `i` of the buffer.
pub fn match_base_name(buf: &Vec<char>, i: usize) -> (r: Option<(usize, Base)>)
    requires
        i <= buf@.len(),
    ensures
        r matches Some(x) ==> x.0 >= i + 1,
        r is None ==> spec_base_name_match(buf@, i as int) is None,
        r matches Some((end, b)) ==> spec_base_name_match(buf@, i as int) == Some((end as int, b))
            && end <= buf@.len(),
{
    let j = if i < buf.len() && buf[i] == ' ' {
        i + 1
    } else {
        i
    };
    match match_base_token(buf, j) {
        None => None,
        Some((p, b)) => {
            let end = if p < buf.len() && buf[p] == ' ' {
                p + 1
            } else {
                p
            };
            Some((end, b))
        },
    }
}

/// Match the `[BASE] ` line at the front of the buffer.
pub fn match_base_tag(buf: &Vec<char>) -> (r: Option<(usize, Base)>)
    ensures
        r matches Some(x) ==> x.0 >= 1,
        r is None ==> spec_base_tag_match(buf@) is None,
        r matches Some((end, b)) ==> spec_base_tag_match(buf@) == Some((end as int, b)) && end
            <= buf@.len(),
{
    let tag = str_to_chars("[BASE] ");
    if !match_lit(buf, 0, &tag) {
        return None;
    }
    match_base_name(buf, tag.len())
}

/// Match a tagged player name, such as a `[BATTER] ` line, at the front
/// of the buffer.
pub fn match_tagged_name(buf: &Vec<char>, tag: &Vec<char>) -> (r: Option<(usize, String)>)
    ensures
        r matches Some(x) ==> x.0 >= 1,
        r is None ==> spec_tagged_name_match(buf@, tag@) is None,
        r matches Some((end, n)) ==> spec_tagged_name_match(buf@, tag@) == Some((end as int, n@))
            && end <= buf@.len(),
{
    let _blen = buf.len();
    if !match_lit(buf, 0, tag) {
        return None;
    }
    let i = tag.len();
    let run = count_name(buf, i);
    if run == 0 {
        return None;
    }
    let n = extract_trimmed(buf, i, i + run);
    Some((i + run, n))
}

/// Match a bare player name, as in a fielders list, at the front of the
/// buffer.
pub fn match_fielder_name(buf: &Vec<char>) -> (r: Option<(usize, String)>)
    ensures
        r matches Some(x) ==> x.0 >= 1,
        r is None ==> spec_fielder_name_match(buf@) is None,
        r matches Some((end, n)) ==> spec_fielder_name_match(buf@) == Some((end as int, n@)) && end
            <= buf@.len(),
{
    let _blen = buf.len();
    let run = count_name(buf, 0);
    if run == 0 {
        return None;
    }
    let n = extract_trimmed(buf, 0, run);
    Some((run, n))
}

/// Whether a base name stands ahead of position `e`, ending a runner
/// name.
pub fn base_ahead_exec(buf: &Vec<char>, e: usize) -> (b: bool)
    requires
        e <= buf@.len(),
    ensures
        b == base_ahead(buf@, e as int),
{
    let t: usize = if e < buf.len() && buf[e] == ' ' {
        if e + 1 < buf.len() && buf[e + 1] == ' ' {
            2
        } else {
            1
        }
    } else {
        0
    };
    match match_base_token(buf, e + t) {
        None => false,
        Some((p, _)) => p == buf.len() || !word_char(buf[p]),
    }
}

/// Match the runner name that starts a movement at the front of the
/// buffer.
#[verifier::loop_isolation(false)]
pub fn match_move_name(buf: &Vec<char>) -> (r: Option<(usize, String)>)
    ensures
        r is None ==> spec_move_name_match(buf@) is None,
        r matches Some((end, n)) ==> spec_move_name_match(buf@) == Some((end as int, n@)) && end
            <= buf@.len(),
{
    let _blen = buf.len();
    let run = count_name(buf, 0);
    let mut e: usize = run;
    loop
        invariant
            0 <= e <= run,
            run == run_len(buf@, 0, |c: char| is_name_char(c)),
            run <= buf@.len(),
            move_name_end(buf@, run as int) == move_name_end(buf@, e as int),
        decreases e,
    {
        if base_ahead_exec(buf, e) {
            let n = extract_trimmed(buf, 0, e);
            return Some((e, n));
        }
        if e == 0 {
            assert(move_name_end(buf@, 0int) == move_name_end(buf@, -1int));
            assert(move_name_end(buf@, -1int) is None);
            return None;
        }
        e -= 1;
    }
}

} // verus!
