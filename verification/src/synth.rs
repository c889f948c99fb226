//! The context-sensitive pattern synthesizer: from the live game state it
//! emits a regular expression, in ordinary pattern syntax, that matches
//! every textually valid continuation of the input. The pattern is a pure
//! function of the occupancy, the pinch-runner roster and the static
//! grammar.

use vstd::prelude::*;
use vstd::string::*;

use crate::livestate::RunnerPositionsV;
use crate::ontology::Position;
use crate::parser::Parser;
use crate::play_type::{all_play_types, spec_all_play_types, PlayType};

verus! {

/// A list of alternatives joined by `|`.
pub open spec fn join_bar(xs: Seq<Seq<char>>) -> Seq<char>
    decreases xs.len(),
{
    if xs.len() == 0 {
        Seq::empty()
    } else if xs.len() == 1 {
        xs[0]
    } else {
        join_bar(xs.drop_last()) + "|"@ + xs.last()
    }
}

/// The canonical spellings of all positions, in declaration order.
pub open spec fn position_texts() -> Seq<Seq<char>> {
    crate::ontology::spec_all_positions().map_values(|p: Position| p.spec_text())
}

/// The pattern of one roster line.
pub open spec fn player_line_pattern() -> Seq<char> {
    "\\[("@ + join_bar(position_texts()) + ")\\] ("@ + "[a-zA-ZÀ-ÖØ-öø-ÿ.'\\- ]+"@ + ")"@
}

/// The pattern of a play's inner part: the `[PLAY]` tag, the canonical
/// play-type string, and exactly the sub-section patterns that the play
/// type requires, in the fixed sub-section order.
pub open spec fn inner_pattern_spec(t: PlayType) -> Seq<char> {
    let s0 = "\\[PLAY\\] "@ + t.spec_text();
    let s1 = if t.spec_requires_base() {
        s0 + " \\[BASE\\] ( ?(1|2|3|4|home) ?)"@
    } else {
        s0
    };
    let s2 = if t.spec_requires_batter() {
        s1 + " \\[BATTER\\] ([a-zA-ZÀ-ÖØ-öø-ÿ.'\\- ]+)"@
    } else {
        s1
    };
    let s3 = if t.spec_requires_pitcher() {
        s2 + " \\[PITCHER\\] ([a-zA-ZÀ-ÖØ-öø-ÿ.'\\- ]+)"@
    } else {
        s2
    };
    let s4 = if t.spec_requires_catcher() {
        s3 + " \\[CATCHER\\] ([a-zA-ZÀ-ÖØ-öø-ÿ.'\\- ]+)"@
    } else {
        s3
    };
    let s5 = if t.spec_requires_fielders() {
        s4 + " \\[FIELDERS\\] [a-zA-ZÀ-ÖØ-öø-ÿ.'\\- ]+(, [a-zA-ZÀ-ÖØ-öø-ÿ.'\\- ]+)*"@
    } else {
        s4
    };
    let s6 = if t.spec_requires_runner() {
        s5 + " \\[RUNNER\\] ([a-zA-ZÀ-ÖØ-öø-ÿ.'\\- ]+)"@
    } else {
        s5
    };
    if t.spec_requires_scoring_runner() {
        s6 + " \\[SCORING_RUNNER\\] ([a-zA-ZÀ-ÖØ-öø-ÿ.'\\- ]+)"@
    } else {
        s6
    }
}

/// The inner patterns of all play types, each wrapped in parentheses.
pub open spec fn wrapped_inner_patterns() -> Seq<Seq<char>> {
    spec_all_play_types().map_values(|t: PlayType| "("@ + inner_pattern_spec(t) + ")"@)
}

/// One movement alternative: who may leave the given base, and where the
/// runner may go.
pub open spec fn movement_alt(who: Seq<char>, rest: Seq<char>, prs: Seq<Seq<char>>) -> Seq<char> {
    if prs.len() == 0 {
        who + rest
    } else {
        "("@ + who + "|"@ + join_bar(prs) + ")"@ + rest
    }
}

/// The movements pattern for the given occupancy and pinch-runner
/// roster: a batter may always start from home; an occupied base may be
/// left by its occupant or by a rostered pinch runner.
pub open spec fn movements_pattern_spec(pos: RunnerPositionsV, prs: Seq<Seq<char>>) -> Seq<char> {
    let home_alt = movement_alt(
        "[a-zA-ZÀ-ÖØ-öø-ÿ.'\\- ]+"@,
        " home -> (1|2|3|4|home)( \\[out\\])?"@,
        prs,
    );
    let alts0 = "("@ + home_alt + ")"@;
    let alts1 = if pos.first is Some {
        alts0 + "|("@ + movement_alt(pos.first->0, " 1 -> (2|3|4|home)( \\[out\\])?"@, prs) + ")"@
    } else {
        alts0
    };
    let alts2 = if pos.second is Some {
        alts1 + "|("@ + movement_alt(pos.second->0, " 2 -> (3|4|home)( \\[out\\])?"@, prs) + ")"@
    } else {
        alts1
    };
    let alts = if pos.third is Some {
        alts2 + "|("@ + movement_alt(pos.third->0, " 3 -> (4|home)( \\[out\\])?"@, prs) + ")"@
    } else {
        alts2
    };
    "\\[MOVEMENTS\\] "@ + alts + "(, "@ + alts + ")*"@
}

/// The pattern of one whole play: its inning line, one of the per-type
/// inner patterns, the movements pattern, and the closing semicolon.
pub open spec fn play_pattern_spec(pos: RunnerPositionsV, prs: Seq<Seq<char>>) -> Seq<char> {
    "\\[INNING\\] (\\d{1,2}) (top|bottom)"@ + " ("@ + join_bar(wrapped_inner_patterns()) + ") "@
        + movements_pattern_spec(pos, prs) + ";"@
}

/// The pattern of a whole valid game from its beginning.
pub open spec fn valid_pattern_spec(pos: RunnerPositionsV, prs: Seq<Seq<char>>) -> Seq<char> {
    let context = "\\[GAME\\] (\\d{1,6}) \\[DATE\\] (\\d{4}-\\d{2}-\\d{2}) \\[VENUE\\] ([a-zA-ZÀ-ÖØ-öø-ÿ ]+) \\[WEATHER\\] ([a-zA-ZÀ-ÖØ-öø-ÿ ]+) (\\d{1,3}) (\\d{1,3})"@;
    let team = "\\[TEAM\\] (\\d{1,3})"@ + "\n("@ + player_line_pattern() + ")(\n"@
        + player_line_pattern() + ")*"@;
    let plays = "\\[GAME_START\\]\n("@ + play_pattern_spec(pos, prs) + "\n)+\\[GAME_END\\]"@;
    context + "\n\n"@ + team + "\n\n"@ + team + "\n\n"@ + plays
}

/// The spellings of all positions joined by `|`, as an owned string.
fn position_alternation() -> (r: String)
    ensures
        r@ == join_bar(position_texts()),
{
    let positions = crate::ontology::all_positions();
    let mut s = String::new();
    let mut i: usize = 0;
    while i < positions.len()
        invariant
            0 <= i <= positions@.len(),
            positions@ == crate::ontology::spec_all_positions(),
            s@ == join_bar(position_texts().take(i as int)),
        decreases positions@.len() - i,
    {
        proof {
            assert(position_texts().take(i + 1).drop_last() =~= position_texts().take(i as int));
            assert(position_texts().take(i + 1).last() == positions@[i as int].spec_text());
        }
        if i > 0 {
            s.append("|");
        }
        let t = positions[i].text();
        s.append(t.as_str());
        i += 1;
    }
    assert(position_texts().take(position_texts().len() as int) =~= position_texts());
    s
}

/// One movement alternative, as an owned string.
fn movement_alt_exec(who: &str, rest: &str, pinch_alternation: &String, any_pinch: bool, Ghost(
    prs,
): Ghost<Seq<Seq<char>>>) -> (r: String)
    requires
        any_pinch == (prs.len() > 0),
        pinch_alternation@ == join_bar(prs),
    ensures
        r@ == movement_alt(who@, rest@, prs),
{
    let mut s = String::new();
    if any_pinch {
        s.append("(");
        s.append(who);
        s.append("|");
        s.append(pinch_alternation.as_str());
        s.append(")");
        s.append(rest);
    } else {
        s.append(who);
        s.append(rest);
    }
    s
}

impl Parser {
    /// The pattern of the inner part of a play of the given type.
    pub fn inner_pattern_from_play_type(&self, play_type: &PlayType) -> (r: String)
        ensures
            r@ == inner_pattern_spec(*play_type),
    {
        let mut s = String::from_str("\\[PLAY\\] ");
        let text = play_type.text();
        s.append(text.as_str());
        if play_type.requires_base() {
            s.append(" \\[BASE\\] ( ?(1|2|3|4|home) ?)");
        }
        if play_type.requires_batter() {
            s.append(" \\[BATTER\\] ([a-zA-ZÀ-ÖØ-öø-ÿ.'\\- ]+)");
        }
        if play_type.requires_pitcher() {
            s.append(" \\[PITCHER\\] ([a-zA-ZÀ-ÖØ-öø-ÿ.'\\- ]+)");
        }
        if play_type.requires_catcher() {
            s.append(" \\[CATCHER\\] ([a-zA-ZÀ-ÖØ-öø-ÿ.'\\- ]+)");
        }
        if play_type.requires_fielders() {
            s.append(" \\[FIELDERS\\] [a-zA-ZÀ-ÖØ-öø-ÿ.'\\- ]+(, [a-zA-ZÀ-ÖØ-öø-ÿ.'\\- ]+)*");
        }
        if play_type.requires_runner() {
            s.append(" \\[RUNNER\\] ([a-zA-ZÀ-ÖØ-öø-ÿ.'\\- ]+)");
        }
        if play_type.requires_scoring_runner() {
            s.append(" \\[SCORING_RUNNER\\] ([a-zA-ZÀ-ÖØ-öø-ÿ.'\\- ]+)");
        }
        s
    }

    /// The pattern of the movements part of a play, parameterized by the
    /// current occupancy and pinch-runner roster.
    pub fn movements_regex(&self) -> (r: String)
        ensures
            r@ == movements_pattern_spec(
                self.live_game_state.runner_positions@,
                self.pinch_runners.deep_view(),
            ),
    {
        let ghost prs = self.pinch_runners.deep_view();
        let mut pinch = String::new();
        let mut i: usize = 0;
        while i < self.pinch_runners.len()
            invariant
                0 <= i <= self.pinch_runners@.len(),
                prs == self.pinch_runners.deep_view(),
                pinch@ == join_bar(prs.take(i as int)),
            decreases self.pinch_runners@.len() - i,
        {
            proof {
                assert(prs.take(i + 1).drop_last() =~= prs.take(i as int));
                assert(prs.take(i + 1).last() == prs[i as int]);
            }
            if i > 0 {
                pinch.append("|");
            }
            pinch.append(self.pinch_runners[i].as_str());
            i += 1;
        }
        proof {
            assert(prs.take(prs.len() as int) =~= prs);
        }
        let any_pinch = self.pinch_runners.len() > 0;
        let home_alt = movement_alt_exec(
            "[a-zA-ZÀ-ÖØ-öø-ÿ.'\\- ]+",
            " home -> (1|2|3|4|home)( \\[out\\])?",
            &pinch,
            any_pinch,
            Ghost(prs),
        );
        let mut alts = String::from_str("(");
        alts.append(home_alt.as_str());
        alts.append(")");
        match &self.live_game_state.runner_positions.first {
            Some(first) => {
                let e = movement_alt_exec(
                    first.as_str(),
                    " 1 -> (2|3|4|home)( \\[out\\])?",
                    &pinch,
                    any_pinch,
                    Ghost(prs),
                );
                alts.append("|(");
                alts.append(e.as_str());
                alts.append(")");
            },
            None => (),
        }
        match &self.live_game_state.runner_positions.second {
            Some(second) => {
                let e = movement_alt_exec(
                    second.as_str(),
                    " 2 -> (3|4|home)( \\[out\\])?",
                    &pinch,
                    any_pinch,
                    Ghost(prs),
                );
                alts.append("|(");
                alts.append(e.as_str());
                alts.append(")");
            },
            None => (),
        }
        match &self.live_game_state.runner_positions.third {
            Some(third) => {
                let e = movement_alt_exec(
                    third.as_str(),
                    " 3 -> (4|home)( \\[out\\])?",
                    &pinch,
                    any_pinch,
                    Ghost(prs),
                );
                alts.append("|(");
                alts.append(e.as_str());
                alts.append(")");
            },
            None => (),
        }
        let mut s = String::from_str("\\[MOVEMENTS\\] ");
        s.append(alts.as_str());
        s.append("(, ");
        s.append(alts.as_str());
        s.append(")*");
        assert(s@ =~= movements_pattern_spec(
            self.live_game_state.runner_positions@,
            self.pinch_runners.deep_view(),
        ));
        s
    }

    /// The pattern of a single play, taking the live state into account.
    pub fn play_regex(&self) -> (r: String)
        ensures
            r@ == play_pattern_spec(
                self.live_game_state.runner_positions@,
                self.pinch_runners.deep_view(),
            ),
    {
        let types = all_play_types();
        let mut inner = String::new();
        let mut i: usize = 0;
        while i < types.len()
            invariant
                0 <= i <= types@.len(),
                types@ == spec_all_play_types(),
                inner@ == join_bar(wrapped_inner_patterns().take(i as int)),
            decreases types@.len() - i,
        {
            proof {
                assert(wrapped_inner_patterns().take(i + 1).drop_last()
                    =~= wrapped_inner_patterns().take(i as int));
                assert(wrapped_inner_patterns().take(i + 1).last() == "("@ + inner_pattern_spec(
                    types@[i as int],
                ) + ")"@);
            }
            if i > 0 {
                inner.append("|");
            }
            inner.append("(");
            let p = self.inner_pattern_from_play_type(&types[i]);
            inner.append(p.as_str());
            inner.append(")");
            i += 1;
        }
        proof {
            assert(wrapped_inner_patterns().take(wrapped_inner_patterns().len() as int)
                =~= wrapped_inner_patterns());
        }
        let movements = self.movements_regex();
        let mut s = String::from_str("\\[INNING\\] (\\d{1,2}) (top|bottom)");
        s.append(" (");
        s.append(inner.as_str());
        s.append(") ");
        s.append(movements.as_str());
        s.append(";");
        assert(s@ =~= play_pattern_spec(
            self.live_game_state.runner_positions@,
            self.pinch_runners.deep_view(),
        ));
        s
    }

    /// The pattern of a whole valid game from its beginning, taking the
    /// live state into account.
    pub fn valid_regex(&self) -> (r: String)
        ensures
            r@ == valid_pattern_spec(
                self.live_game_state.runner_positions@,
                self.pinch_runners.deep_view(),
            ),
    {
        let positions = position_alternation();
        let mut player = String::from_str("\\[(");
        player.append(positions.as_str());
        player.append(")\\] (");
        player.append("[a-zA-ZÀ-ÖØ-öø-ÿ.'\\- ]+");
        player.append(")");
        assert(player@ =~= player_line_pattern());
        let mut team = String::from_str("\\[TEAM\\] (\\d{1,3})");
        team.append("\n(");
        team.append(player.as_str());
        team.append(")(\n");
        team.append(player.as_str());
        team.append(")*");
        let play = self.play_regex();
        let mut s = String::from_str(
            "\\[GAME\\] (\\d{1,6}) \\[DATE\\] (\\d{4}-\\d{2}-\\d{2}) \\[VENUE\\] ([a-zA-ZÀ-ÖØ-öø-ÿ ]+) \\[WEATHER\\] ([a-zA-ZÀ-ÖØ-öø-ÿ ]+) (\\d{1,3}) (\\d{1,3})",
        );
        s.append("\n\n");
        s.append(team.as_str());
        s.append("\n\n");
        s.append(team.as_str());
        s.append("\n\n");
        s.append("\\[GAME_START\\]\n(");
        s.append(play.as_str());
        s.append("\n)+\\[GAME_END\\]");
        assert(s@ =~= valid_pattern_spec(
            self.live_game_state.runner_positions@,
            self.pinch_runners.deep_view(),
        ));
        s
    }
}

} // verus!
