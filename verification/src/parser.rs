//! The streaming state machine: a set of admissible section descriptors
//! is attempted against the buffered input; a successful attempt consumes
//! the matched prefix, drives the builders and the live game state, and
//! replaces the set. An attempt whose match reaches the end of the buffer
//! is not committed: the last token might still grow when more input
//! arrives.

use vstd::prelude::*;
use vstd::string::*;

use crate::builders::{GameBuilder, PlayBuilder};
use crate::content::{Game, Movement, Play, Player, PlayerV, player_views, play_views, PlayContentV, PlayV};
use crate::grammar::{count_spaces, extract_range, is_name_char, is_space, lemma_run_len, lit_at, match_lit, run_len, str_to_chars};
use crate::content::mviews;
use crate::livestate::{all_ok, apply_all, spec_simplify, violation_report, LiveGameState, RunnerPositions};
use crate::ontology::{Base, Inning, Position, TopBottom};
use crate::play_type::PlayType;
use crate::tokens::{
    match_base_name, match_base_tag, match_date, match_fielder_name, match_game, match_inning,
    match_move_name, match_play, match_player, match_tagged_name, match_team,
    match_venue, match_weather, spec_base_name_match, spec_base_tag_match, spec_consumed,
    spec_date_match, spec_fielder_name_match, spec_game_match, spec_inning_match,
    spec_move_name_match, spec_play_match, spec_player_match, spec_tagged_name_match,
    spec_team_match, spec_venue_match, spec_weather_match,
};

verus! {

/// Where the walker stands inside the context section.
#[derive(Debug, Clone, Copy, PartialEq, Eq, Hash, Structural)]
pub enum ContextSection {
    Game,
    Date,
    Venue,
    Weather,
}

/// Where the walker stands inside a team block.
#[derive(Debug, Clone, Copy, PartialEq, Eq, Hash, Structural)]
pub enum TeamSection {
    Team,
    Player,
}

/// Where the walker stands inside a fielders list.
#[derive(Debug, Clone, Copy, PartialEq, Eq, Hash, Structural)]
pub enum FieldersSection {
    Tag,
    Name,
    CommaSpace,
}

/// Where the walker stands inside a movements list.
#[derive(Debug, Clone, Copy, PartialEq, Eq, Hash, Structural)]
pub enum MovementsSection {
    Tag,
    Name,
    StartBase,
    Arrow,
    EndBase,
    Out,
    CommaSpace,
    MovementEnd,
}

/// Where the walker stands inside the plays section.
#[derive(Debug, Clone, Copy, PartialEq, Eq, Hash, Structural)]
pub enum PlaySection {
    GameStart,
    Inning,
    Play,
    Base,
    Batter,
    Pitcher,
    Catcher,
    Fielders(FieldersSection),
    Runner,
    ScoringRunner,
    Movements(MovementsSection),
    PlayEnd,
    GameEnd,
}

/// An admissible section descriptor.
#[derive(Debug, Clone, Copy, PartialEq, Eq, Hash, Structural)]
pub enum GameSection {
    Context(ContextSection),
    HomeTeam(TeamSection),
    AwayTeam(TeamSection),
    Plays(PlaySection),
}

/// A fatal parse error: a semantic violation reported by the live game
/// state, or a play finalized with a required field unset.
#[derive(Debug)]
pub enum ParseError {
    SemanticViolation { inning: Inning, message: String },
    MissingField,
}

/// The streaming transcript parser.
pub struct Parser {
    pub input_buffer: Vec<char>,
    pub possible_sections: Vec<GameSection>,
    pub game_builder: GameBuilder,
    pub finished: bool,
    pub print_debug: bool,
    pub live_game_state: LiveGameState,
    pub pinch_runners: Vec<String>,
}

/// A small rank on the admissible set for the progress measure: the two
/// descriptors that can succeed without consuming input, the movement
/// name and the silent movement end, each hand over to descriptors of
/// lower rank.
pub open spec fn sections_rank(ss: Seq<GameSection>) -> int {
    if ss.contains(GameSection::Plays(PlaySection::Movements(MovementsSection::Name))) {
        2
    } else if ss.contains(GameSection::Plays(PlaySection::Movements(MovementsSection::MovementEnd))) {
        1
    } else {
        0
    }
}



/// The full effect of one attempt at the `[GAME]` line.
pub open spec fn spec_game_line_step(pre: Parser, post: Parser, progress: bool) -> bool {
    &&& (progress ==> post.input_buffer@.len() < pre.input_buffer@.len())
    &&& (frame_core(pre, post))
    &&& (gb_same_but_game_pk(pre.game_builder, post.game_builder))
    &&& (match spec_game_match(pre.input_buffer@) {
                Some((end, pk)) => {
                    &&& post.game_builder.game_pk == Some(pk)
                    &&& if end < pre.input_buffer@.len() {
                        &&& progress
                        &&& post.input_buffer@ == spec_consumed(
                            pre.input_buffer@,
                            end,
                        )
                        &&& post.possible_sections@ == seq![
                            GameSection::Context(ContextSection::Date),
                        ]
                    } else {
                        &&& !progress
                        &&& post.input_buffer == pre.input_buffer
                        &&& post.possible_sections == pre.possible_sections
                    }
                },
                None => !progress && post == pre,
            })
}

/// The full effect of one attempt at the `[DATE]` line.
pub open spec fn spec_date_line_step(pre: Parser, post: Parser, progress: bool) -> bool {
    &&& (progress ==> post.input_buffer@.len() < pre.input_buffer@.len())
    &&& (frame_core(pre, post))
    &&& (gb_same_but_date(pre.game_builder, post.game_builder))
    &&& (match spec_date_match(pre.input_buffer@) {
                Some((end, d)) => {
                    &&& post.game_builder.date matches Some(x) && x@ == d
                    &&& if end < pre.input_buffer@.len() {
                        &&& progress
                        &&& post.input_buffer@ == spec_consumed(
                            pre.input_buffer@,
                            end,
                        )
                        &&& post.possible_sections@ == seq![
                            GameSection::Context(ContextSection::Venue),
                        ]
                    } else {
                        &&& !progress
                        &&& post.input_buffer == pre.input_buffer
                        &&& post.possible_sections == pre.possible_sections
                    }
                },
                None => !progress && post == pre,
            })
}

/// The full effect of one attempt at the `[VENUE]` line.
pub open spec fn spec_venue_line_step(pre: Parser, post: Parser, progress: bool) -> bool {
    &&& (progress ==> post.input_buffer@.len() < pre.input_buffer@.len())
    &&& (frame_core(pre, post))
    &&& (gb_same_but_venue(pre.game_builder, post.game_builder))
    &&& (match spec_venue_match(pre.input_buffer@) {
                Some((end, v)) => {
                    &&& post.game_builder.venue matches Some(x) && x@ == v
                    &&& if end < pre.input_buffer@.len() {
                        &&& progress
                        &&& post.input_buffer@ == spec_consumed(
                            pre.input_buffer@,
                            end,
                        )
                        &&& post.possible_sections@ == seq![
                            GameSection::Context(ContextSection::Weather),
                        ]
                    } else {
                        &&& !progress
                        &&& post.input_buffer == pre.input_buffer
                        &&& post.possible_sections == pre.possible_sections
                    }
                },
                None => !progress && post == pre,
            })
}

/// The full effect of one attempt at the `[WEATHER]` line.
pub open spec fn spec_weather_line_step(pre: Parser, post: Parser, progress: bool) -> bool {
    &&& (progress ==> post.input_buffer@.len() < pre.input_buffer@.len())
    &&& (frame_core(pre, post))
    &&& (gb_same_but_weather(pre.game_builder, post.game_builder))
    &&& (match spec_weather_match(pre.input_buffer@) {
                Some((end, c, t, w)) => {
                    &&& post.game_builder.weather_condition matches Some(x) && x@ == c
                    &&& post.game_builder.weather_temperature == Some(t)
                    &&& post.game_builder.weather_wind_speed == Some(w)
                    &&& if end < pre.input_buffer@.len() {
                        &&& progress
                        &&& post.input_buffer@ == spec_consumed(
                            pre.input_buffer@,
                            end,
                        )
                        &&& post.possible_sections@ == seq![
                            GameSection::HomeTeam(TeamSection::Team),
                        ]
                    } else {
                        &&& !progress
                        &&& post.input_buffer == pre.input_buffer
                        &&& post.possible_sections == pre.possible_sections
                    }
                },
                None => !progress && post == pre,
            })
}

/// The full effect of one attempt at a `[TEAM]` line for the given side.
pub open spec fn spec_team_line_step(pre: Parser, post: Parser, progress: bool, home_team: bool) -> bool {
    &&& (progress ==> post.input_buffer@.len() < pre.input_buffer@.len())
    &&& (frame_core(pre, post))
    &&& (home_team ==> gb_same_but_home_team_id(pre.game_builder, post.game_builder))
    &&& (!home_team ==> gb_same_but_away_team_id(
                pre.game_builder,
                post.game_builder,
            ))
    &&& (match spec_team_match(pre.input_buffer@) {
                Some((end, v)) => {
                    &&& (if home_team {
                        post.game_builder.home_team_id == Some(v)
                    } else {
                        post.game_builder.away_team_id == Some(v)
                    })
                    &&& if end < pre.input_buffer@.len() {
                        &&& progress
                        &&& post.input_buffer@ == spec_consumed(
                            pre.input_buffer@,
                            end,
                        )
                        &&& post.possible_sections@ == (if home_team {
                            seq![GameSection::HomeTeam(TeamSection::Player)]
                        } else {
                            seq![GameSection::AwayTeam(TeamSection::Player)]
                        })
                    } else {
                        &&& !progress
                        &&& post.input_buffer == pre.input_buffer
                        &&& post.possible_sections == pre.possible_sections
                    }
                },
                None => !progress && post == pre,
            })
}

/// The full effect of one attempt at a roster line for the given side.
pub open spec fn spec_roster_line_step(pre: Parser, post: Parser, progress: bool, home_team: bool) -> bool {
    &&& (progress ==> post.input_buffer@.len() < pre.input_buffer@.len())
    &&& (post.finished == pre.finished)
    &&& (post.print_debug == pre.print_debug)
    &&& (post.live_game_state == pre.live_game_state)
    &&& (match spec_player_match(pre.input_buffer@) {
                Some((end, p, n)) => {
                    &&& (if p == Position::PinchRunner {
                        post.pinch_runners.deep_view() == pre.pinch_runners.deep_view().push(n)
                    } else {
                        post.pinch_runners == pre.pinch_runners
                    })
                    &&& if end < pre.input_buffer@.len() {
                        &&& progress
                        &&& post.input_buffer@ == spec_consumed(
                            pre.input_buffer@,
                            end,
                        )
                        &&& (if home_team {
                            &&& gb_same_but_home_team_players(
                                pre.game_builder,
                                post.game_builder,
                            )
                            &&& player_views(post.game_builder.home_team_players@)
                                == player_views(pre.game_builder.home_team_players@).push(
                                PlayerV { position: p, name: n },
                            )
                            &&& post.possible_sections@ == seq![
                                GameSection::HomeTeam(TeamSection::Player),
                                GameSection::AwayTeam(TeamSection::Team),
                            ]
                        } else {
                            &&& gb_same_but_away_team_players(
                                pre.game_builder,
                                post.game_builder,
                            )
                            &&& player_views(post.game_builder.away_team_players@)
                                == player_views(pre.game_builder.away_team_players@).push(
                                PlayerV { position: p, name: n },
                            )
                            &&& post.possible_sections@ == seq![
                                GameSection::AwayTeam(TeamSection::Player),
                                GameSection::Plays(PlaySection::GameStart),
                            ]
                        })
                    } else {
                        &&& !progress
                        &&& post.input_buffer == pre.input_buffer
                        &&& post.possible_sections == pre.possible_sections
                        &&& post.game_builder == pre.game_builder
                    }
                },
                None => !progress && post == pre,
            })
}

/// Whether attempting `s` against the parser's buffered input would
/// consume: its primitive matches a proper prefix (so there is at least
/// one character of lookahead, except for the literal markers, which
/// commit at the buffer edge), and, for a play sub-section, the play
/// type is known. The silent movement end always advances.
pub open spec fn spec_section_consumes(p: Parser, s: GameSection) -> bool {
    let buf = p.input_buffer@;
    let typed = p.game_builder.play_builder.play_type is Some;
    match s {
        GameSection::Context(ContextSection::Game) => spec_game_match(buf) matches Some((end, _))
            && end < buf.len(),
        GameSection::Context(ContextSection::Date) => spec_date_match(buf) matches Some((end, _))
            && end < buf.len(),
        GameSection::Context(ContextSection::Venue) => spec_venue_match(buf) matches Some((end, _))
            && end < buf.len(),
        GameSection::Context(ContextSection::Weather) => spec_weather_match(buf) matches Some(
            (end, _, _, _),
        ) && end < buf.len(),
        GameSection::HomeTeam(TeamSection::Team) => spec_team_match(buf) matches Some((end, _))
            && end < buf.len(),
        GameSection::HomeTeam(TeamSection::Player) => spec_player_match(buf) matches Some(
            (end, _, _),
        ) && end < buf.len(),
        GameSection::AwayTeam(TeamSection::Team) => spec_team_match(buf) matches Some((end, _))
            && end < buf.len(),
        GameSection::AwayTeam(TeamSection::Player) => spec_player_match(buf) matches Some(
            (end, _, _),
        ) && end < buf.len(),
        GameSection::Plays(PlaySection::GameStart) => lit_at(buf, 0, "[GAME_START]"@),
        GameSection::Plays(PlaySection::Inning) => spec_inning_match(buf) matches Some(
            (end, _, _),
        ) && end < buf.len(),
        GameSection::Plays(PlaySection::Play) => spec_play_match(buf) matches Some((end, _)) && end
            < buf.len(),
        GameSection::Plays(PlaySection::Base) => typed && (spec_base_tag_match(buf) matches Some(
            (end, _),
        ) && end < buf.len()),
        GameSection::Plays(PlaySection::Batter) => typed && (spec_tagged_name_match(
            buf,
            "[BATTER] "@,
        ) matches Some((end, _)) && end < buf.len()),
        GameSection::Plays(PlaySection::Pitcher) => typed && (spec_tagged_name_match(
            buf,
            "[PITCHER] "@,
        ) matches Some((end, _)) && end < buf.len()),
        GameSection::Plays(PlaySection::Catcher) => typed && (spec_tagged_name_match(
            buf,
            "[CATCHER] "@,
        ) matches Some((end, _)) && end < buf.len()),
        GameSection::Plays(PlaySection::Fielders(FieldersSection::Tag)) => lit_at(
            buf,
            0,
            "[FIELDERS]"@,
        ),
        GameSection::Plays(PlaySection::Fielders(FieldersSection::Name)) => typed && (
        spec_fielder_name_match(buf) matches Some((end, _)) && end < buf.len()),
        GameSection::Plays(PlaySection::Fielders(FieldersSection::CommaSpace)) => lit_at(
            buf,
            0,
            ", "@,
        ),
        GameSection::Plays(PlaySection::Runner) => typed && (spec_tagged_name_match(
            buf,
            "[RUNNER] "@,
        ) matches Some((end, _)) && end < buf.len()),
        GameSection::Plays(PlaySection::ScoringRunner) => spec_tagged_name_match(
            buf,
            "[SCORING_RUNNER] "@,
        ) matches Some((end, _)) && end < buf.len(),
        GameSection::Plays(PlaySection::Movements(MovementsSection::Tag)) => lit_at(
            buf,
            0,
            "[MOVEMENTS]"@,
        ),
        GameSection::Plays(PlaySection::Movements(MovementsSection::Name)) => spec_move_name_match(
            buf,
        ) matches Some((end, _)) && end < buf.len(),
        GameSection::Plays(PlaySection::Movements(MovementsSection::StartBase)) => spec_base_name_match(
            buf,
            0,
        ) matches Some((end, _)) && end < buf.len(),
        GameSection::Plays(PlaySection::Movements(MovementsSection::Arrow)) => lit_at(
            buf,
            0,
            "->"@,
        ),
        GameSection::Plays(PlaySection::Movements(MovementsSection::EndBase)) => spec_base_name_match(
            buf,
            0,
        ) matches Some((end, _)) && end < buf.len(),
        GameSection::Plays(PlaySection::Movements(MovementsSection::Out)) => lit_at(
            buf,
            0,
            "[out]"@,
        ) && buf.len() > "[out]"@.len(),
        GameSection::Plays(PlaySection::Movements(MovementsSection::CommaSpace)) => lit_at(
            buf,
            0,
            ", "@,
        ),
        GameSection::Plays(PlaySection::Movements(MovementsSection::MovementEnd)) => true,
        GameSection::Plays(PlaySection::PlayEnd) => lit_at(buf, 0, ";"@),
        GameSection::Plays(PlaySection::GameEnd) => lit_at(buf, 0, "[GAME_END]"@),
    }
}

/// A buffer that begins with the `[PLAY] ` tag matches none of the
/// play-type-dependent sub-section primitives, so learning the play type
/// from it cannot enable them.
proof fn lemma_play_tag_excludes(buf: Seq<char>)
    requires
        lit_at(buf, 0, "[PLAY] "@),
    ensures
        spec_base_tag_match(buf) is None,
        spec_tagged_name_match(buf, "[BATTER] "@) is None,
        spec_tagged_name_match(buf, "[PITCHER] "@) is None,
        spec_tagged_name_match(buf, "[CATCHER] "@) is None,
        spec_tagged_name_match(buf, "[RUNNER] "@) is None,
        spec_fielder_name_match(buf) is None,
{
    reveal_strlit("[PLAY] ");
    reveal_strlit("[BASE] ");
    reveal_strlit("[BATTER] ");
    reveal_strlit("[PITCHER] ");
    reveal_strlit("[CATCHER] ");
    reveal_strlit("[RUNNER] ");
    assert("[PLAY] "@.len() == 7);
    assert("[PLAY] "@[0] == '[');
    assert("[PLAY] "@[1] == 'P');
    assert("[PLAY] "@[2] == 'L');
    assert("[BASE] "@[1] == 'B');
    assert("[BATTER] "@[1] == 'B');
    assert("[PITCHER] "@[1] == 'P');
    assert("[PITCHER] "@[2] == 'I');
    assert("[CATCHER] "@[1] == 'C');
    assert("[RUNNER] "@[1] == 'R');
    assert(buf[0] == '[');
    assert(buf[1] == 'P');
    assert(buf[2] == 'L');
    assert(!is_name_char('['));
    assert(run_len(buf, 0, |c: char| is_name_char(c)) == 0);
}

/// Consumption looks only at the buffer and at whether the play type is
/// known, and the one step that can newly learn the play type does so
/// from a buffer beginning with the `[PLAY] ` tag, which no dependent
/// primitive matches: a no-progress verdict therefore survives the step.
proof fn lemma_consumes_after(a: Parser, b: Parser, s: GameSection)
    requires
        a.input_buffer == b.input_buffer,
        !spec_section_consumes(a, s),
        (b.game_builder.play_builder.play_type is Some == a.game_builder.play_builder.play_type
            is Some) || lit_at(b.input_buffer@, 0, "[PLAY] "@),
    ensures
        !spec_section_consumes(b, s),
{
    if !(b.game_builder.play_builder.play_type is Some
        == a.game_builder.play_builder.play_type is Some) {
        lemma_play_tag_excludes(b.input_buffer@);
    }
}

/// A chunk with its leading newlines removed, as the ingest step strips
/// them.
pub open spec fn strip_newlines(s: Seq<char>) -> Seq<char> {
    s.subrange(run_len(s, 0, |c: char| c == '\n'), s.len() as int)
}

/// The fields of the parser that a purely syntactic step never touches.
pub open spec fn frame_core(a: Parser, b: Parser) -> bool {
    &&& b.finished == a.finished
    &&& b.print_debug == a.print_debug
    &&& b.pinch_runners == a.pinch_runners
    &&& b.live_game_state == a.live_game_state
}

/// The two builders agree on every field but `game_pk`.
pub open spec fn gb_same_but_game_pk(a: GameBuilder, b: GameBuilder) -> bool {
    &&& b.date == a.date
    &&& b.venue == a.venue
    &&& b.weather_condition == a.weather_condition
    &&& b.weather_temperature == a.weather_temperature
    &&& b.weather_wind_speed == a.weather_wind_speed
    &&& b.home_team_id == a.home_team_id
    &&& b.home_team_players == a.home_team_players
    &&& b.away_team_id == a.away_team_id
    &&& b.away_team_players == a.away_team_players
    &&& b.play_builder == a.play_builder
    &&& b.plays == a.plays
}

/// The two builders agree on every field but `date`.
pub open spec fn gb_same_but_date(a: GameBuilder, b: GameBuilder) -> bool {
    &&& b.game_pk == a.game_pk
    &&& b.venue == a.venue
    &&& b.weather_condition == a.weather_condition
    &&& b.weather_temperature == a.weather_temperature
    &&& b.weather_wind_speed == a.weather_wind_speed
    &&& b.home_team_id == a.home_team_id
    &&& b.home_team_players == a.home_team_players
    &&& b.away_team_id == a.away_team_id
    &&& b.away_team_players == a.away_team_players
    &&& b.play_builder == a.play_builder
    &&& b.plays == a.plays
}

/// The two builders agree on every field but `venue`.
pub open spec fn gb_same_but_venue(a: GameBuilder, b: GameBuilder) -> bool {
    &&& b.game_pk == a.game_pk
    &&& b.date == a.date
    &&& b.weather_condition == a.weather_condition
    &&& b.weather_temperature == a.weather_temperature
    &&& b.weather_wind_speed == a.weather_wind_speed
    &&& b.home_team_id == a.home_team_id
    &&& b.home_team_players == a.home_team_players
    &&& b.away_team_id == a.away_team_id
    &&& b.away_team_players == a.away_team_players
    &&& b.play_builder == a.play_builder
    &&& b.plays == a.plays
}

/// The two builders agree on every field but `home_team_id`.
pub open spec fn gb_same_but_home_team_id(a: GameBuilder, b: GameBuilder) -> bool {
    &&& b.game_pk == a.game_pk
    &&& b.date == a.date
    &&& b.venue == a.venue
    &&& b.weather_condition == a.weather_condition
    &&& b.weather_temperature == a.weather_temperature
    &&& b.weather_wind_speed == a.weather_wind_speed
    &&& b.home_team_players == a.home_team_players
    &&& b.away_team_id == a.away_team_id
    &&& b.away_team_players == a.away_team_players
    &&& b.play_builder == a.play_builder
    &&& b.plays == a.plays
}

/// The two builders agree on every field but `away_team_id`.
pub open spec fn gb_same_but_away_team_id(a: GameBuilder, b: GameBuilder) -> bool {
    &&& b.game_pk == a.game_pk
    &&& b.date == a.date
    &&& b.venue == a.venue
    &&& b.weather_condition == a.weather_condition
    &&& b.weather_temperature == a.weather_temperature
    &&& b.weather_wind_speed == a.weather_wind_speed
    &&& b.home_team_id == a.home_team_id
    &&& b.home_team_players == a.home_team_players
    &&& b.away_team_players == a.away_team_players
    &&& b.play_builder == a.play_builder
    &&& b.plays == a.plays
}

/// The two builders agree on every field but `play_builder`.
pub open spec fn gb_same_but_play_builder(a: GameBuilder, b: GameBuilder) -> bool {
    &&& b.game_pk == a.game_pk
    &&& b.date == a.date
    &&& b.venue == a.venue
    &&& b.weather_condition == a.weather_condition
    &&& b.weather_temperature == a.weather_temperature
    &&& b.weather_wind_speed == a.weather_wind_speed
    &&& b.home_team_id == a.home_team_id
    &&& b.home_team_players == a.home_team_players
    &&& b.away_team_id == a.away_team_id
    &&& b.away_team_players == a.away_team_players
    &&& b.plays == a.plays
}

/// The two builders agree on every field but `weather_condition`, `weather_temperature`, `weather_wind_speed`.
pub open spec fn gb_same_but_weather(a: GameBuilder, b: GameBuilder) -> bool {
    &&& b.game_pk == a.game_pk
    &&& b.date == a.date
    &&& b.venue == a.venue
    &&& b.home_team_id == a.home_team_id
    &&& b.home_team_players == a.home_team_players
    &&& b.away_team_id == a.away_team_id
    &&& b.away_team_players == a.away_team_players
    &&& b.play_builder == a.play_builder
    &&& b.plays == a.plays
}

/// The two builders agree on every field but `home_team_players`.
pub open spec fn gb_same_but_home_team_players(a: GameBuilder, b: GameBuilder) -> bool {
    &&& b.game_pk == a.game_pk
    &&& b.date == a.date
    &&& b.venue == a.venue
    &&& b.weather_condition == a.weather_condition
    &&& b.weather_temperature == a.weather_temperature
    &&& b.weather_wind_speed == a.weather_wind_speed
    &&& b.home_team_id == a.home_team_id
    &&& b.away_team_id == a.away_team_id
    &&& b.away_team_players == a.away_team_players
    &&& b.play_builder == a.play_builder
    &&& b.plays == a.plays
}

/// The two builders agree on every field but `away_team_players`.
pub open spec fn gb_same_but_away_team_players(a: GameBuilder, b: GameBuilder) -> bool {
    &&& b.game_pk == a.game_pk
    &&& b.date == a.date
    &&& b.venue == a.venue
    &&& b.weather_condition == a.weather_condition
    &&& b.weather_temperature == a.weather_temperature
    &&& b.weather_wind_speed == a.weather_wind_speed
    &&& b.home_team_id == a.home_team_id
    &&& b.home_team_players == a.home_team_players
    &&& b.away_team_id == a.away_team_id
    &&& b.play_builder == a.play_builder
    &&& b.plays == a.plays
}

/// The two builders agree on every field but `plays`, `play_builder`.
pub open spec fn gb_same_but_plays_and_play_builder(a: GameBuilder, b: GameBuilder) -> bool {
    &&& b.game_pk == a.game_pk
    &&& b.date == a.date
    &&& b.venue == a.venue
    &&& b.weather_condition == a.weather_condition
    &&& b.weather_temperature == a.weather_temperature
    &&& b.weather_wind_speed == a.weather_wind_speed
    &&& b.home_team_id == a.home_team_id
    &&& b.home_team_players == a.home_team_players
    &&& b.away_team_id == a.away_team_id
    &&& b.away_team_players == a.away_team_players
}

/// The two builders agree on every field but `inning`.
pub open spec fn pb_same_but_inning(a: PlayBuilder, b: PlayBuilder) -> bool {
    &&& b.play_type == a.play_type
    &&& b.base == a.base
    &&& b.batter == a.batter
    &&& b.pitcher == a.pitcher
    &&& b.catcher == a.catcher
    &&& b.fielders == a.fielders
    &&& b.runner == a.runner
    &&& b.scoring_runner == a.scoring_runner
    &&& b.movement_builder == a.movement_builder
    &&& b.movements == a.movements
}

/// The two builders agree on every field but `play_type`.
pub open spec fn pb_same_but_play_type(a: PlayBuilder, b: PlayBuilder) -> bool {
    &&& b.inning == a.inning
    &&& b.base == a.base
    &&& b.batter == a.batter
    &&& b.pitcher == a.pitcher
    &&& b.catcher == a.catcher
    &&& b.fielders == a.fielders
    &&& b.runner == a.runner
    &&& b.scoring_runner == a.scoring_runner
    &&& b.movement_builder == a.movement_builder
    &&& b.movements == a.movements
}

/// The two builders agree on every field but `base`.
pub open spec fn pb_same_but_base(a: PlayBuilder, b: PlayBuilder) -> bool {
    &&& b.inning == a.inning
    &&& b.play_type == a.play_type
    &&& b.batter == a.batter
    &&& b.pitcher == a.pitcher
    &&& b.catcher == a.catcher
    &&& b.fielders == a.fielders
    &&& b.runner == a.runner
    &&& b.scoring_runner == a.scoring_runner
    &&& b.movement_builder == a.movement_builder
    &&& b.movements == a.movements
}

/// The two builders agree on every field but `batter`.
pub open spec fn pb_same_but_batter(a: PlayBuilder, b: PlayBuilder) -> bool {
    &&& b.inning == a.inning
    &&& b.play_type == a.play_type
    &&& b.base == a.base
    &&& b.pitcher == a.pitcher
    &&& b.catcher == a.catcher
    &&& b.fielders == a.fielders
    &&& b.runner == a.runner
    &&& b.scoring_runner == a.scoring_runner
    &&& b.movement_builder == a.movement_builder
    &&& b.movements == a.movements
}

/// The two builders agree on every field but `pitcher`.
pub open spec fn pb_same_but_pitcher(a: PlayBuilder, b: PlayBuilder) -> bool {
    &&& b.inning == a.inning
    &&& b.play_type == a.play_type
    &&& b.base == a.base
    &&& b.batter == a.batter
    &&& b.catcher == a.catcher
    &&& b.fielders == a.fielders
    &&& b.runner == a.runner
    &&& b.scoring_runner == a.scoring_runner
    &&& b.movement_builder == a.movement_builder
    &&& b.movements == a.movements
}

/// The two builders agree on every field but `catcher`.
pub open spec fn pb_same_but_catcher(a: PlayBuilder, b: PlayBuilder) -> bool {
    &&& b.inning == a.inning
    &&& b.play_type == a.play_type
    &&& b.base == a.base
    &&& b.batter == a.batter
    &&& b.pitcher == a.pitcher
    &&& b.fielders == a.fielders
    &&& b.runner == a.runner
    &&& b.scoring_runner == a.scoring_runner
    &&& b.movement_builder == a.movement_builder
    &&& b.movements == a.movements
}

/// The two builders agree on every field but `fielders`.
pub open spec fn pb_same_but_fielders(a: PlayBuilder, b: PlayBuilder) -> bool {
    &&& b.inning == a.inning
    &&& b.play_type == a.play_type
    &&& b.base == a.base
    &&& b.batter == a.batter
    &&& b.pitcher == a.pitcher
    &&& b.catcher == a.catcher
    &&& b.runner == a.runner
    &&& b.scoring_runner == a.scoring_runner
    &&& b.movement_builder == a.movement_builder
    &&& b.movements == a.movements
}

/// The two builders agree on every field but `runner`.
pub open spec fn pb_same_but_runner(a: PlayBuilder, b: PlayBuilder) -> bool {
    &&& b.inning == a.inning
    &&& b.play_type == a.play_type
    &&& b.base == a.base
    &&& b.batter == a.batter
    &&& b.pitcher == a.pitcher
    &&& b.catcher == a.catcher
    &&& b.fielders == a.fielders
    &&& b.scoring_runner == a.scoring_runner
    &&& b.movement_builder == a.movement_builder
    &&& b.movements == a.movements
}

/// The two builders agree on every field but `scoring_runner`.
pub open spec fn pb_same_but_scoring_runner(a: PlayBuilder, b: PlayBuilder) -> bool {
    &&& b.inning == a.inning
    &&& b.play_type == a.play_type
    &&& b.base == a.base
    &&& b.batter == a.batter
    &&& b.pitcher == a.pitcher
    &&& b.catcher == a.catcher
    &&& b.fielders == a.fielders
    &&& b.runner == a.runner
    &&& b.movement_builder == a.movement_builder
    &&& b.movements == a.movements
}

/// The two builders agree on every field but `movement_builder`.
pub open spec fn pb_same_but_movement_builder(a: PlayBuilder, b: PlayBuilder) -> bool {
    &&& b.inning == a.inning
    &&& b.play_type == a.play_type
    &&& b.base == a.base
    &&& b.batter == a.batter
    &&& b.pitcher == a.pitcher
    &&& b.catcher == a.catcher
    &&& b.fielders == a.fielders
    &&& b.runner == a.runner
    &&& b.scoring_runner == a.scoring_runner
    &&& b.movements == a.movements
}

/// The two builders agree on every field but `movements`, `movement_builder`.
pub open spec fn pb_same_but_movements_and_movement_builder(a: PlayBuilder, b: PlayBuilder) -> bool {
    &&& b.inning == a.inning
    &&& b.play_type == a.play_type
    &&& b.base == a.base
    &&& b.batter == a.batter
    &&& b.pitcher == a.pitcher
    &&& b.catcher == a.catcher
    &&& b.fielders == a.fielders
    &&& b.runner == a.runner
    &&& b.scoring_runner == a.scoring_runner
}

/// Whether a play of type `t` requires the sub-section at `stage`:
/// base, batter, pitcher, catcher, fielders, runner, scoring runner, in
/// that order.
pub open spec fn stage_required(t: PlayType, k: int) -> bool {
    if k == 0 {
        t.spec_requires_base()
    } else if k == 1 {
        t.spec_requires_batter()
    } else if k == 2 {
        t.spec_requires_pitcher()
    } else if k == 3 {
        t.spec_requires_catcher()
    } else if k == 4 {
        t.spec_requires_fielders()
    } else if k == 5 {
        t.spec_requires_runner()
    } else if k == 6 {
        t.spec_requires_scoring_runner()
    } else {
        false
    }
}

/// The section descriptor of the sub-section at `stage`.
pub open spec fn section_of_stage(k: int) -> GameSection {
    if k == 0 {
        GameSection::Plays(PlaySection::Base)
    } else if k == 1 {
        GameSection::Plays(PlaySection::Batter)
    } else if k == 2 {
        GameSection::Plays(PlaySection::Pitcher)
    } else if k == 3 {
        GameSection::Plays(PlaySection::Catcher)
    } else if k == 4 {
        GameSection::Plays(PlaySection::Fielders(FieldersSection::Tag))
    } else if k == 5 {
        GameSection::Plays(PlaySection::Runner)
    } else {
        GameSection::Plays(PlaySection::ScoringRunner)
    }
}

/// The first sub-section at or after `stage` that `t` requires, or the
/// movements tag when none is left.
pub open spec fn spec_first_from(t: PlayType, k: int) -> GameSection
    decreases 7 - k,
{
    if k >= 7 {
        GameSection::Plays(PlaySection::Movements(MovementsSection::Tag))
    } else if stage_required(t, k) {
        section_of_stage(k)
    } else {
        spec_first_from(t, k + 1)
    }
}

/// The first sub-section at or after `stage` that `t` requires, as
/// executable code.
pub fn first_from(t: &PlayType, stage: u8) -> (r: GameSection)
    requires
        stage <= 7,
    ensures
        r == spec_first_from(*t, stage as int),
    decreases 7 - stage,
{
    if stage >= 7 {
        return GameSection::Plays(PlaySection::Movements(MovementsSection::Tag));
    }
    let req = if stage == 0 {
        t.requires_base()
    } else if stage == 1 {
        t.requires_batter()
    } else if stage == 2 {
        t.requires_pitcher()
    } else if stage == 3 {
        t.requires_catcher()
    } else if stage == 4 {
        t.requires_fielders()
    } else if stage == 5 {
        t.requires_runner()
    } else {
        t.requires_scoring_runner()
    };
    if req {
        if stage == 0 {
            GameSection::Plays(PlaySection::Base)
        } else if stage == 1 {
            GameSection::Plays(PlaySection::Batter)
        } else if stage == 2 {
            GameSection::Plays(PlaySection::Pitcher)
        } else if stage == 3 {
            GameSection::Plays(PlaySection::Catcher)
        } else if stage == 4 {
            GameSection::Plays(PlaySection::Fielders(FieldersSection::Tag))
        } else if stage == 5 {
            GameSection::Plays(PlaySection::Runner)
        } else {
            GameSection::Plays(PlaySection::ScoringRunner)
        }
    } else {
        first_from(t, stage + 1)
    }
}

/// A one-element section set.
fn sections1(a: GameSection) -> (r: Vec<GameSection>)
    ensures
        r@ == seq![a],
{
    let mut r: Vec<GameSection> = Vec::new();
    r.push(a);
    assert(r@ =~= seq![a]);
    r
}

/// A two-element section set.
fn sections2(a: GameSection, b: GameSection) -> (r: Vec<GameSection>)
    ensures
        r@ == seq![a, b],
{
    let mut r: Vec<GameSection> = Vec::new();
    r.push(a);
    r.push(b);
    assert(r@ =~= seq![a, b]);
    r
}

/// A three-element section set.
fn sections3(a: GameSection, b: GameSection, c: GameSection) -> (r: Vec<GameSection>)
    ensures
        r@ == seq![a, b, c],
{
    let mut r: Vec<GameSection> = Vec::new();
    r.push(a);
    r.push(b);
    r.push(c);
    assert(r@ =~= seq![a, b, c]);
    r
}

impl Parser {
    /// A parser in its initial state, admitting only the `[GAME]` line.
    pub fn new(print_debug: bool) -> (r: Self)
        ensures
            r.input_buffer@ == Seq::<char>::empty(),
            r.possible_sections@ == seq![GameSection::Context(ContextSection::Game)],
            !r.finished,
            r.print_debug == print_debug,
            r.pinch_runners@ == Seq::<String>::empty(),
            r.game_builder.game_pk is None,
            r.game_builder.date is None,
            r.game_builder.venue is None,
            r.game_builder.weather_condition is None,
            r.game_builder.home_team_id is None,
            r.game_builder.away_team_id is None,
            r.game_builder.home_team_players@ == Seq::<Player>::empty(),
            r.game_builder.away_team_players@ == Seq::<Player>::empty(),
            r.game_builder.weather_temperature is None,
            r.game_builder.weather_wind_speed is None,
            r.game_builder.play_builder.spec_fresh(),
            r.game_builder.plays@ == Seq::<crate::content::Play>::empty(),
            r.live_game_state.runner_positions@.home is None,
            r.live_game_state.runner_positions@.first is None,
            r.live_game_state.runner_positions@.second is None,
            r.live_game_state.runner_positions@.third is None,
            r.live_game_state.inning == (Inning { number: 1, top_bottom: TopBottom::Top }),
            r.live_game_state.home_team_score == 0,
            r.live_game_state.away_team_score == 0,
    {
        Self {
            input_buffer: Vec::new(),
            possible_sections: sections1(GameSection::Context(ContextSection::Game)),
            game_builder: GameBuilder::new(),
            finished: false,
            print_debug,
            live_game_state: LiveGameState::new(),
            pinch_runners: Vec::new(),
        }
    }

    /// Drop the committed prefix of the buffer, then its leading
    /// whitespace.
    fn consume_input(&mut self, index: usize)
        requires
            index <= old(self).input_buffer@.len(),
        ensures
            final(self).input_buffer@ == spec_consumed(old(self).input_buffer@, index as int),
            final(self).input_buffer@.len() <= old(self).input_buffer@.len() - index,
            final(self).possible_sections == old(self).possible_sections,
            final(self).game_builder == old(self).game_builder,
            frame_core(*old(self), *final(self)),
    {
        proof {
            lemma_run_len(self.input_buffer@, index as int, |c: char| is_space(c));
        }
        let sk = count_spaces(&self.input_buffer, index);
        let blen = self.input_buffer.len();
        assert(index + sk <= blen);
        let rest = extract_range(&self.input_buffer, index + sk, blen);
        self.input_buffer = rest;
    }
}


impl Parser {
    /// Attempt the `[GAME]` line: record the game identifier and advance
    /// to the date.
    pub fn parse_context_game(&mut self) -> (progress: bool)
        ensures
        spec_game_line_step(*old(self), *final(self), progress),

    {
        match match_game(&self.input_buffer) {
            Some((end, pk)) => {
                self.game_builder.set_game_pk(pk);
                if end == self.input_buffer.len() {
                    return false;
                }
                self.consume_input(end);
                self.possible_sections = sections1(GameSection::Context(ContextSection::Date));
                true
            },
            None => false,
        }
    }

    /// Attempt the `[DATE]` line: record the date and advance to the
    /// venue.
    pub fn parse_context_date(&mut self) -> (progress: bool)
        ensures
        spec_date_line_step(*old(self), *final(self), progress),

    {
        match match_date(&self.input_buffer) {
            Some((end, d)) => {
                self.game_builder.set_date(d);
                if end == self.input_buffer.len() {
                    return false;
                }
                self.consume_input(end);
                self.possible_sections = sections1(GameSection::Context(ContextSection::Venue));
                true
            },
            None => false,
        }
    }

    /// Attempt the `[VENUE]` line: record the venue and advance to the
    /// weather.
    pub fn parse_context_venue(&mut self) -> (progress: bool)
        ensures
        spec_venue_line_step(*old(self), *final(self), progress),

    {
        match match_venue(&self.input_buffer) {
            Some((end, v)) => {
                self.game_builder.set_venue(v);
                if end == self.input_buffer.len() {
                    return false;
                }
                self.consume_input(end);
                self.possible_sections = sections1(GameSection::Context(ContextSection::Weather));
                true
            },
            None => false,
        }
    }

    /// Attempt the `[WEATHER]` line: record the weather triple and
    /// advance to the home team block.
    pub fn parse_context_weather(&mut self) -> (progress: bool)
        ensures
        spec_weather_line_step(*old(self), *final(self), progress),

    {
        match match_weather(&self.input_buffer) {
            Some((end, c, t, w)) => {
                self.game_builder.set_weather(c, t, w);
                if end == self.input_buffer.len() {
                    return false;
                }
                self.consume_input(end);
                self.possible_sections = sections1(GameSection::HomeTeam(TeamSection::Team));
                true
            },
            None => false,
        }
    }

    /// Attempt a `[TEAM]` line: record the team identifier of the side
    /// being read and advance to its roster.
    pub fn parse_team_team(&mut self, home_team: bool) -> (progress: bool)
        ensures
        spec_team_line_step(*old(self), *final(self), progress, home_team),

    {
        match match_team(&self.input_buffer) {
            Some((end, v)) => {
                if home_team {
                    self.game_builder.set_home_team_id(v);
                } else {
                    self.game_builder.set_away_team_id(v);
                }
                if end == self.input_buffer.len() {
                    return false;
                }
                self.consume_input(end);
                self.possible_sections = if home_team {
                    sections1(GameSection::HomeTeam(TeamSection::Player))
                } else {
                    sections1(GameSection::AwayTeam(TeamSection::Player))
                };
                true
            },
            None => false,
        }
    }

    /// Attempt a roster line: register the player with the side being
    /// read (and with the pinch-runner roster when the position says so),
    /// then admit the next roster line or the following section.
    pub fn parse_team_player(&mut self, home_team: bool) -> (progress: bool)
        ensures
        spec_roster_line_step(*old(self), *final(self), progress, home_team),

    {
        match match_player(&self.input_buffer) {
            Some((end, position, name)) => {
                if matches!(position, Position::PinchRunner) {
                    self.pinch_runners.push(name.clone());
                    assert(self.pinch_runners.deep_view() =~= old(
                        self,
                    ).pinch_runners.deep_view().push(name@));
                }
                if end == self.input_buffer.len() {
                    return false;
                }
                self.consume_input(end);
                let player = Player { position, name };
                if home_team {
                    self.game_builder.add_home_team_player(player);
                    assert(player_views(self.game_builder.home_team_players@) =~= player_views(
                        old(self).game_builder.home_team_players@,
                    ).push(PlayerV { position, name: player@.name }));
                    self.possible_sections = sections2(
                        GameSection::HomeTeam(TeamSection::Player),
                        GameSection::AwayTeam(TeamSection::Team),
                    );
                } else {
                    self.game_builder.add_away_team_player(player);
                    assert(player_views(self.game_builder.away_team_players@) =~= player_views(
                        old(self).game_builder.away_team_players@,
                    ).push(PlayerV { position, name: player@.name }));
                    self.possible_sections = sections2(
                        GameSection::AwayTeam(TeamSection::Player),
                        GameSection::Plays(PlaySection::GameStart),
                    );
                }
                true
            },
            None => false,
        }
    }
}

impl Parser {

    /// Attempt the `[GAME_START]` marker and advance to the first inning.
    pub fn parse_play_game_start(&mut self) -> (progress: bool)
        ensures
            progress ==> final(self).input_buffer@.len() < old(self).input_buffer@.len(),
            frame_core(*old(self), *final(self)),
            final(self).game_builder == old(self).game_builder,
            if lit_at(old(self).input_buffer@, 0, "[GAME_START]"@) {
                &&& progress
                &&& final(self).input_buffer@ == spec_consumed(
                    old(self).input_buffer@,
                    "[GAME_START]"@.len() as int,
                )
                &&& final(self).possible_sections@ == seq![GameSection::Plays(PlaySection::Inning)]
            } else {
                !progress && *final(self) == *old(self)
            },
    {
        proof {
            reveal_strlit("[GAME_START]");
        }
        let lit = str_to_chars("[GAME_START]");
        if match_lit(&self.input_buffer, 0, &lit) {
            self.consume_input(lit.len());
            self.possible_sections = sections1(GameSection::Plays(PlaySection::Inning));
            true
        } else {
            false
        }
    }

    /// Attempt the `[FIELDERS]` tag and advance to the first fielder name.
    pub fn parse_fielders_tag(&mut self) -> (progress: bool)
        ensures
            progress ==> final(self).input_buffer@.len() < old(self).input_buffer@.len(),
            frame_core(*old(self), *final(self)),
            final(self).game_builder == old(self).game_builder,
            if lit_at(old(self).input_buffer@, 0, "[FIELDERS]"@) {
                &&& progress
                &&& final(self).input_buffer@ == spec_consumed(
                    old(self).input_buffer@,
                    "[FIELDERS]"@.len() as int,
                )
                &&& final(self).possible_sections@ == seq![GameSection::Plays(PlaySection::Fielders(FieldersSection::Name))]
            } else {
                !progress && *final(self) == *old(self)
            },
    {
        proof {
            reveal_strlit("[FIELDERS]");
        }
        let lit = str_to_chars("[FIELDERS]");
        if match_lit(&self.input_buffer, 0, &lit) {
            self.consume_input(lit.len());
            self.possible_sections = sections1(GameSection::Plays(PlaySection::Fielders(FieldersSection::Name)));
            true
        } else {
            false
        }
    }

    /// Attempt the comma that continues a fielders list.
    pub fn parse_fielders_comma(&mut self) -> (progress: bool)
        ensures
            progress ==> final(self).input_buffer@.len() < old(self).input_buffer@.len(),
            frame_core(*old(self), *final(self)),
            final(self).game_builder == old(self).game_builder,
            if lit_at(old(self).input_buffer@, 0, ", "@) {
                &&& progress
                &&& final(self).input_buffer@ == spec_consumed(
                    old(self).input_buffer@,
                    ", "@.len() as int,
                )
                &&& final(self).possible_sections@ == seq![GameSection::Plays(PlaySection::Fielders(FieldersSection::Name))]
            } else {
                !progress && *final(self) == *old(self)
            },
    {
        proof {
            reveal_strlit(", ");
        }
        let lit = str_to_chars(", ");
        if match_lit(&self.input_buffer, 0, &lit) {
            self.consume_input(lit.len());
            self.possible_sections = sections1(GameSection::Plays(PlaySection::Fielders(FieldersSection::Name)));
            true
        } else {
            false
        }
    }

    /// Attempt the `[MOVEMENTS]` tag and advance to the first runner name.
    pub fn parse_mov_tag(&mut self) -> (progress: bool)
        ensures
            progress ==> final(self).input_buffer@.len() < old(self).input_buffer@.len(),
            frame_core(*old(self), *final(self)),
            final(self).game_builder == old(self).game_builder,
            if lit_at(old(self).input_buffer@, 0, "[MOVEMENTS]"@) {
                &&& progress
                &&& final(self).input_buffer@ == spec_consumed(
                    old(self).input_buffer@,
                    "[MOVEMENTS]"@.len() as int,
                )
                &&& final(self).possible_sections@ == seq![GameSection::Plays(PlaySection::Movements(MovementsSection::Name))]
            } else {
                !progress && *final(self) == *old(self)
            },
    {
        proof {
            reveal_strlit("[MOVEMENTS]");
        }
        let lit = str_to_chars("[MOVEMENTS]");
        if match_lit(&self.input_buffer, 0, &lit) {
            self.consume_input(lit.len());
            self.possible_sections = sections1(GameSection::Plays(PlaySection::Movements(MovementsSection::Name)));
            true
        } else {
            false
        }
    }

    /// Attempt the arrow between the two bases of a movement.
    pub fn parse_mov_arrow(&mut self) -> (progress: bool)
        ensures
            progress ==> final(self).input_buffer@.len() < old(self).input_buffer@.len(),
            frame_core(*old(self), *final(self)),
            final(self).game_builder == old(self).game_builder,
            if lit_at(old(self).input_buffer@, 0, "->"@) {
                &&& progress
                &&& final(self).input_buffer@ == spec_consumed(
                    old(self).input_buffer@,
                    "->"@.len() as int,
                )
                &&& final(self).possible_sections@ == seq![GameSection::Plays(PlaySection::Movements(MovementsSection::EndBase))]
            } else {
                !progress && *final(self) == *old(self)
            },
    {
        proof {
            reveal_strlit("->");
        }
        let lit = str_to_chars("->");
        if match_lit(&self.input_buffer, 0, &lit) {
            self.consume_input(lit.len());
            self.possible_sections = sections1(GameSection::Plays(PlaySection::Movements(MovementsSection::EndBase)));
            true
        } else {
            false
        }
    }

    /// Attempt the `[INNING]` line: record the inning on the play being
    /// built, reset the base occupancy when the side changes, and advance
    /// to the play type.
    pub fn parse_play_inning(&mut self) -> (progress: bool)
        ensures
            progress ==> final(self).input_buffer@.len() < old(self).input_buffer@.len(),
            final(self).finished == old(self).finished,
            final(self).print_debug == old(self).print_debug,
            final(self).pinch_runners == old(self).pinch_runners,
            gb_same_but_play_builder(old(self).game_builder, final(self).game_builder),
            pb_same_but_inning(
                old(self).game_builder.play_builder,
                final(self).game_builder.play_builder,
            ),
            match spec_inning_match(old(self).input_buffer@) {
                Some((end, n, tb)) => {
                    &&& final(self).game_builder.play_builder.inning == Some(
                        Inning { number: n, top_bottom: tb },
                    )
                    &&& if end < old(self).input_buffer@.len() {
                        &&& progress
                        &&& final(self).input_buffer@ == spec_consumed(
                            old(self).input_buffer@,
                            end,
                        )
                        &&& final(self).possible_sections@ == seq![
                            GameSection::Plays(PlaySection::Play),
                        ]
                        &&& final(self).live_game_state.inning == (Inning {
                            number: n,
                            top_bottom: tb,
                        })
                        &&& (if old(self).live_game_state.inning.top_bottom != tb {
                            &&& final(self).live_game_state.runner_positions@.home is None
                            &&& final(self).live_game_state.runner_positions@.first is None
                            &&& final(self).live_game_state.runner_positions@.second is None
                            &&& final(self).live_game_state.runner_positions@.third is None
                        } else {
                            final(self).live_game_state.runner_positions == old(
                                self,
                            ).live_game_state.runner_positions
                        })
                        &&& final(self).live_game_state.home_team_score == old(
                            self,
                        ).live_game_state.home_team_score
                        &&& final(self).live_game_state.away_team_score == old(
                            self,
                        ).live_game_state.away_team_score
                    } else {
                        &&& !progress
                        &&& final(self).input_buffer == old(self).input_buffer
                        &&& final(self).possible_sections == old(self).possible_sections
                        &&& final(self).live_game_state == old(self).live_game_state
                    }
                },
                None => !progress && *final(self) == *old(self),
            },
    {
        match match_inning(&self.input_buffer) {
            Some((end, n, tb)) => {
                let inning = Inning { number: n, top_bottom: tb };
                self.game_builder.play_builder.set_inning(inning);
                if end == self.input_buffer.len() {
                    return false;
                }
                if !(matches!(self.live_game_state.inning.top_bottom, TopBottom::Top) == matches!(
                    tb,
                    TopBottom::Top,
                )) {
                    self.live_game_state.runner_positions = RunnerPositions::empty();
                }
                self.live_game_state.inning = inning;
                self.consume_input(end);
                self.possible_sections = sections1(GameSection::Plays(PlaySection::Play));
                true
            },
            None => false,
        }
    }

    /// Attempt the `[PLAY]` line: record the play type and advance to
    /// its first required sub-section; a `Game Advisory` play has none
    /// and is finalized at once.
    #[verifier::rlimit(100)]
    pub fn parse_play_play(&mut self) -> (progress: bool)
        ensures
            progress ==> final(self).input_buffer@.len() < old(self).input_buffer@.len(),
            frame_core(*old(self), *final(self)),
            match spec_play_match(old(self).input_buffer@) {
                Some((end, t)) => {
                    if end < old(self).input_buffer@.len() {
                        &&& progress
                        &&& final(self).input_buffer@ == spec_consumed(
                            old(self).input_buffer@,
                            end,
                        )
                        &&& if t == PlayType::GameAdvisory {
                            &&& final(self).possible_sections@ == seq![
                                GameSection::Plays(PlaySection::Inning),
                                GameSection::Plays(PlaySection::GameEnd),
                            ]
                            &&& gb_same_but_plays_and_play_builder(
                                old(self).game_builder,
                                final(self).game_builder,
                            )
                            &&& (if old(self).game_builder.play_builder.inning is Some {
                                &&& play_views(final(self).game_builder.plays@) == play_views(
                                    old(self).game_builder.plays@,
                                ).push(
                                    PlayV {
                                        inning: old(self).game_builder.play_builder.inning->0,
                                        play_content: PlayContentV::GameAdvisory,
                                        movements: mviews(
                                            old(self).game_builder.play_builder.movements@,
                                        ),
                                    },
                                )
                                &&& final(self).game_builder.play_builder.spec_fresh()
                            } else {
                                &&& final(self).game_builder.plays == old(self).game_builder.plays
                                &&& pb_same_but_play_type(
                                    old(self).game_builder.play_builder,
                                    final(self).game_builder.play_builder,
                                )
                                &&& final(self).game_builder.play_builder.play_type == Some(t)
                            })
                        } else {
                            &&& final(self).possible_sections@ == seq![
                                spec_first_from(t, 0),
                            ]
                            &&& gb_same_but_play_builder(
                                old(self).game_builder,
                                final(self).game_builder,
                            )
                            &&& pb_same_but_play_type(
                                old(self).game_builder.play_builder,
                                final(self).game_builder.play_builder,
                            )
                            &&& final(self).game_builder.play_builder.play_type == Some(t)
                        }
                    } else {
                        &&& !progress
                        &&& final(self).input_buffer == old(self).input_buffer
                        &&& final(self).possible_sections == old(self).possible_sections
                        &&& gb_same_but_play_builder(
                            old(self).game_builder,
                            final(self).game_builder,
                        )
                        &&& pb_same_but_play_type(
                            old(self).game_builder.play_builder,
                            final(self).game_builder.play_builder,
                        )
                        &&& final(self).game_builder.play_builder.play_type == Some(t)
                    }
                },
                None => !progress && *final(self) == *old(self),
            },
    {
        match match_play(&self.input_buffer) {
            Some((end, t)) => {
                self.game_builder.play_builder.set_play_type(t);
                if end == self.input_buffer.len() {
                    return false;
                }
                self.consume_input(end);
                if matches!(t, PlayType::GameAdvisory) {
                    let _ = self.game_builder.build_play();
                    self.possible_sections = sections2(
                        GameSection::Plays(PlaySection::Inning),
                        GameSection::Plays(PlaySection::GameEnd),
                    );
                } else {
                    self.possible_sections = sections1(first_from(&t, 0));
                }
                true
            },
            None => false,
        }
    }

    /// Attempt the `[BASE]` line: record the base and advance to the
    /// play type\'s next required sub-section.
    pub fn parse_play_base(&mut self) -> (progress: bool)
        ensures
            progress ==> final(self).input_buffer@.len() < old(self).input_buffer@.len(),
            frame_core(*old(self), *final(self)),
            gb_same_but_play_builder(old(self).game_builder, final(self).game_builder),
            pb_same_but_base(
                old(self).game_builder.play_builder,
                final(self).game_builder.play_builder,
            ),
            old(self).game_builder.play_builder.play_type is None ==> !progress && *final(self)
                == *old(self),
            old(self).game_builder.play_builder.play_type matches Some(t) ==> match spec_base_tag_match(
                old(self).input_buffer@,
            ) {
                Some((end, b)) => {
                    &&& final(self).game_builder.play_builder.base == Some(b)
                    &&& if end < old(self).input_buffer@.len() {
                        &&& progress
                        &&& final(self).input_buffer@ == spec_consumed(
                            old(self).input_buffer@,
                            end,
                        )
                        &&& final(self).possible_sections@ == seq![spec_first_from(t, 1)]
                    } else {
                        &&& !progress
                        &&& final(self).input_buffer == old(self).input_buffer
                        &&& final(self).possible_sections == old(self).possible_sections
                    }
                },
                None => !progress && *final(self) == *old(self),
            },
    {
        let t = match self.game_builder.play_builder.play_type {
            Some(t) => t,
            None => {
                return false;
            },
        };
        match match_base_tag(&self.input_buffer) {
            Some((end, b)) => {
                self.game_builder.play_builder.set_base(b);
                if end == self.input_buffer.len() {
                    return false;
                }
                self.consume_input(end);
                self.possible_sections = sections1(first_from(&t, 1));
                true
            },
            None => false,
        }
    }


    /// Attempt the `[BATTER]` line: record the batter and advance.
    pub fn parse_play_batter(&mut self) -> (progress: bool)
        ensures
            progress ==> final(self).input_buffer@.len() < old(self).input_buffer@.len(),
            frame_core(*old(self), *final(self)),
            gb_same_but_play_builder(old(self).game_builder, final(self).game_builder),
            pb_same_but_batter(
                old(self).game_builder.play_builder,
                final(self).game_builder.play_builder,
            ),
            old(self).game_builder.play_builder.play_type is None ==> !progress && *final(self)
                == *old(self),
            old(self).game_builder.play_builder.play_type matches Some(t) ==> match spec_tagged_name_match(
                old(self).input_buffer@,
                "[BATTER] "@,
            ) {
                Some((end, n)) => {
                    &&& final(self).game_builder.play_builder.batter matches Some(x) && x@ == n
                    &&& if end < old(self).input_buffer@.len() {
                        &&& progress
                        &&& final(self).input_buffer@ == spec_consumed(
                            old(self).input_buffer@,
                            end,
                        )
                        &&& final(self).possible_sections@ == seq![spec_first_from(t, 2)]
                    } else {
                        &&& !progress
                        &&& final(self).input_buffer == old(self).input_buffer
                        &&& final(self).possible_sections == old(self).possible_sections
                    }
                },
                None => !progress && *final(self) == *old(self),
            },
    {
        let t = match self.game_builder.play_builder.play_type {
            Some(t) => t,
            None => {
                return false;
            },
        };
        let tag = str_to_chars("[BATTER] ");
        match match_tagged_name(&self.input_buffer, &tag) {
            Some((end, n)) => {
                self.game_builder.play_builder.set_batter(n);
                if end == self.input_buffer.len() {
                    return false;
                }
                self.consume_input(end);
                self.possible_sections = sections1(first_from(&t, 2));
                true
            },
            None => false,
        }
    }

    /// Attempt the `[PITCHER]` line: record the pitcher and advance.
    pub fn parse_play_pitcher(&mut self) -> (progress: bool)
        ensures
            progress ==> final(self).input_buffer@.len() < old(self).input_buffer@.len(),
            frame_core(*old(self), *final(self)),
            gb_same_but_play_builder(old(self).game_builder, final(self).game_builder),
            pb_same_but_pitcher(
                old(self).game_builder.play_builder,
                final(self).game_builder.play_builder,
            ),
            old(self).game_builder.play_builder.play_type is None ==> !progress && *final(self)
                == *old(self),
            old(self).game_builder.play_builder.play_type matches Some(t) ==> match spec_tagged_name_match(
                old(self).input_buffer@,
                "[PITCHER] "@,
            ) {
                Some((end, n)) => {
                    &&& final(self).game_builder.play_builder.pitcher matches Some(x) && x@ == n
                    &&& if end < old(self).input_buffer@.len() {
                        &&& progress
                        &&& final(self).input_buffer@ == spec_consumed(
                            old(self).input_buffer@,
                            end,
                        )
                        &&& final(self).possible_sections@ == seq![spec_first_from(t, 3)]
                    } else {
                        &&& !progress
                        &&& final(self).input_buffer == old(self).input_buffer
                        &&& final(self).possible_sections == old(self).possible_sections
                    }
                },
                None => !progress && *final(self) == *old(self),
            },
    {
        let t = match self.game_builder.play_builder.play_type {
            Some(t) => t,
            None => {
                return false;
            },
        };
        let tag = str_to_chars("[PITCHER] ");
        match match_tagged_name(&self.input_buffer, &tag) {
            Some((end, n)) => {
                self.game_builder.play_builder.set_pitcher(n);
                if end == self.input_buffer.len() {
                    return false;
                }
                self.consume_input(end);
                self.possible_sections = sections1(first_from(&t, 3));
                true
            },
            None => false,
        }
    }

    /// Attempt the `[CATCHER]` line: record the catcher and advance.
    pub fn parse_play_catcher(&mut self) -> (progress: bool)
        ensures
            progress ==> final(self).input_buffer@.len() < old(self).input_buffer@.len(),
            frame_core(*old(self), *final(self)),
            gb_same_but_play_builder(old(self).game_builder, final(self).game_builder),
            pb_same_but_catcher(
                old(self).game_builder.play_builder,
                final(self).game_builder.play_builder,
            ),
            old(self).game_builder.play_builder.play_type is None ==> !progress && *final(self)
                == *old(self),
            old(self).game_builder.play_builder.play_type matches Some(t) ==> match spec_tagged_name_match(
                old(self).input_buffer@,
                "[CATCHER] "@,
            ) {
                Some((end, n)) => {
                    &&& final(self).game_builder.play_builder.catcher matches Some(x) && x@ == n
                    &&& if end < old(self).input_buffer@.len() {
                        &&& progress
                        &&& final(self).input_buffer@ == spec_consumed(
                            old(self).input_buffer@,
                            end,
                        )
                        &&& final(self).possible_sections@ == seq![spec_first_from(t, 4)]
                    } else {
                        &&& !progress
                        &&& final(self).input_buffer == old(self).input_buffer
                        &&& final(self).possible_sections == old(self).possible_sections
                    }
                },
                None => !progress && *final(self) == *old(self),
            },
    {
        let t = match self.game_builder.play_builder.play_type {
            Some(t) => t,
            None => {
                return false;
            },
        };
        let tag = str_to_chars("[CATCHER] ");
        match match_tagged_name(&self.input_buffer, &tag) {
            Some((end, n)) => {
                self.game_builder.play_builder.set_catcher(n);
                if end == self.input_buffer.len() {
                    return false;
                }
                self.consume_input(end);
                self.possible_sections = sections1(first_from(&t, 4));
                true
            },
            None => false,
        }
    }

    /// Attempt the `[RUNNER]` line: record the runner and advance.
    pub fn parse_play_runner(&mut self) -> (progress: bool)
        ensures
            progress ==> final(self).input_buffer@.len() < old(self).input_buffer@.len(),
            frame_core(*old(self), *final(self)),
            gb_same_but_play_builder(old(self).game_builder, final(self).game_builder),
            pb_same_but_runner(
                old(self).game_builder.play_builder,
                final(self).game_builder.play_builder,
            ),
            old(self).game_builder.play_builder.play_type is None ==> !progress && *final(self)
                == *old(self),
            old(self).game_builder.play_builder.play_type matches Some(t) ==> match spec_tagged_name_match(
                old(self).input_buffer@,
                "[RUNNER] "@,
            ) {
                Some((end, n)) => {
                    &&& final(self).game_builder.play_builder.runner matches Some(x) && x@ == n
                    &&& if end < old(self).input_buffer@.len() {
                        &&& progress
                        &&& final(self).input_buffer@ == spec_consumed(
                            old(self).input_buffer@,
                            end,
                        )
                        &&& final(self).possible_sections@ == seq![spec_first_from(t, 6)]
                    } else {
                        &&& !progress
                        &&& final(self).input_buffer == old(self).input_buffer
                        &&& final(self).possible_sections == old(self).possible_sections
                    }
                },
                None => !progress && *final(self) == *old(self),
            },
    {
        let t = match self.game_builder.play_builder.play_type {
            Some(t) => t,
            None => {
                return false;
            },
        };
        let tag = str_to_chars("[RUNNER] ");
        match match_tagged_name(&self.input_buffer, &tag) {
            Some((end, n)) => {
                self.game_builder.play_builder.set_runner(n);
                if end == self.input_buffer.len() {
                    return false;
                }
                self.consume_input(end);
                self.possible_sections = sections1(first_from(&t, 6));
                true
            },
            None => false,
        }
    }

    /// Attempt the `[SCORING_RUNNER]` line: record the scoring runner and advance to the movements.
    pub fn parse_play_scoring_runner(&mut self) -> (progress: bool)
        ensures
            progress ==> final(self).input_buffer@.len() < old(self).input_buffer@.len(),
            frame_core(*old(self), *final(self)),
            gb_same_but_play_builder(old(self).game_builder, final(self).game_builder),
            pb_same_but_scoring_runner(
                old(self).game_builder.play_builder,
                final(self).game_builder.play_builder,
            ),
            match spec_tagged_name_match(old(self).input_buffer@, "[SCORING_RUNNER] "@) {
                Some((end, n)) => {
                    &&& final(self).game_builder.play_builder.scoring_runner matches Some(x) && x@ == n
                    &&& if end < old(self).input_buffer@.len() {
                        &&& progress
                        &&& final(self).input_buffer@ == spec_consumed(
                            old(self).input_buffer@,
                            end,
                        )
                        &&& final(self).possible_sections@ == seq![GameSection::Plays(PlaySection::Movements(MovementsSection::Tag))]
                    } else {
                        &&& !progress
                        &&& final(self).input_buffer == old(self).input_buffer
                        &&& final(self).possible_sections == old(self).possible_sections
                    }
                },
                None => !progress && *final(self) == *old(self),
            },
    {

        let tag = str_to_chars("[SCORING_RUNNER] ");
        match match_tagged_name(&self.input_buffer, &tag) {
            Some((end, n)) => {
                self.game_builder.play_builder.set_scoring_runner(n);
                if end == self.input_buffer.len() {
                    return false;
                }
                self.consume_input(end);
                self.possible_sections = sections1(GameSection::Plays(PlaySection::Movements(MovementsSection::Tag)));
                true
            },
            None => false,
        }
    }

    /// Attempt one fielder name of the fielders list; afterwards either a
    /// comma continues the list or the play type\'s next sub-section
    /// begins.
    pub fn parse_fielders_name(&mut self) -> (progress: bool)
        ensures
            progress ==> final(self).input_buffer@.len() < old(self).input_buffer@.len(),
            frame_core(*old(self), *final(self)),
            gb_same_but_play_builder(old(self).game_builder, final(self).game_builder),
            pb_same_but_fielders(
                old(self).game_builder.play_builder,
                final(self).game_builder.play_builder,
            ),
            old(self).game_builder.play_builder.play_type is None ==> !progress && *final(self)
                == *old(self),
            old(self).game_builder.play_builder.play_type matches Some(t) ==> match spec_fielder_name_match(
                old(self).input_buffer@,
            ) {
                Some((end, n)) => {
                    if end < old(self).input_buffer@.len() {
                        &&& progress
                        &&& final(self).input_buffer@ == spec_consumed(
                            old(self).input_buffer@,
                            end,
                        )
                        &&& final(self).game_builder.play_builder.fielders.deep_view() == old(
                            self,
                        ).game_builder.play_builder.fielders.deep_view().push(n)
                        &&& final(self).possible_sections@ == seq![
                            GameSection::Plays(PlaySection::Fielders(FieldersSection::CommaSpace)),
                            spec_first_from(t, 5),
                        ]
                    } else {
                        !progress && *final(self) == *old(self)
                    }
                },
                None => !progress && *final(self) == *old(self),
            },
    {
        let t = match self.game_builder.play_builder.play_type {
            Some(t) => t,
            None => {
                return false;
            },
        };
        match match_fielder_name(&self.input_buffer) {
            Some((end, n)) => {
                if end == self.input_buffer.len() {
                    return false;
                }
                self.game_builder.play_builder.add_fielder(n);
                assert(self.game_builder.play_builder.fielders.deep_view() =~= old(
                    self,
                ).game_builder.play_builder.fielders.deep_view().push(n@));
                self.consume_input(end);
                self.possible_sections = sections2(
                    GameSection::Plays(PlaySection::Fielders(FieldersSection::CommaSpace)),
                    first_from(&t, 5),
                );
                true
            },
            None => false,
        }
    }
}


impl Parser {
    /// Attempt the runner name that starts a movement and advance to its
    /// starting base.
    pub fn parse_mov_name(&mut self) -> (progress: bool)
        ensures
            progress ==> final(self).input_buffer@.len() <= old(self).input_buffer@.len() && (
            final(self).input_buffer@.len() < old(self).input_buffer@.len()
                || final(self).possible_sections@ == seq![
                GameSection::Plays(PlaySection::Movements(MovementsSection::StartBase)),
            ]),
            frame_core(*old(self), *final(self)),
            gb_same_but_play_builder(old(self).game_builder, final(self).game_builder),
            pb_same_but_movement_builder(
                old(self).game_builder.play_builder,
                final(self).game_builder.play_builder,
            ),
            match spec_move_name_match(old(self).input_buffer@) {
                Some((end, n)) => {
                    if end < old(self).input_buffer@.len() {
                        &&& progress
                        &&& final(self).input_buffer@ == spec_consumed(
                            old(self).input_buffer@,
                            end,
                        )
                        &&& final(self).game_builder.play_builder.movement_builder.runner
                            matches Some(x) && x@ == n
                        &&& final(self).game_builder.play_builder.movement_builder.from == old(
                            self,
                        ).game_builder.play_builder.movement_builder.from
                        &&& final(self).game_builder.play_builder.movement_builder.to == old(
                            self,
                        ).game_builder.play_builder.movement_builder.to
                        &&& final(self).game_builder.play_builder.movement_builder.out == old(
                            self,
                        ).game_builder.play_builder.movement_builder.out
                        &&& final(self).possible_sections@ == seq![
                            GameSection::Plays(PlaySection::Movements(MovementsSection::StartBase)),
                        ]
                    } else {
                        !progress && *final(self) == *old(self)
                    }
                },
                None => !progress && *final(self) == *old(self),
            },
    {
        match match_move_name(&self.input_buffer) {
            Some((end, n)) => {
                if end == self.input_buffer.len() {
                    return false;
                }
                self.game_builder.play_builder.movement_builder.set_runner(n);
                self.consume_input(end);
                self.possible_sections = sections1(
                    GameSection::Plays(PlaySection::Movements(MovementsSection::StartBase)),
                );
                true
            },
            None => false,
        }
    }

    /// Attempt the starting base of a movement and advance to the arrow.
    pub fn parse_mov_start_base(&mut self) -> (progress: bool)
        ensures
            progress ==> final(self).input_buffer@.len() < old(self).input_buffer@.len(),
            frame_core(*old(self), *final(self)),
            gb_same_but_play_builder(old(self).game_builder, final(self).game_builder),
            pb_same_but_movement_builder(
                old(self).game_builder.play_builder,
                final(self).game_builder.play_builder,
            ),
            match spec_base_name_match(old(self).input_buffer@, 0) {
                Some((end, b)) => {
                    &&& final(self).game_builder.play_builder.movement_builder.from == Some(b)
                    &&& final(self).game_builder.play_builder.movement_builder.runner == old(
                        self,
                    ).game_builder.play_builder.movement_builder.runner
                    &&& final(self).game_builder.play_builder.movement_builder.to == old(
                        self,
                    ).game_builder.play_builder.movement_builder.to
                    &&& final(self).game_builder.play_builder.movement_builder.out == old(
                        self,
                    ).game_builder.play_builder.movement_builder.out
                    &&& if end < old(self).input_buffer@.len() {
                        &&& progress
                        &&& final(self).input_buffer@ == spec_consumed(
                            old(self).input_buffer@,
                            end,
                        )
                        &&& final(self).possible_sections@ == seq![
                            GameSection::Plays(PlaySection::Movements(MovementsSection::Arrow)),
                        ]
                    } else {
                        &&& !progress
                        &&& final(self).input_buffer == old(self).input_buffer
                        &&& final(self).possible_sections == old(self).possible_sections
                    }
                },
                None => !progress && *final(self) == *old(self),
            },
    {
        match match_base_name(&self.input_buffer, 0) {
            Some((end, b)) => {
                self.game_builder.play_builder.movement_builder.set_from(b);
                if end == self.input_buffer.len() {
                    return false;
                }
                self.consume_input(end);
                self.possible_sections = sections1(
                    GameSection::Plays(PlaySection::Movements(MovementsSection::Arrow)),
                );
                true
            },
            None => false,
        }
    }

    /// Attempt the ending base of a movement; afterwards either `[out]`
    /// or the end of the movement follows.
    pub fn parse_mov_end_base(&mut self) -> (progress: bool)
        ensures
            progress ==> final(self).input_buffer@.len() < old(self).input_buffer@.len(),
            frame_core(*old(self), *final(self)),
            gb_same_but_play_builder(old(self).game_builder, final(self).game_builder),
            pb_same_but_movement_builder(
                old(self).game_builder.play_builder,
                final(self).game_builder.play_builder,
            ),
            match spec_base_name_match(old(self).input_buffer@, 0) {
                Some((end, b)) => {
                    &&& final(self).game_builder.play_builder.movement_builder.to == Some(b)
                    &&& final(self).game_builder.play_builder.movement_builder.runner == old(
                        self,
                    ).game_builder.play_builder.movement_builder.runner
                    &&& final(self).game_builder.play_builder.movement_builder.from == old(
                        self,
                    ).game_builder.play_builder.movement_builder.from
                    &&& final(self).game_builder.play_builder.movement_builder.out == old(
                        self,
                    ).game_builder.play_builder.movement_builder.out
                    &&& if end < old(self).input_buffer@.len() {
                        &&& progress
                        &&& final(self).input_buffer@ == spec_consumed(
                            old(self).input_buffer@,
                            end,
                        )
                        &&& final(self).possible_sections@ == seq![
                            GameSection::Plays(PlaySection::Movements(MovementsSection::Out)),
                            GameSection::Plays(
                                PlaySection::Movements(MovementsSection::MovementEnd),
                            ),
                        ]
                    } else {
                        &&& !progress
                        &&& final(self).input_buffer == old(self).input_buffer
                        &&& final(self).possible_sections == old(self).possible_sections
                    }
                },
                None => !progress && *final(self) == *old(self),
            },
    {
        match match_base_name(&self.input_buffer, 0) {
            Some((end, b)) => {
                self.game_builder.play_builder.movement_builder.set_to(b);
                if end == self.input_buffer.len() {
                    return false;
                }
                self.consume_input(end);
                self.possible_sections = sections2(
                    GameSection::Plays(PlaySection::Movements(MovementsSection::Out)),
                    GameSection::Plays(PlaySection::Movements(MovementsSection::MovementEnd)),
                );
                true
            },
            None => false,
        }
    }

    /// Attempt the `[out]` flag of a movement.
    pub fn parse_mov_out(&mut self) -> (progress: bool)
        ensures
            progress ==> final(self).input_buffer@.len() < old(self).input_buffer@.len(),
            frame_core(*old(self), *final(self)),
            gb_same_but_play_builder(old(self).game_builder, final(self).game_builder),
            pb_same_but_movement_builder(
                old(self).game_builder.play_builder,
                final(self).game_builder.play_builder,
            ),
            if lit_at(old(self).input_buffer@, 0, "[out]"@) {
                &&& final(self).game_builder.play_builder.movement_builder.out
                &&& final(self).game_builder.play_builder.movement_builder.runner == old(
                    self,
                ).game_builder.play_builder.movement_builder.runner
                &&& final(self).game_builder.play_builder.movement_builder.from == old(
                    self,
                ).game_builder.play_builder.movement_builder.from
                &&& final(self).game_builder.play_builder.movement_builder.to == old(
                    self,
                ).game_builder.play_builder.movement_builder.to
                &&& if old(self).input_buffer@.len() > "[out]"@.len() {
                    &&& progress
                    &&& final(self).input_buffer@ == spec_consumed(
                        old(self).input_buffer@,
                        "[out]"@.len() as int,
                    )
                    &&& final(self).possible_sections@ == seq![
                        GameSection::Plays(PlaySection::Movements(MovementsSection::MovementEnd)),
                    ]
                } else {
                    &&& !progress
                    &&& final(self).input_buffer == old(self).input_buffer
                    &&& final(self).possible_sections == old(self).possible_sections
                }
            } else {
                !progress && *final(self) == *old(self)
            },
    {
        proof {
            reveal_strlit("[out]");
        }
        let lit = str_to_chars("[out]");
        if match_lit(&self.input_buffer, 0, &lit) {
            self.game_builder.play_builder.movement_builder.set_out();
            if self.input_buffer.len() == lit.len() {
                return false;
            }
            self.consume_input(lit.len());
            self.possible_sections = sections1(
                GameSection::Plays(PlaySection::Movements(MovementsSection::MovementEnd)),
            );
            true
        } else {
            false
        }
    }

    /// Attempt the comma that continues the movements list: it commits
    /// the movement being accumulated.
    pub fn parse_mov_comma(&mut self) -> (progress: bool)
        ensures
            progress ==> final(self).input_buffer@.len() < old(self).input_buffer@.len(),
            frame_core(*old(self), *final(self)),
            gb_same_but_play_builder(old(self).game_builder, final(self).game_builder),
            pb_same_but_movements_and_movement_builder(
                old(self).game_builder.play_builder,
                final(self).game_builder.play_builder,
            ),
            if lit_at(old(self).input_buffer@, 0, ", "@) {
                &&& progress
                &&& final(self).input_buffer@ == spec_consumed(
                    old(self).input_buffer@,
                    ", "@.len() as int,
                )
                &&& final(self).possible_sections@ == seq![
                    GameSection::Plays(PlaySection::Movements(MovementsSection::Name)),
                ]
                &&& if old(self).game_builder.play_builder.movement_builder.spec_ok() {
                    &&& mviews(final(self).game_builder.play_builder.movements@) == mviews(
                        old(self).game_builder.play_builder.movements@,
                    ).push(old(self).game_builder.play_builder.movement_builder.spec_movement())
                    &&& final(self).game_builder.play_builder.movement_builder.spec_fresh()
                } else {
                    &&& final(self).game_builder.play_builder.movements == old(
                        self,
                    ).game_builder.play_builder.movements
                    &&& final(self).game_builder.play_builder.movement_builder == old(
                        self,
                    ).game_builder.play_builder.movement_builder
                }
            } else {
                !progress && *final(self) == *old(self)
            },
    {
        proof {
            reveal_strlit(", ");
        }
        let lit = str_to_chars(", ");
        if match_lit(&self.input_buffer, 0, &lit) {
            let _ = self.game_builder.play_builder.build_movement();
            self.consume_input(lit.len());
            self.possible_sections = sections1(
                GameSection::Plays(PlaySection::Movements(MovementsSection::Name)),
            );
            true
        } else {
            false
        }
    }

    /// The silent end of one movement: admit `[out]`, a continuing
    /// comma, or the end of the play. It consumes nothing.
    pub fn parse_mov_movement_end(&mut self) -> (progress: bool)
        ensures
            frame_core(*old(self), *final(self)),
            final(self).game_builder == old(self).game_builder,
            final(self).input_buffer == old(self).input_buffer,
            progress,
            final(self).possible_sections@ == seq![
                GameSection::Plays(PlaySection::Movements(MovementsSection::Out)),
                GameSection::Plays(PlaySection::Movements(MovementsSection::CommaSpace)),
                GameSection::Plays(PlaySection::PlayEnd),
            ],
    {
        self.possible_sections = sections3(
            GameSection::Plays(PlaySection::Movements(MovementsSection::Out)),
            GameSection::Plays(PlaySection::Movements(MovementsSection::CommaSpace)),
            GameSection::Plays(PlaySection::PlayEnd),
        );
        true
    }

    /// Attempt the `;` that ends a play: commit the last movement,
    /// finalize the play, and hand its movements to the live game state.
    /// A semantic violation aborts the parse and names the inning; a
    /// play finalized with a required slot unset is a missing-field
    /// error.
    #[verifier::rlimit(60)]
    pub fn parse_play_end(&mut self) -> (r: Result<bool, ParseError>)
        ensures
            r == Ok::<bool, ParseError>(true) ==> final(self).input_buffer@.len() < old(
                self,
            ).input_buffer@.len(),
            final(self).finished == old(self).finished,
            final(self).print_debug == old(self).print_debug,
            final(self).pinch_runners == old(self).pinch_runners,
            final(self).live_game_state.inning == old(self).live_game_state.inning,
            final(self).live_game_state.home_team_score == old(
                self,
            ).live_game_state.home_team_score,
            final(self).live_game_state.away_team_score == old(
                self,
            ).live_game_state.away_team_score,
            !lit_at(old(self).input_buffer@, 0, ";"@) ==> r == Ok::<bool, ParseError>(false)
                && *final(self) == *old(self),
            lit_at(old(self).input_buffer@, 0, ";"@) ==> ({
                let pb0 = old(self).game_builder.play_builder;
                let pmoves = if pb0.movement_builder.spec_ok() {
                    mviews(pb0.movements@).push(pb0.movement_builder.spec_movement())
                } else {
                    mviews(pb0.movements@)
                };
                &&& final(self).input_buffer@ == spec_consumed(
                    old(self).input_buffer@,
                    ";"@.len() as int,
                )
                &&& gb_same_but_plays_and_play_builder(
                    old(self).game_builder,
                    final(self).game_builder,
                )
                &&& if !pb0.spec_ok() {
                    &&& r matches Err(e) && e is MissingField
                    &&& final(self).game_builder.plays == old(self).game_builder.plays
                    &&& final(self).possible_sections == old(self).possible_sections
                    &&& final(self).live_game_state == old(self).live_game_state
                } else {
                    &&& play_views(final(self).game_builder.plays@) == play_views(
                        old(self).game_builder.plays@,
                    ).push(
                        PlayV {
                            inning: pb0.inning->0,
                            play_content: pb0.spec_content(),
                            movements: pmoves,
                        },
                    )
                    &&& final(self).game_builder.play_builder.spec_fresh()
                    &&& if all_ok(
                        spec_simplify(pmoves),
                        old(self).live_game_state.runner_positions@,
                        old(self).pinch_runners.deep_view(),
                    ) {
                        &&& r == Ok::<bool, ParseError>(true)
                        &&& final(self).live_game_state.runner_positions@ == apply_all(
                            spec_simplify(pmoves),
                            old(self).live_game_state.runner_positions@,
                        )
                        &&& final(self).possible_sections@ == seq![
                            GameSection::Plays(PlaySection::Inning),
                            GameSection::Plays(PlaySection::GameEnd),
                        ]
                    } else {
                        &&& r matches Err(e) && e matches ParseError::SemanticViolation {
                            inning,
                            message,
                        } && inning == pb0.inning->0 && violation_report(
                            spec_simplify(pmoves),
                            old(self).live_game_state.runner_positions@,
                            old(self).pinch_runners.deep_view(),
                            message@,
                        )
                        &&& final(self).live_game_state.runner_positions == old(
                            self,
                        ).live_game_state.runner_positions
                        &&& final(self).possible_sections == old(self).possible_sections
                    }
                }
            }),
    {
        proof {
            reveal_strlit(";");
        }
        let lit = str_to_chars(";");
        if !match_lit(&self.input_buffer, 0, &lit) {
            return Ok(false);
        }
        let ghost pb0 = self.game_builder.play_builder;
        let _ = self.game_builder.play_builder.build_movement();
        let ghost pb1 = self.game_builder.play_builder;
        proof {
            assert(pb1.spec_ok() == pb0.spec_ok());
            if pb0.spec_ok() {
                assert(pb1.spec_content() == pb0.spec_content());
            }
        }
        self.consume_input(lit.len());
        match self.game_builder.build_play() {
            None => Err(ParseError::MissingField),
            Some(_) => {
                assert(play_views(self.game_builder.plays@).len() == self.game_builder.plays@.len());
                assert(self.game_builder.plays@.len() > 0);
                let idx = self.game_builder.plays.len() - 1;
                proof {
                    assert(play_views(self.game_builder.plays@)[idx as int]
                        == self.game_builder.plays@[idx as int]@);
                    assert(self.game_builder.plays@[idx as int]@ == pb1.spec_play());
                    assert(mviews(self.game_builder.plays@[idx as int].movements@)
                        == pb1.spec_play().movements);
                }
                let inning = self.game_builder.plays[idx].inning;
                let outcome = self.live_game_state.runner_positions.process_movements(
                    &self.game_builder.plays[idx].movements,
                    &self.pinch_runners,
                );
                match outcome {
                    Err(message) => Err(ParseError::SemanticViolation { inning, message }),
                    Ok(_) => {
                        self.possible_sections = sections2(
                            GameSection::Plays(PlaySection::Inning),
                            GameSection::Plays(PlaySection::GameEnd),
                        );
                        Ok(true)
                    },
                }
            },
        }
    }

    /// Attempt the `[GAME_END]` marker: the parse is complete.
    pub fn parse_play_game_end(&mut self) -> (progress: bool)
        ensures
            progress ==> final(self).input_buffer@.len() < old(self).input_buffer@.len(),
            final(self).print_debug == old(self).print_debug,
            final(self).pinch_runners == old(self).pinch_runners,
            final(self).live_game_state == old(self).live_game_state,
            final(self).game_builder == old(self).game_builder,
            final(self).possible_sections == old(self).possible_sections,
            if lit_at(old(self).input_buffer@, 0, "[GAME_END]"@) {
                &&& progress
                &&& final(self).finished
                &&& final(self).input_buffer@ == spec_consumed(
                    old(self).input_buffer@,
                    "[GAME_END]"@.len() as int,
                )
            } else {
                !progress && *final(self) == *old(self)
            },
    {
        proof {
            reveal_strlit("[GAME_END]");
        }
        let lit = str_to_chars("[GAME_END]");
        if match_lit(&self.input_buffer, 0, &lit) {
            self.consume_input(lit.len());
            self.finished = true;
            true
        } else {
            false
        }
    }
}


/// A copy of the admissible section set.
fn copy_sections(v: &Vec<GameSection>) -> (r: Vec<GameSection>)
    ensures
        r@ == v@,
{
    let mut r: Vec<GameSection> = Vec::new();
    let mut i: usize = 0;
    while i < v.len()
        invariant
            0 <= i <= v@.len(),
            r@ =~= v@.subrange(0, i as int),
        decreases v@.len() - i,
    {
        r.push(v[i]);
        i += 1;
    }
    assert(r@ =~= v@);
    r
}

impl Parser {
    /// Attempt one context-section descriptor.
    pub fn parse_context_section(&mut self, context_section: ContextSection) -> (progress: bool)
        ensures
            match context_section {
                ContextSection::Game => spec_game_line_step(*old(self), *final(self), progress),
                ContextSection::Date => spec_date_line_step(*old(self), *final(self), progress),
                ContextSection::Venue => spec_venue_line_step(*old(self), *final(self), progress),
                ContextSection::Weather => spec_weather_line_step(
                    *old(self),
                    *final(self),
                    progress,
                ),
            },
            progress ==> final(self).input_buffer@.len() < old(self).input_buffer@.len(),
            !progress ==> !spec_section_consumes(
                *old(self),
                GameSection::Context(context_section),
            ),
            !progress && old(self).game_builder.play_builder.play_type is Some
                ==> final(self).game_builder.play_builder.play_type is Some,
            !progress && old(self).game_builder.play_builder.play_type is None
                && final(self).game_builder.play_builder.play_type is Some
                ==> lit_at(old(self).input_buffer@, 0, "[PLAY] "@),
            final(self).print_debug == old(self).print_debug,
            old(self).finished ==> final(self).finished,
            !progress ==> {
                &&& final(self).input_buffer == old(self).input_buffer
                &&& final(self).possible_sections == old(self).possible_sections
                &&& final(self).finished == old(self).finished
                &&& final(self).live_game_state == old(self).live_game_state
            },
    {
        match context_section {
            ContextSection::Game => self.parse_context_game(),
            ContextSection::Date => self.parse_context_date(),
            ContextSection::Venue => self.parse_context_venue(),
            ContextSection::Weather => self.parse_context_weather(),
        }
    }

    /// Attempt one team-section descriptor for the given side.
    pub fn parse_team_section(&mut self, team_section: TeamSection, home_team: bool) -> (progress:
        bool)
        ensures
            match team_section {
                TeamSection::Team => spec_team_line_step(
                    *old(self),
                    *final(self),
                    progress,
                    home_team,
                ),
                TeamSection::Player => spec_roster_line_step(
                    *old(self),
                    *final(self),
                    progress,
                    home_team,
                ),
            },
            progress ==> final(self).input_buffer@.len() < old(self).input_buffer@.len(),
            !progress && home_team ==> !spec_section_consumes(
                *old(self),
                GameSection::HomeTeam(team_section),
            ),
            !progress && !home_team ==> !spec_section_consumes(
                *old(self),
                GameSection::AwayTeam(team_section),
            ),
            !progress && old(self).game_builder.play_builder.play_type is Some
                ==> final(self).game_builder.play_builder.play_type is Some,
            !progress && old(self).game_builder.play_builder.play_type is None
                && final(self).game_builder.play_builder.play_type is Some
                ==> lit_at(old(self).input_buffer@, 0, "[PLAY] "@),
            final(self).print_debug == old(self).print_debug,
            old(self).finished ==> final(self).finished,
            !progress ==> {
                &&& final(self).input_buffer == old(self).input_buffer
                &&& final(self).possible_sections == old(self).possible_sections
                &&& final(self).finished == old(self).finished
                &&& final(self).live_game_state == old(self).live_game_state
            },
    {
        match team_section {
            TeamSection::Team => self.parse_team_team(home_team),
            TeamSection::Player => self.parse_team_player(home_team),
        }
    }

    /// Attempt one plays-section descriptor.
    #[verifier::rlimit(100)]
    pub fn parse_play_section(&mut self, play_section: PlaySection) -> (r: Result<
        bool,
        ParseError,
    >)
        ensures
            r == Ok::<bool, ParseError>(false) ==> !spec_section_consumes(
                *old(self),
                GameSection::Plays(play_section),
            ),
            r matches Err(e) ==> {
                &&& play_section == PlaySection::PlayEnd
                &&& lit_at(old(self).input_buffer@, 0, ";"@)
                &&& final(self).possible_sections == old(self).possible_sections
                &&& (e is MissingField <==> !old(self).game_builder.play_builder.spec_ok())
            },
            r == Ok::<bool, ParseError>(false)
                && old(self).game_builder.play_builder.play_type is None
                && final(self).game_builder.play_builder.play_type is Some
                ==> lit_at(old(self).input_buffer@, 0, "[PLAY] "@),
            r == Ok::<bool, ParseError>(false)
                && old(self).game_builder.play_builder.play_type is Some
                ==> final(self).game_builder.play_builder.play_type is Some,
            r == Ok::<bool, ParseError>(true) ==> {
                ||| final(self).input_buffer@.len() < old(self).input_buffer@.len()
                ||| (play_section == PlaySection::Movements(MovementsSection::Name)
                    && final(self).input_buffer@.len() <= old(self).input_buffer@.len()
                    && sections_rank(final(self).possible_sections@) == 0)
                ||| (play_section == PlaySection::Movements(MovementsSection::MovementEnd)
                    && final(self).input_buffer@.len() <= old(self).input_buffer@.len()
                    && sections_rank(final(self).possible_sections@) == 0)
            },
            final(self).print_debug == old(self).print_debug,
            old(self).finished ==> final(self).finished,
            r == Ok::<bool, ParseError>(false) ==> {
                &&& final(self).input_buffer == old(self).input_buffer
                &&& final(self).possible_sections == old(self).possible_sections
                &&& final(self).finished == old(self).finished
                &&& final(self).live_game_state == old(self).live_game_state
            },
    {
        match play_section {
            PlaySection::GameStart => Ok(self.parse_play_game_start()),
            PlaySection::Inning => Ok(self.parse_play_inning()),
            PlaySection::Play => Ok(self.parse_play_play()),
            PlaySection::Base => Ok(self.parse_play_base()),
            PlaySection::Batter => Ok(self.parse_play_batter()),
            PlaySection::Pitcher => Ok(self.parse_play_pitcher()),
            PlaySection::Catcher => Ok(self.parse_play_catcher()),
            PlaySection::Fielders(FieldersSection::Tag) => Ok(self.parse_fielders_tag()),
            PlaySection::Fielders(FieldersSection::Name) => Ok(self.parse_fielders_name()),
            PlaySection::Fielders(FieldersSection::CommaSpace) => Ok(self.parse_fielders_comma()),
            PlaySection::Runner => Ok(self.parse_play_runner()),
            PlaySection::ScoringRunner => Ok(self.parse_play_scoring_runner()),
            PlaySection::Movements(MovementsSection::Tag) => Ok(self.parse_mov_tag()),
            PlaySection::Movements(MovementsSection::Name) => Ok(self.parse_mov_name()),
            PlaySection::Movements(MovementsSection::StartBase) => Ok(
                self.parse_mov_start_base(),
            ),
            PlaySection::Movements(MovementsSection::Arrow) => Ok(self.parse_mov_arrow()),
            PlaySection::Movements(MovementsSection::EndBase) => Ok(self.parse_mov_end_base()),
            PlaySection::Movements(MovementsSection::Out) => Ok(self.parse_mov_out()),
            PlaySection::Movements(MovementsSection::CommaSpace) => Ok(self.parse_mov_comma()),
            PlaySection::Movements(MovementsSection::MovementEnd) => Ok(
                self.parse_mov_movement_end(),
            ),
            PlaySection::PlayEnd => self.parse_play_end(),
            PlaySection::GameEnd => Ok(self.parse_play_game_end()),
        }
    }

    /// One scheduling step: attempt each admissible descriptor in order;
    /// the first that consumes wins. `Ok(false)` means no descriptor
    /// could make progress and more input is needed.
    #[verifier::loop_isolation(false)]
    pub fn parse_input_buffer(&mut self) -> (r: Result<bool, ParseError>)
        ensures
            r == Ok::<bool, ParseError>(false) ==> forall|j: int|
                0 <= j < final(self).possible_sections@.len() ==> !spec_section_consumes(
                    *final(self),
                    #[trigger] final(self).possible_sections@[j],
                ),
            r is Err ==> final(self).possible_sections == old(self).possible_sections
                && final(self).possible_sections@.contains(
                GameSection::Plays(PlaySection::PlayEnd),
            ),
            r == Ok::<bool, ParseError>(true) ==> 3 * final(self).input_buffer@.len()
                + sections_rank(final(self).possible_sections@) < 3 * old(
                self,
            ).input_buffer@.len() + sections_rank(old(self).possible_sections@),
            final(self).print_debug == old(self).print_debug,
            old(self).finished ==> final(self).finished,
            r == Ok::<bool, ParseError>(false) ==> {
                &&& final(self).input_buffer == old(self).input_buffer
                &&& final(self).possible_sections == old(self).possible_sections
                &&& final(self).finished == old(self).finished
                &&& final(self).live_game_state == old(self).live_game_state
            },
    {
        let sections = copy_sections(&self.possible_sections);
        let mut i: usize = 0;
        while i < sections.len()
            invariant
                0 <= i <= sections@.len(),
                self.print_debug == old(self).print_debug,
                old(self).finished ==> self.finished,
                self.input_buffer == old(self).input_buffer,
                self.possible_sections == old(self).possible_sections,
                self.finished == old(self).finished,
                self.live_game_state == old(self).live_game_state,
                forall|j: int|
                    0 <= j < i ==> !spec_section_consumes(*self, #[trigger] sections@[j]),
            decreases sections@.len() - i,
        {
            let ghost before = *self;
            let success = match sections[i] {
                GameSection::Context(context_section) => Ok(
                    self.parse_context_section(context_section),
                ),
                GameSection::HomeTeam(team_section) => Ok(
                    self.parse_team_section(team_section, true),
                ),
                GameSection::AwayTeam(team_section) => Ok(
                    self.parse_team_section(team_section, false),
                ),
                GameSection::Plays(play_section) => self.parse_play_section(play_section),
            };
            match success {
                Err(e) => {
                    proof {
                        assert(sections@[i as int] == GameSection::Plays(PlaySection::PlayEnd));
                        assert(self.possible_sections@.contains(
                            GameSection::Plays(PlaySection::PlayEnd),
                        )) by {
                            assert(self.possible_sections@[i as int] == GameSection::Plays(
                                PlaySection::PlayEnd,
                            ));
                        }
                    }
                    return Err(e);
                },
                Ok(true) => {
                    return Ok(true);
                },
                Ok(false) => {
                    proof {
                        assert forall|j: int| 0 <= j < i + 1 implies !spec_section_consumes(
                            *self,
                            #[trigger] sections@[j],
                        ) by {
                            lemma_consumes_after(before, *self, sections@[j]);
                        }
                    }
                },
            }
            i += 1;
        }
        Ok(false)
    }

    /// Append a chunk of input, stripped of leading newlines, and drive
    /// the machine until no admissible descriptor can consume or the
    /// transcript is complete.
    #[verifier::loop_isolation(false)]
    pub fn parse_input(&mut self, input: &str) -> (r: Result<(), ParseError>)
        ensures
            final(self).print_debug == old(self).print_debug,
            old(self).finished ==> r is Ok && final(self).finished,
            r is Ok ==> final(self).finished || forall|j: int|
                0 <= j < final(self).possible_sections@.len() ==> !spec_section_consumes(
                    *final(self),
                    #[trigger] final(self).possible_sections@[j],
                ),
            r is Err ==> final(self).possible_sections@.contains(
                GameSection::Plays(PlaySection::PlayEnd),
            ),
            old(self).finished ==> final(self).input_buffer@ == old(self).input_buffer@
                + strip_newlines(input@),
    {
        let chunk = str_to_chars(input);
        let ghost nl = |c: char| c == '\n';
        let mut st: usize = 0;
        while st < chunk.len() && chunk[st] == '\n'
            invariant
                0 <= st <= chunk@.len(),
                run_len(chunk@, 0, nl) == st + run_len(chunk@, st as int, nl),
            decreases chunk@.len() - st,
        {
            assert(run_len(chunk@, st as int, nl) == 1 + run_len(chunk@, st + 1, nl));
            st += 1;
        }
        assert(run_len(chunk@, st as int, nl) == 0);
        assert(st == run_len(chunk@, 0, nl));
        let mut k: usize = st;
        assert(self.input_buffer@ =~= old(self).input_buffer@ + chunk@.subrange(
            st as int,
            st as int,
        ));
        while k < chunk.len()
            invariant
                st <= k <= chunk@.len(),
                st == run_len(chunk@, 0, nl),
                self.print_debug == old(self).print_debug,
                self.finished == old(self).finished,
                self.input_buffer@ == old(self).input_buffer@ + chunk@.subrange(
                    st as int,
                    k as int,
                ),
            decreases chunk@.len() - k,
        {
            self.input_buffer.push(chunk[k]);
            assert(self.input_buffer@ =~= old(self).input_buffer@ + chunk@.subrange(
                st as int,
                k + 1,
            ));
            k += 1;
        }
        assert(chunk@.subrange(st as int, chunk@.len() as int) == strip_newlines(input@));
        assert(self.input_buffer@ == old(self).input_buffer@ + strip_newlines(input@));
        loop
            invariant
                self.print_debug == old(self).print_debug,
                old(self).finished ==> self.finished,
                old(self).finished ==> self.input_buffer@ == old(self).input_buffer@
                    + strip_newlines(input@),
            decreases 3 * self.input_buffer@.len() + sections_rank(self.possible_sections@),
        {
            if self.finished {
                return Ok(());
            }
            match self.parse_input_buffer() {
                Err(e) => {
                    return Err(e);
                },
                Ok(true) => (),
                Ok(false) => {
                    return Ok(());
                },
            }
        }
    }

    /// The finalized game, once `[GAME_END]` has been consumed; `None`
    /// before that, or when a required field never arrived.
    pub fn complete(&self) -> (r: Option<Game>)
        ensures
            r is Some <==> self.finished && self.game_builder.spec_ok(),
            r matches Some(g) ==> g@ == self.game_builder.spec_game(),
    {
        if self.finished {
            self.game_builder.build()
        } else {
            None
        }
    }
}

} // verus!
