use fancy_regex::Regex;
use mlb_parser::parser::Parser;
use mlb_parser::play_type::PlayType;

fn test_valid_regex_for_play_type(play_type: PlayType, input: &str) {
    let parser = Parser::new(false);
    let pattern = parser.inner_pattern_from_play_type(&play_type);
    let regex = Regex::new(&pattern).unwrap();
    println!("pattern: \"{}\"\n", pattern);

    let is_match = regex.is_match(input).unwrap();
    assert!(is_match);
}

#[test]
fn test_valid_regex_for_groundout() {
    test_valid_regex_for_play_type(
        PlayType::Groundout,
        "[PLAY] Groundout [BATTER] A [PITCHER] B [FIELDERS] C, D",
    );
}

#[test]
fn test_valid_regex_for_bunt_groundout() {
    test_valid_regex_for_play_type(
        PlayType::BuntGroundout,
        "[PLAY] Bunt Groundout [BATTER] A [PITCHER] B [FIELDERS] C, D",
    );
}

#[test]
fn test_valid_regex_for_strikeout() {
    test_valid_regex_for_play_type(
        PlayType::Strikeout,
        "[PLAY] Strikeout [BATTER] A [PITCHER] B",
    );
}

#[test]
fn test_valid_regex_for_lineout() {
    test_valid_regex_for_play_type(
        PlayType::Lineout,
        "[PLAY] Lineout [BATTER] A [PITCHER] B [FIELDERS] C, D",
    );
}

#[test]
fn test_valid_regex_for_bunt_lineout() {
    test_valid_regex_for_play_type(
        PlayType::BuntLineout,
        "[PLAY] Bunt Lineout [BATTER] A [PITCHER] B [FIELDERS] C, D",
    );
}

#[test]
fn test_valid_regex_for_flyout() {
    test_valid_regex_for_play_type(
        PlayType::Flyout,
        "[PLAY] Flyout [BATTER] A [PITCHER] B [FIELDERS] C, D",
    );
}

#[test]
fn test_valid_regex_for_pop_out() {
    test_valid_regex_for_play_type(
        PlayType::PopOut,
        "[PLAY] Pop Out [BATTER] A [PITCHER] B [FIELDERS] C, D",
    );
}

#[test]
fn test_valid_regex_for_bunt_pop_out() {
    test_valid_regex_for_play_type(
        PlayType::BuntPopOut,
        "[PLAY] Bunt Pop Out [BATTER] A [PITCHER] B [FIELDERS] C, D",
    );
}

#[test]
fn test_valid_regex_for_forceout() {
    test_valid_regex_for_play_type(
        PlayType::Forceout,
        "[PLAY] Forceout [BATTER] A [PITCHER] B [FIELDERS] C, D",
    );
}

#[test]
fn test_valid_regex_for_fielders_choice_out() {
    test_valid_regex_for_play_type(
        PlayType::FieldersChoiceOut,
        "[PLAY] Fielders Choice Out [BATTER] A [PITCHER] B [FIELDERS] C, D [SCORING_RUNNER] E",
    );
}

#[test]
fn test_valid_regex_for_double_play() {
    test_valid_regex_for_play_type(
        PlayType::DoublePlay,
        "[PLAY] Double Play [BATTER] A [PITCHER] B [FIELDERS] C, D",
    );
}

#[test]
fn test_valid_regex_for_triple_play() {
    test_valid_regex_for_play_type(
        PlayType::TriplePlay,
        "[PLAY] Triple Play [BATTER] A [PITCHER] B [FIELDERS] C, D",
    );
}

#[test]
fn test_valid_regex_for_runner_double_play() {
    test_valid_regex_for_play_type(
        PlayType::RunnerDoublePlay,
        "[PLAY] Runner Double Play [BATTER] A [PITCHER] B [FIELDERS] C, D",
    );
}

#[test]
fn test_valid_regex_for_runner_triple_play() {
    test_valid_regex_for_play_type(
        PlayType::RunnerTriplePlay,
        "[PLAY] Runner Triple Play [BATTER] A [PITCHER] B [FIELDERS] C, D",
    );
}

#[test]
fn test_valid_regex_for_grounded_into_double_play() {
    test_valid_regex_for_play_type(
        PlayType::GroundedIntoDoublePlay,
        "[PLAY] Grounded Into Double Play [BATTER] A [PITCHER] B [FIELDERS] C, D",
    );
}

#[test]
fn test_valid_regex_for_strikeout_double_play() {
    test_valid_regex_for_play_type(
        PlayType::StrikeoutDoublePlay,
        "[PLAY] Strikeout Double Play [BATTER] A [PITCHER] B [FIELDERS] C, D",
    );
}

#[test]
fn test_valid_regex_for_pickoff() {
    test_valid_regex_for_play_type(
        PlayType::Pickoff,
        "[PLAY] Pickoff [BASE] 1 [FIELDERS] C, D [RUNNER] E",
    );
}

#[test]
fn test_valid_regex_for_pickoff_error() {
    test_valid_regex_for_play_type(
        PlayType::PickoffError,
        "[PLAY] Pickoff Error [BASE] 1 [FIELDERS] C, D [RUNNER] E",
    );
}

#[test]
fn test_valid_regex_for_caught_stealing() {
    test_valid_regex_for_play_type(
        PlayType::CaughtStealing,
        "[PLAY] Caught Stealing [BASE] 1 [FIELDERS] C, D [RUNNER] E",
    );
}

#[test]
fn test_valid_regex_for_pickoff_caught_stealing() {
    test_valid_regex_for_play_type(
        PlayType::PickoffCaughtStealing,
        "[PLAY] Pickoff Caught Stealing [BASE] 1 [FIELDERS] C, D [RUNNER] E",
    );
}

#[test]
fn test_valid_regex_for_wild_pitch() {
    test_valid_regex_for_play_type(
        PlayType::WildPitch,
        "[PLAY] Wild Pitch [PITCHER] A [RUNNER] B",
    );
}

#[test]
fn test_valid_regex_for_runner_out() {
    test_valid_regex_for_play_type(
        PlayType::RunnerOut,
        "[PLAY] Runner Out [FIELDERS] C, D [RUNNER] E",
    );
}

#[test]
fn test_valid_regex_for_field_out() {
    test_valid_regex_for_play_type(
        PlayType::FieldOut,
        "[PLAY] Field Out [FIELDERS] C, D [RUNNER] E",
    );
}

#[test]
fn test_valid_regex_for_batter_out() {
    test_valid_regex_for_play_type(
        PlayType::BatterOut,
        "[PLAY] Batter Out [BATTER] A [CATCHER] B",
    );
}

#[test]
fn test_valid_regex_for_balk() {
    test_valid_regex_for_play_type(
        PlayType::Balk,
        "[PLAY] Balk [PITCHER] A",
    );
}

#[test]
fn test_valid_regex_for_passed_ball() {
    test_valid_regex_for_play_type(
        PlayType::PassedBall,
        "[PLAY] Passed Ball [PITCHER] A [CATCHER] B",
    );
}

#[test]
fn test_valid_regex_for_error() {
    test_valid_regex_for_play_type(
        PlayType::Error,
        "[PLAY] Error [PITCHER] A [CATCHER] B",
    );
}

#[test]
fn test_valid_regex_for_single() {
    test_valid_regex_for_play_type(
        PlayType::Single,
        "[PLAY] Single [BATTER] A [PITCHER] B",
    );
}

#[test]
fn test_valid_regex_for_double() {
    test_valid_regex_for_play_type(
        PlayType::Double,
        "[PLAY] Double [BATTER] A [PITCHER] B",
    );
}

#[test]
fn test_valid_regex_for_triple() {
    test_valid_regex_for_play_type(
        PlayType::Triple,
        "[PLAY] Triple [BATTER] A [PITCHER] B",
    );
}

#[test]
fn test_valid_regex_for_home_run() {
    test_valid_regex_for_play_type(
        PlayType::HomeRun,
        "[PLAY] Home Run [BATTER] A [PITCHER] B",
    );
}

#[test]
fn test_valid_regex_for_walk() {
    test_valid_regex_for_play_type(
        PlayType::Walk,
        "[PLAY] Walk [BATTER] A [PITCHER] B",
    );
}

#[test]
fn test_valid_regex_for_intent_walk() {
    test_valid_regex_for_play_type(
        PlayType::IntentWalk,
        "[PLAY] Intent Walk [BATTER] A [PITCHER] B",
    );
}

#[test]
fn test_valid_regex_for_hit_by_pitch() {
    test_valid_regex_for_play_type(
        PlayType::HitByPitch,
        "[PLAY] Hit By Pitch [BATTER] A [PITCHER] B",
    );
}

#[test]
fn test_valid_regex_for_fielders_choice() {
    test_valid_regex_for_play_type(
        PlayType::FieldersChoice,
        "[PLAY] Fielders Choice [BATTER] A [PITCHER] B [FIELDERS] C, D",
    );
}

#[test]
fn test_valid_regex_for_catcher_interference() {
    test_valid_regex_for_play_type(
        PlayType::CatcherInterference,
        "[PLAY] Catcher Interference [BATTER] A [PITCHER] B [FIELDERS] C, D",
    );
}

#[test]
fn test_valid_regex_for_stolen_base() {
    test_valid_regex_for_play_type(
        PlayType::StolenBase,
        "[PLAY] Stolen Base [BASE] 1 [SCORING_RUNNER] A",
    );
}

#[test]
fn test_valid_regex_for_sac_fly() {
    test_valid_regex_for_play_type(
        PlayType::SacFly,
        "[PLAY] Sac Fly [BATTER] A [PITCHER] B [FIELDERS] C, D [SCORING_RUNNER] E",
    );
}

#[test]
fn test_valid_regex_for_sac_fly_double_play() {
    test_valid_regex_for_play_type(
        PlayType::SacFlyDoublePlay,
        "[PLAY] Sac Fly Double Play [BATTER] A [PITCHER] B [FIELDERS] C, D [SCORING_RUNNER] E",
    );
}

#[test]
fn test_valid_regex_for_sac_bunt() {
    test_valid_regex_for_play_type(
        PlayType::SacBunt,
        "[PLAY] Sac Bunt [BATTER] A [PITCHER] B [FIELDERS] C, D [RUNNER] E",
    );
}

#[test]
fn test_valid_regex_for_sac_bunt_double_play() {
    test_valid_regex_for_play_type(
        PlayType::SacBuntDoublePlay,
        "[PLAY] Sac Bunt Double Play [BATTER] A [PITCHER] B [FIELDERS] C, D [RUNNER] E",
    );
}

#[test]
fn test_valid_regex_for_field_error() {
    test_valid_regex_for_play_type(
        PlayType::FieldError,
        "[PLAY] Field Error [BATTER] A [PITCHER] B [FIELDERS] C, D",
    );
}

#[test]
fn test_valid_regex_for_game_advisory() {
    test_valid_regex_for_play_type(
        PlayType::GameAdvisory,
        "[PLAY] Game Advisory",
    );
}

#[test]
fn test_valid_regex_for_movement_from_home() {
    let parser = Parser::new(false);
    let regex = parser.movements_regex();
    let regex = Regex::new(&regex).unwrap();

    let input = "[MOVEMENTS] A home -> 1";
    let is_match = regex.is_match(input).unwrap();
    assert!(is_match);
}

#[test]
fn test_valid_regex_for_movement_from_first() {
    let mut parser = Parser::new(false);
    parser.live_game_state.runner_positions.first = Some("B".to_string());

    let regex = parser.movements_regex();
    let regex = Regex::new(&regex).unwrap();

    let input = "[MOVEMENTS] B 1 -> 2";
    let is_match = regex.is_match(input).unwrap();
    assert!(is_match);
}

#[test]
fn test_valid_regex_for_movement_from_first_with_out() {
    let mut parser = Parser::new(false);
    parser.live_game_state.runner_positions.first = Some("B".to_string());

    let regex = parser.movements_regex();
    let regex = Regex::new(&regex).unwrap();

    let input = "[MOVEMENTS] B 1 -> 2 [out]";
    let is_match = regex.is_match(input).unwrap();
    assert!(is_match);
}

#[test]
fn test_valid_regex_for_multiple_movements() {
    let mut parser = Parser::new(false);
    parser.live_game_state.runner_positions.first = Some("B".to_string());

    let regex = parser.movements_regex();
    let regex = Regex::new(&regex).unwrap();

    let input = "[MOVEMENTS] A home -> 1, B 1 -> 2 [out]";
    let is_match = regex.is_match(input).unwrap();
    assert!(is_match);
}

#[test]
fn valid_regex_matches_whole_transcript_and_parser_finishes() {
    let transcript = "[GAME] 766493 [DATE] 2024-03-24 [VENUE] Estadio Alfredo Harp Helu [WEATHER] Sunny 85 9\n\n[TEAM] 20\n[SECOND_BASE] Robinson Canó\n\n[TEAM] 147\n[THIRD_BASE] DJ LeMahieu\n\n[GAME_START]\n[INNING] 1 top [PLAY] Lineout [BATTER] Anthony Volpe [PITCHER] Trevor Bauer [FIELDERS] Aristides Aquino [MOVEMENTS] Anthony Volpe home -> home [out];\n[GAME_END]";

    let fresh = Parser::new(false);
    let pattern = fresh.valid_regex();
    let anchored = format!("^(?:{})$", pattern);
    let regex = Regex::new(&anchored).unwrap();
    assert!(regex.is_match(transcript).unwrap());

    let mut parser = Parser::new(false);
    let result = parser.parse_input(transcript);
    assert!(result.is_ok());
    assert!(parser.finished);
    assert!(parser.complete().is_some());
}

#[test]
fn valid_regex_is_closed_by_game_end_marker() {
    let parser = Parser::new(false);
    let pattern = parser.valid_regex();
    assert!(pattern.ends_with("\\[GAME_END\\]"));
    let regex = Regex::new(&pattern).unwrap();
    assert!(!regex.is_match("no transcript at all").unwrap());
}

