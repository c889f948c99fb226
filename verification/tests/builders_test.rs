use mlb_parser::builders::{GameBuilder, MovementBuilder, PlayBuilder};
use mlb_parser::content::PlayContent;
use mlb_parser::ontology::{Base, Inning, TopBottom};
use mlb_parser::play_type::PlayType;

#[test]
fn movement_builder_requires_each_slot() {
    let mut builder = MovementBuilder::new();
    assert_eq!(builder.build().unwrap_err(), "Runner is required, not set");
    builder.set_runner("A".to_string());
    assert_eq!(builder.build().unwrap_err(), "From is required, not set");
    builder.set_from(Base::Home);
    assert_eq!(builder.build().unwrap_err(), "To is required, not set");
    builder.set_to(Base::First);
    let movement = builder.build().unwrap();
    assert_eq!(movement.runner, "A");
    assert!(movement.from == Base::Home);
    assert!(movement.to == Base::First);
    assert!(!movement.out);
    builder.set_out();
    assert!(builder.build().unwrap().out);
}

#[test]
fn play_builder_fails_without_required_slot() {
    let mut builder = PlayBuilder::new();
    assert!(builder.build().is_none());
    builder.set_inning(Inning {
        number: 1,
        top_bottom: TopBottom::Top,
    });
    builder.set_play_type(PlayType::Strikeout);
    builder.set_batter("A".to_string());
    // The pitcher is still missing.
    assert!(builder.build().is_none());
    builder.set_pitcher("B".to_string());
    let play = builder.build().unwrap();
    assert!(
        play.play_content
            == PlayContent::Strikeout {
                batter: "A".to_string(),
                pitcher: "B".to_string(),
            }
    );
}

#[test]
fn play_builder_populates_stolen_base_from_scoring_runner() {
    let mut builder = PlayBuilder::new();
    builder.set_inning(Inning {
        number: 3,
        top_bottom: TopBottom::Bottom,
    });
    builder.set_play_type(PlayType::StolenBase);
    builder.set_base(Base::Second);
    assert!(builder.build().is_none());
    builder.set_scoring_runner("E".to_string());
    let play = builder.build().unwrap();
    assert!(
        play.play_content
            == PlayContent::StolenBase {
                base: Base::Second,
                scoring_runner: "E".to_string(),
            }
    );
}

#[test]
fn play_builder_populates_sac_bunt_from_runner() {
    let mut builder = PlayBuilder::new();
    builder.set_inning(Inning {
        number: 3,
        top_bottom: TopBottom::Top,
    });
    builder.set_play_type(PlayType::SacBunt);
    builder.set_batter("A".to_string());
    builder.set_pitcher("B".to_string());
    builder.add_fielder("C".to_string());
    builder.set_runner("E".to_string());
    let play = builder.build().unwrap();
    assert!(
        play.play_content
            == PlayContent::SacBunt {
                batter: "A".to_string(),
                pitcher: "B".to_string(),
                fielders: vec!["C".to_string()],
                runner: "E".to_string(),
            }
    );
}

#[test]
fn build_movement_appends_and_resets() {
    let mut builder = PlayBuilder::new();
    builder.movement_builder.set_runner("A".to_string());
    builder.movement_builder.set_from(Base::Home);
    builder.movement_builder.set_to(Base::First);
    assert!(builder.build_movement().is_ok());
    assert_eq!(builder.movements.len(), 1);
    assert_eq!(builder.movements[0].runner, "A");
    // The movement builder is fresh again.
    assert!(builder.movement_builder.build().is_err());
}

#[test]
fn game_builder_requires_all_context_fields() {
    let mut builder = GameBuilder::new();
    builder.set_game_pk(7);
    builder.set_date("2024-03-24".to_string());
    builder.set_venue("Estadio".to_string());
    builder.set_weather("Sunny".to_string(), 85, 9);
    builder.set_home_team_id(20);
    assert!(builder.build().is_none());
    builder.set_away_team_id(147);
    let game = builder.build().unwrap();
    assert_eq!(game.context.game_pk, 7);
    assert_eq!(game.context.date, "2024-03-24");
    assert_eq!(game.context.weather.condition, "Sunny");
    assert_eq!(game.context.weather.temperature, 85);
    assert_eq!(game.context.weather.wind_speed, 9);
    assert_eq!(game.home_team.team_id, 20);
    assert_eq!(game.away_team.team_id, 147);
    assert!(game.plays.is_empty());
}
