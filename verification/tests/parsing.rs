use mlb_parser::content::{Movement, PlayContent};
use mlb_parser::ontology::{Base, Inning, Position, TopBottom};
use mlb_parser::parser::{ContextSection, GameSection, Parser};

#[test]
fn parse_game_pk() {
    let mut parser = Parser::new(false);
    let input = "[GAME] 766493";
    let _ = parser.parse_input(input);

    if let Some(game_pk) = parser.game_builder.game_pk {
        assert_eq!(game_pk, 766493);
    } else {
        panic!("game_pk is None");
    }
}

#[test]
fn parse_date() {
    let mut parser = Parser::new(false);
    let input = "[GAME] 766493 [DATE] 2024-03-24";

    let _ = parser.parse_input(input);

    if let Some(date) = parser.game_builder.date {
        assert_eq!(date, "2024-03-24");
    } else {
        panic!("date is None");
    }
}

#[test]
fn parse_partial_input_is_ok() {
    let mut parser = Parser::new(false);
    let input = "[GAM";
    let result = parser.parse_input(input);

    assert!(result.is_ok());
    assert_eq!(
        parser.possible_sections,
        vec![GameSection::Context(ContextSection::Game)]
    );

    let input = "E] 766493";
    let _ = parser.parse_input(input);

    if let Some(game_pk) = parser.game_builder.game_pk {
        assert_eq!(game_pk, 766493);
    } else {
        panic!("game_pk is None");
    }
}

#[test]
fn parse_entire_context_section() {
    let mut parser = Parser::new(false);
    let input = "[GAME] 766493 [DATE] 2024-03-24 [VENUE] Estadio Alfredo Harp Helu [WEATHER] Sunny 85 9";

    let _ = parser.parse_input(input);

    if let Some(game_pk) = parser.game_builder.game_pk {
        assert_eq!(game_pk, 766493);
    } else {
        panic!("game_pk is None");
    }

    if let Some(date) = parser.game_builder.date {
        assert_eq!(date, "2024-03-24");
    } else {
        panic!("date is None");
    }

    if let Some(venue) = parser.game_builder.venue {
        assert_eq!(venue, "Estadio Alfredo Harp Helu");
    } else {
        panic!("venue is None");
    }

    if let Some(weather_condition) = parser.game_builder.weather_condition {
        assert_eq!(weather_condition, "Sunny");
    } else {
        panic!("weather_condition is None");
    }

    if let Some(temperature) = parser.game_builder.weather_temperature {
        assert_eq!(temperature, 85);
    } else {
        panic!("temperature is None");
    }

    if let Some(wind_speed) = parser.game_builder.weather_wind_speed {
        assert_eq!(wind_speed, 9);
    } else {
        panic!("wind_speed is None");
    }
}

#[test]
fn parse_home_team_section() {
    let mut parser = Parser::new(false);
    let input = "[GAME] 0 [DATE] 0000-00-00 [VENUE] venue [WEATHER] weather 0 0\n\n[TEAM] 20\n[SECOND_BASE] Robinson Canó\n[PITCHER] Arturo Lopez [";

    let _ = parser.parse_input(input);

    if let Some(home_team_id) = parser.game_builder.home_team_id {
        assert_eq!(home_team_id, 20);
    } else {
        panic!("home_team_id is None");
    }

    assert!(!parser.game_builder.home_team_players.is_empty());

    assert_eq!(
        parser.game_builder.home_team_players[0].position,
        Position::SecondBase
    );
    assert_eq!(parser.game_builder.home_team_players[0].name, "Robinson Canó");

    assert_eq!(
        parser.game_builder.home_team_players[1].position,
        Position::Pitcher
    );
    assert_eq!(parser.game_builder.home_team_players[1].name, "Arturo Lopez");
}

#[test]
fn parse_away_team_section() {
    let mut parser = Parser::new(false);
    let input = "[GAME] 0 [DATE] 0000-00-00 [VENUE] venue [WEATHER] weather 0 0\n\n[TEAM] 20\n[SECOND_BASE] Robinson Canó\n[PITCHER] Arturo Lopez [TEAM] 147 [THIRD_BASE] DJ LeMahieu [FIRST_BASE] Anthony Rizzo [";

    let _ = parser.parse_input(input);

    if let Some(away_team_id) = parser.game_builder.away_team_id {
        assert_eq!(away_team_id, 147);
    } else {
        panic!("away_team_id is None");
    }

    assert!(!parser.game_builder.away_team_players.is_empty());

    assert_eq!(
        parser.game_builder.away_team_players[0].position,
        Position::ThirdBase
    );
    assert_eq!(parser.game_builder.away_team_players[0].name, "DJ LeMahieu");

    assert_eq!(
        parser.game_builder.away_team_players[1].position,
        Position::FirstBase
    );
    assert_eq!(parser.game_builder.away_team_players[1].name, "Anthony Rizzo");
}

#[test]
fn parse_simple_play() {
    let mut parser = Parser::new(false);
    let input = "[GAME] 766493 [DATE] 2024-03-24 [VENUE] Estadio Alfredo Harp Helu [WEATHER] Sunny 85 9 [TEAM] 20 [SECOND_BASE] Robinson Canó [TEAM] 147 [THIRD_BASE] DJ LeMahieu [GAME_START] [INNING] 1 top [PLAY] Lineout [BATTER] Anthony Volpe [PITCHER] Trevor Bauer [FIELDERS] Aristides Aquino [MOVEMENTS] Anthony Volpe home -> home [out];";

    let _ = parser.parse_input(input);

    if let Some(play) = parser.game_builder.plays.iter().next() {
        assert!(
            play.inning
                == Inning {
                    number: 1,
                    top_bottom: TopBottom::Top
                }
        );
        assert!(
            play.play_content
                == PlayContent::Lineout {
                    batter: "Anthony Volpe".to_string(),
                    pitcher: "Trevor Bauer".to_string(),
                    fielders: vec!["Aristides Aquino".to_string()],
                }
        );
        assert!(
            play.movements
                == vec![Movement {
                    runner: "Anthony Volpe".to_string(),
                    from: Base::Home,
                    to: Base::Home,
                    out: true,
                }]
        );
    } else {
        panic!("play is None");
    }
}

#[test]
fn parse_complex_play() {
    let mut parser = Parser::new(false);
    let input = "[GAME] 766493 [DATE] 2024-03-24 [VENUE] Estadio Alfredo Harp Helu [WEATHER] Sunny 85 9 [TEAM] 20 [SECOND_BASE] Robinson Canó [TEAM] 147 [THIRD_BASE] DJ LeMahieu [GAME_START] [INNING] 1 top [PLAY] Groundout [BATTER] Juan Carlos Gamboa [PITCHER] Tanner Tully [FIELDERS] Tanner Tully, Trevor Bauer [MOVEMENTS] Juan Carlos Gamboa home -> home [out], Xavier Fernández home -> 2;";

    let _ = parser.parse_input(input);

    if let Some(play) = parser.game_builder.plays.iter().next() {
        assert!(
            play.inning
                == Inning {
                    number: 1,
                    top_bottom: TopBottom::Top
                }
        );
        assert!(
            play.play_content
                == PlayContent::Groundout {
                    batter: "Juan Carlos Gamboa".to_string(),
                    pitcher: "Tanner Tully".to_string(),
                    fielders: vec!["Tanner Tully".to_string(), "Trevor Bauer".to_string()],
                }
        );
        assert!(
            play.movements
                == vec![
                    Movement {
                        runner: "Juan Carlos Gamboa".to_string(),
                        from: Base::Home,
                        to: Base::Home,
                        out: true,
                    },
                    Movement {
                        runner: "Xavier Fernández".to_string(),
                        from: Base::Home,
                        to: Base::Second,
                        out: false,
                    },
                ]
        );
    } else {
        panic!("play is None");
    }
}

#[test]
fn parse_very_broken_up_input() {
    let mut parser = Parser::new(false);

    let _ = parser.parse_input("[GAM");
    let _ = parser.parse_input("E] 766");
    let _ = parser.parse_input("493 [DATE] 2024-");
    let _ = parser.parse_input("03-2");
    let _ = parser.parse_input("4 [VENUE] E");
    let _ = parser.parse_input("stadio Alfred");
    let _ = parser.parse_input("o Harp Helu [WEATHER] Sun");
    let _ = parser.parse_input("ny 8");
    let _ = parser.parse_input("5 9");
    let _ = parser.parse_input("1");

    let _ = parser.parse_input(" [TEAM] 20 [SECOND_BASE] Rob");
    let _ = parser.parse_input("inson Canó [TEAM] 14");
    let _ = parser.parse_input("7 [THIRD_BASE] DJ LeMahieu [FIRST_BA");
    let _ = parser.parse_input("SE] Anthony Rizzo [");
    let _ = parser.parse_input("GAME_START] [INNING] 1 t");
    let _ = parser.parse_input("op [PLAY] Line");
    let _ = parser.parse_input("out [BATTER] Anthony Volp");
    let _ = parser.parse_input("e [PITCHER] Trevor Bauer [FIELDERS] Aristides Aquino");
    let _ = parser.parse_input(", Kris Bry");
    let _ = parser.parse_input("ant [MOVEMENTS] Anthony Volpe home");
    let _ = parser.parse_input(" -> home");
    let _ = parser.parse_input(" [out];");

    if let Some(game_pk) = parser.game_builder.game_pk {
        assert_eq!(game_pk, 766493);
    } else {
        panic!("game_pk is None");
    }

    if let Some(date) = parser.game_builder.date {
        assert_eq!(date, "2024-03-24");
    } else {
        panic!("date is None");
    }

    if let Some(venue) = parser.game_builder.venue {
        assert_eq!(venue, "Estadio Alfredo Harp Helu");
    } else {
        panic!("venue is None");
    }

    if let Some(weather_condition) = parser.game_builder.weather_condition {
        assert_eq!(weather_condition, "Sunny");
    } else {
        panic!("weather_condition is None");
    }

    if let Some(weather_temperature) = parser.game_builder.weather_temperature {
        assert_eq!(weather_temperature, 85);
    } else {
        panic!("weather_temperature is None");
    }

    if let Some(weather_wind_speed) = parser.game_builder.weather_wind_speed {
        assert_eq!(weather_wind_speed, 91);
    } else {
        panic!("weather_wind_speed is None");
    }

    if let Some(home_team_id) = parser.game_builder.home_team_id {
        assert_eq!(home_team_id, 20);
    } else {
        panic!("home_team_id is None");
    }

    assert!(parser.game_builder.home_team_players.len() == 1);
    assert_eq!(
        parser.game_builder.home_team_players[0].position,
        Position::SecondBase
    );
    assert_eq!(parser.game_builder.home_team_players[0].name, "Robinson Canó");

    if let Some(away_team_id) = parser.game_builder.away_team_id {
        assert_eq!(away_team_id, 147);
    } else {
        panic!("away_team_id is None");
    }

    assert!(parser.game_builder.away_team_players.len() == 2);
    assert_eq!(
        parser.game_builder.away_team_players[0].position,
        Position::ThirdBase
    );
    assert_eq!(parser.game_builder.away_team_players[0].name, "DJ LeMahieu");
    assert_eq!(
        parser.game_builder.away_team_players[1].position,
        Position::FirstBase
    );
    assert_eq!(parser.game_builder.away_team_players[1].name, "Anthony Rizzo");

    assert!(parser.game_builder.plays.len() == 1);
    assert!(
        parser.game_builder.plays[0].inning
            == Inning {
                number: 1,
                top_bottom: TopBottom::Top
            }
    );
    assert!(
        parser.game_builder.plays[0].play_content
            == PlayContent::Lineout {
                batter: "Anthony Volpe".to_string(),
                pitcher: "Trevor Bauer".to_string(),
                fielders: vec!["Aristides Aquino".to_string(), "Kris Bryant".to_string(),],
            }
    );
    assert!(
        parser.game_builder.plays[0].movements
            == vec![Movement {
                runner: "Anthony Volpe".to_string(),
                from: Base::Home,
                to: Base::Home,
                out: true,
            },]
    );
}

#[test]
fn test_valid_pinch_runner() {
    let mut parser = Parser::new(false);
    let input = "[GAME] 0 [DATE] 0000-00-00 [VENUE] example [WEATHER] example 0 0\n\n[TEAM] 1\n[PITCHER] Person A\n[PINCH_RUNNER] Person B\n\n[TEAM] 2\n[PITCHER] Person C\n\n[GAME_START]\n[INNING] 1 top [PLAY] Single [BATTER] Person D [PITCHER] Person E [MOVEMENTS] Person D home -> 1;\n[INNING] 1 top [PLAY] Single [BATTER] Person Z [PITCHER] Person E [MOVEMENTS] Person Z home -> 1, Person B 1 -> 2;\n[GAME_END]";

    let result = parser.parse_input(input);

    assert!(parser.finished);
    assert!(result.is_ok());
}

#[test]
fn test_invalid_pinch_runner() {
    let mut parser = Parser::new(false);
    let input = "[GAME] 0 [DATE] 0000-00-00 [VENUE] example [WEATHER] example 0 0\n\n[TEAM] 1\n[PITCHER] Person A\n\n[TEAM] 2\n[PITCHER] Person C\n\n[GAME_START]\n[INNING] 1 top [PLAY] Single [BATTER] Person D [PITCHER] Person E [MOVEMENTS] Person D home -> 1;\n[INNING] 1 top [PLAY] Single [BATTER] Person Z [PITCHER] Person E [MOVEMENTS] Person Z home -> 1, Person B 1 -> 2;\n[GAME_END]";

    println!("input: {}\n\n=====\n\n", input);
    let result = parser.parse_input(input);

    assert!(result.is_err());
}

#[test]
fn minimal_game_advisory() {
    let mut parser = Parser::new(false);
    let input = "[GAME] 1 [DATE] 2024-03-24 [VENUE] Estadio [WEATHER] Sunny 85 9 [TEAM] 20 [SECOND_BASE] Robinson Canó [TEAM] 147 [THIRD_BASE] DJ LeMahieu [GAME_START] [INNING] 1 top [PLAY] Game Advisory [GAME_END]";

    let result = parser.parse_input(input);

    assert!(result.is_ok());
    assert!(parser.finished);
    assert_eq!(parser.game_builder.plays.len(), 1);
    assert!(parser.game_builder.plays[0].play_content == PlayContent::GameAdvisory);
    assert!(parser.game_builder.plays[0].movements.is_empty());

    let game = parser.complete().expect("game should be complete");
    assert_eq!(game.plays.len(), 1);
    assert_eq!(game.context.game_pk, 1);
    assert_eq!(game.home_team.team_id, 20);
    assert_eq!(game.away_team.team_id, 147);
}

#[test]
fn complete_is_none_before_game_end() {
    let mut parser = Parser::new(false);
    let _ = parser.parse_input("[GAME] 766493 [DATE] 2024-03-24");
    assert!(!parser.finished);
    assert!(parser.complete().is_none());
}

#[test]
fn chunk_oblivious_char_by_char() {
    let input = "[GAME] 766493 [DATE] 2024-03-24 [VENUE] Estadio Alfredo Harp Helu [WEATHER] Sunny 85 9\n\n[TEAM] 20\n[SECOND_BASE] Robinson Canó\n\n[TEAM] 147\n[THIRD_BASE] DJ LeMahieu\n\n[GAME_START]\n[INNING] 1 top [PLAY] Lineout [BATTER] Anthony Volpe [PITCHER] Trevor Bauer [FIELDERS] Aristides Aquino [MOVEMENTS] Anthony Volpe home -> home [out];\n[GAME_END]";

    let mut whole = Parser::new(false);
    let whole_result = whole.parse_input(input);
    assert!(whole_result.is_ok());
    assert!(whole.finished);

    let mut chunked = Parser::new(false);
    for c in input.chars() {
        let piece: String = c.to_string();
        let r = chunked.parse_input(&piece);
        assert!(r.is_ok());
    }
    assert!(chunked.finished);

    assert_eq!(whole.game_builder.game_pk, chunked.game_builder.game_pk);
    assert_eq!(whole.game_builder.date, chunked.game_builder.date);
    assert_eq!(whole.game_builder.venue, chunked.game_builder.venue);
    assert_eq!(
        whole.game_builder.weather_condition,
        chunked.game_builder.weather_condition
    );
    assert_eq!(
        whole.game_builder.home_team_id,
        chunked.game_builder.home_team_id
    );
    assert_eq!(
        whole.game_builder.away_team_id,
        chunked.game_builder.away_team_id
    );
    assert_eq!(
        whole.game_builder.plays.len(),
        chunked.game_builder.plays.len()
    );
    for (a, b) in whole
        .game_builder
        .plays
        .iter()
        .zip(chunked.game_builder.plays.iter())
    {
        assert!(a.inning == b.inning);
        assert!(a.play_content == b.play_content);
        assert!(a.movements == b.movements);
    }
}

#[test]
fn inning_side_change_resets_occupancy() {
    let mut parser = Parser::new(false);
    let input = "[GAME] 0 [DATE] 0000-00-00 [VENUE] example [WEATHER] example 0 0 [TEAM] 1 [PITCHER] Person A [TEAM] 2 [PITCHER] Person C [GAME_START] [INNING] 1 top [PLAY] Single [BATTER] Person D [PITCHER] Person E [MOVEMENTS] Person D home -> 1;";
    let result = parser.parse_input(input);
    assert!(result.is_ok());
    assert!(parser.movements_regex().contains(" 1 -> "));

    // Committing the bottom-half inning header clears the bases.
    let result = parser.parse_input("\n[INNING] 1 bottom [PLAY] Single [BATTER]");
    assert!(result.is_ok());
    assert!(!parser.movements_regex().contains(" 1 -> "));
}

#[test]
fn parse_multi_word_weather_condition() {
    let mut parser = Parser::new(false);
    let input = "[GAME] 1 [DATE] 2024-03-24 [VENUE] Estadio [WEATHER] Partly Cloudy 85 9 [TEAM] 20";
    let _ = parser.parse_input(input);
    assert_eq!(parser.game_builder.weather_condition, Some("Partly Cloudy".to_string()));
    assert_eq!(parser.game_builder.weather_temperature, Some(85));
    assert_eq!(parser.game_builder.weather_wind_speed, Some(9));
}

#[test]
fn movement_base_token_four_is_home() {
    let mut parser = Parser::new(false);
    let input = "[GAME] 1 [DATE] 2024-03-24 [VENUE] Estadio [WEATHER] Sunny 85 9 [TEAM] 20 [SECOND_BASE] A [TEAM] 147 [THIRD_BASE] B [GAME_START] [INNING] 1 top [PLAY] Home Run [BATTER] C [PITCHER] D [MOVEMENTS] C home -> 4;";
    let result = parser.parse_input(input);
    assert!(result.is_ok());
    assert_eq!(parser.game_builder.plays.len(), 1);
    assert!(
        parser.game_builder.plays[0].movements
            == vec![Movement {
                runner: "C".to_string(),
                from: Base::Home,
                to: Base::Home,
                out: false,
            }]
    );
}
