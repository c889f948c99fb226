use core::cmp::Ordering;

use mlb_parser::ontology::{Base, BaseComparison, Position, TopBottom};
use mlb_parser::play_type::PlayType;

#[test]
fn position_round_trip_concrete() {
    let all = [
        Position::Pitcher,
        Position::Catcher,
        Position::FirstBase,
        Position::SecondBase,
        Position::ThirdBase,
        Position::Shortstop,
        Position::LeftField,
        Position::CenterField,
        Position::RightField,
        Position::DesignatedHitter,
        Position::PinchHitter,
        Position::PinchRunner,
        Position::TwoWayPlayer,
        Position::Outfield,
        Position::Infield,
        Position::Utility,
        Position::ReliefPitcher,
        Position::StartingPitcher,
    ];
    for p in all {
        let text = p.text();
        assert_eq!(Position::from_text(&text), Some(p));
    }
}

#[test]
fn play_type_round_trip_concrete() {
    let all = [
        PlayType::Groundout,
        PlayType::BuntGroundout,
        PlayType::Strikeout,
        PlayType::Lineout,
        PlayType::BuntLineout,
        PlayType::Flyout,
        PlayType::PopOut,
        PlayType::BuntPopOut,
        PlayType::Forceout,
        PlayType::FieldersChoiceOut,
        PlayType::DoublePlay,
        PlayType::TriplePlay,
        PlayType::RunnerDoublePlay,
        PlayType::RunnerTriplePlay,
        PlayType::GroundedIntoDoublePlay,
        PlayType::StrikeoutDoublePlay,
        PlayType::Pickoff,
        PlayType::PickoffError,
        PlayType::CaughtStealing,
        PlayType::PickoffCaughtStealing,
        PlayType::WildPitch,
        PlayType::RunnerOut,
        PlayType::FieldOut,
        PlayType::BatterOut,
        PlayType::Balk,
        PlayType::PassedBall,
        PlayType::Error,
        PlayType::Single,
        PlayType::Double,
        PlayType::Triple,
        PlayType::HomeRun,
        PlayType::Walk,
        PlayType::IntentWalk,
        PlayType::HitByPitch,
        PlayType::FieldersChoice,
        PlayType::CatcherInterference,
        PlayType::StolenBase,
        PlayType::SacFly,
        PlayType::SacFlyDoublePlay,
        PlayType::SacBunt,
        PlayType::SacBuntDoublePlay,
        PlayType::FieldError,
        PlayType::GameAdvisory,
    ];
    for t in all {
        let text = t.text();
        assert_eq!(PlayType::from_text(&text), Some(t));
    }
}

#[test]
fn base_round_trip_concrete() {
    for b in [Base::Home, Base::First, Base::Second, Base::Third] {
        let text = b.text();
        assert_eq!(Base::from_text(&text), Some(b));
    }
    // The surface token 4 is an alias for home.
    assert_eq!(Base::from_text("4"), Some(Base::Home));
    assert_eq!(Base::from_text("5"), None);
}

#[test]
fn top_bottom_round_trip_concrete() {
    for t in [TopBottom::Top, TopBottom::Bottom] {
        let text = t.text();
        assert_eq!(TopBottom::from_text(&text), Some(t));
    }
    assert_eq!(TopBottom::from_text("middle"), None);
}

#[test]
fn position_spellings_are_exact() {
    assert_eq!(Position::Pitcher.text(), "PITCHER");
    assert_eq!(Position::DesignatedHitter.text(), "DESIGNATED_HITTER");
    assert_eq!(PlayType::GroundedIntoDoublePlay.text(), "Grounded Into Double Play");
    assert_eq!(PlayType::PopOut.text(), "Pop Out");
}

#[test]
fn base_compare_orders_home_by_direction() {
    // As a starting base, home sorts before everything.
    assert_eq!(
        Base::Home.compare(&Base::Third, BaseComparison::From),
        Ordering::Less
    );
    assert_eq!(
        Base::Third.compare(&Base::Home, BaseComparison::From),
        Ordering::Greater
    );
    // As an ending base, home sorts after everything.
    assert_eq!(
        Base::Home.compare(&Base::Third, BaseComparison::To),
        Ordering::Greater
    );
    assert_eq!(
        Base::First.compare(&Base::Second, BaseComparison::To),
        Ordering::Less
    );
    assert_eq!(
        Base::Second.compare(&Base::Second, BaseComparison::From),
        Ordering::Equal
    );
}

#[test]
fn requirement_predicates_match_play_shapes() {
    assert!(PlayType::Groundout.requires_batter());
    assert!(PlayType::Groundout.requires_pitcher());
    assert!(PlayType::Groundout.requires_fielders());
    assert!(!PlayType::Groundout.requires_base());
    assert!(PlayType::Pickoff.requires_base());
    assert!(PlayType::Pickoff.requires_fielders());
    assert!(PlayType::Pickoff.requires_runner());
    assert!(PlayType::StolenBase.requires_base());
    assert!(PlayType::StolenBase.requires_scoring_runner());
    assert!(!PlayType::StolenBase.requires_runner());
    assert!(PlayType::Balk.requires_pitcher());
    assert!(!PlayType::Balk.requires_batter());
    assert!(!PlayType::GameAdvisory.requires_pitcher());
}

