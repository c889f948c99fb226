//! The typed domain tree a parsed transcript builds: play contents,
//! movements, plays, teams and the finished game, each with a ghost view
//! that the contracts speak of.

use vstd::prelude::*;

use crate::ontology::{Base, Inning, Position};

verus! {

/// The weather triple of the game context.
#[derive(Clone, Debug)]
pub struct Weather {
    pub condition: String,
    pub temperature: u64,
    pub wind_speed: u64,
}

/// The mathematical image of a `Weather`.
pub ghost struct WeatherV {
    pub condition: Seq<char>,
    pub temperature: u64,
    pub wind_speed: u64,
}

impl View for Weather {
    type V = WeatherV;

    open spec fn view(&self) -> WeatherV {
        WeatherV {
            condition: self.condition@,
            temperature: self.temperature,
            wind_speed: self.wind_speed,
        }
    }
}

/// The fixed per-game context: identifier, date, venue and weather.
#[derive(Clone, Debug)]
pub struct Context {
    pub game_pk: u64,
    pub date: String,
    pub venue: String,
    pub weather: Weather,
}

/// The mathematical image of a `Context`.
pub ghost struct ContextV {
    pub game_pk: u64,
    pub date: Seq<char>,
    pub venue: Seq<char>,
    pub weather: WeatherV,
}

impl View for Context {
    type V = ContextV;

    open spec fn view(&self) -> ContextV {
        ContextV {
            game_pk: self.game_pk,
            date: self.date@,
            venue: self.venue@,
            weather: self.weather@,
        }
    }
}

/// A rostered player: a position and a display name.
#[derive(Clone, Debug)]
pub struct Player {
    pub position: Position,
    pub name: String,
}

/// The mathematical image of a `Player`.
pub ghost struct PlayerV {
    pub position: Position,
    pub name: Seq<char>,
}

impl View for Player {
    type V = PlayerV;

    open spec fn view(&self) -> PlayerV {
        PlayerV { position: self.position, name: self.name@ }
    }
}

/// The views of a sequence of players.
pub open spec fn player_views(s: Seq<Player>) -> Seq<PlayerV> {
    s.map_values(|p: Player| p@)
}

/// A team: its identifier and its ordered roster.
#[derive(Clone, Debug)]
pub struct Team {
    pub team_id: u64,
    pub players: Vec<Player>,
}

/// The mathematical image of a `Team`.
pub ghost struct TeamV {
    pub team_id: u64,
    pub players: Seq<PlayerV>,
}

impl View for Team {
    type V = TeamV;

    open spec fn view(&self) -> TeamV {
        TeamV { team_id: self.team_id, players: player_views(self.players@) }
    }
}

/// The transition of one runner from one base to another, possibly ending
/// in an out.
#[derive(Clone, Debug, PartialEq, Eq, Hash)]
pub struct Movement {
    pub runner: String,
    pub from: Base,
    pub to: Base,
    pub out: bool,
}

/// The mathematical image of a `Movement`.
pub ghost struct MovementV {
    pub runner: Seq<char>,
    pub from: Base,
    pub to: Base,
    pub out: bool,
}

impl View for Movement {
    type V = MovementV;

    open spec fn view(&self) -> MovementV {
        MovementV { runner: self.runner@, from: self.from, to: self.to, out: self.out }
    }
}

/// The views of a sequence of movements.
pub open spec fn mviews(s: Seq<Movement>) -> Seq<MovementV> {
    s.map_values(|m: Movement| m@)
}

/// The content of a play: one variant per play type, each with exactly the
/// fields that type requires.
#[derive(Clone, Debug, PartialEq, Eq)]
pub enum PlayContent {
    Groundout {
        batter: String,
        pitcher: String,
        fielders: Vec<String>,
    },
    BuntGroundout {
        batter: String,
        pitcher: String,
        fielders: Vec<String>,
    },
    Strikeout {
        batter: String,
        pitcher: String,
    },
    Lineout {
        batter: String,
        pitcher: String,
        fielders: Vec<String>,
    },
    BuntLineout {
        batter: String,
        pitcher: String,
        fielders: Vec<String>,
    },
    Flyout {
        batter: String,
        pitcher: String,
        fielders: Vec<String>,
    },
    PopOut {
        batter: String,
        pitcher: String,
        fielders: Vec<String>,
    },
    BuntPopOut {
        batter: String,
        pitcher: String,
        fielders: Vec<String>,
    },
    Forceout {
        batter: String,
        pitcher: String,
        fielders: Vec<String>,
    },
    FieldersChoiceOut {
        batter: String,
        pitcher: String,
        fielders: Vec<String>,
        scoring_runner: String,
    },
    DoublePlay {
        batter: String,
        pitcher: String,
        fielders: Vec<String>,
    },
    TriplePlay {
        batter: String,
        pitcher: String,
        fielders: Vec<String>,
    },
    RunnerDoublePlay {
        batter: String,
        pitcher: String,
        fielders: Vec<String>,
    },
    RunnerTriplePlay {
        batter: String,
        pitcher: String,
        fielders: Vec<String>,
    },
    GroundedIntoDoublePlay {
        batter: String,
        pitcher: String,
        fielders: Vec<String>,
    },
    StrikeoutDoublePlay {
        batter: String,
        pitcher: String,
        fielders: Vec<String>,
    },
    Pickoff {
        base: Base,
        fielders: Vec<String>,
        runner: String,
    },
    PickoffError {
        base: Base,
        fielders: Vec<String>,
        runner: String,
    },
    CaughtStealing {
        base: Base,
        fielders: Vec<String>,
        runner: String,
    },
    PickoffCaughtStealing {
        base: Base,
        fielders: Vec<String>,
        runner: String,
    },
    WildPitch {
        pitcher: String,
        runner: String,
    },
    RunnerOut {
        fielders: Vec<String>,
        runner: String,
    },
    FieldOut {
        fielders: Vec<String>,
        runner: String,
    },
    BatterOut {
        batter: String,
        catcher: String,
    },
    Balk {
        pitcher: String,
    },
    PassedBall {
        pitcher: String,
        catcher: String,
    },
    Error {
        pitcher: String,
        catcher: String,
    },
    Single {
        batter: String,
        pitcher: String,
    },
    Double {
        batter: String,
        pitcher: String,
    },
    Triple {
        batter: String,
        pitcher: String,
    },
    HomeRun {
        batter: String,
        pitcher: String,
    },
    Walk {
        batter: String,
        pitcher: String,
    },
    IntentWalk {
        batter: String,
        pitcher: String,
    },
    HitByPitch {
        batter: String,
        pitcher: String,
    },
    FieldersChoice {
        batter: String,
        pitcher: String,
        fielders: Vec<String>,
    },
    CatcherInterference {
        batter: String,
        pitcher: String,
        fielders: Vec<String>,
    },
    StolenBase {
        base: Base,
        scoring_runner: String,
    },
    SacFly {
        batter: String,
        pitcher: String,
        fielders: Vec<String>,
        scoring_runner: String,
    },
    SacFlyDoublePlay {
        batter: String,
        pitcher: String,
        fielders: Vec<String>,
        scoring_runner: String,
    },
    SacBunt {
        batter: String,
        pitcher: String,
        fielders: Vec<String>,
        runner: String,
    },
    SacBuntDoublePlay {
        batter: String,
        pitcher: String,
        fielders: Vec<String>,
        runner: String,
    },
    FieldError {
        batter: String,
        pitcher: String,
        fielders: Vec<String>,
    },
    GameAdvisory,
}

/// The mathematical image of a `PlayContent`: names as character
/// sequences, fielder lists as sequences of names.
pub ghost enum PlayContentV {
    Groundout {
        batter: Seq<char>,
        pitcher: Seq<char>,
        fielders: Seq<Seq<char>>,
    },
    BuntGroundout {
        batter: Seq<char>,
        pitcher: Seq<char>,
        fielders: Seq<Seq<char>>,
    },
    Strikeout {
        batter: Seq<char>,
        pitcher: Seq<char>,
    },
    Lineout {
        batter: Seq<char>,
        pitcher: Seq<char>,
        fielders: Seq<Seq<char>>,
    },
    BuntLineout {
        batter: Seq<char>,
        pitcher: Seq<char>,
        fielders: Seq<Seq<char>>,
    },
    Flyout {
        batter: Seq<char>,
        pitcher: Seq<char>,
        fielders: Seq<Seq<char>>,
    },
    PopOut {
        batter: Seq<char>,
        pitcher: Seq<char>,
        fielders: Seq<Seq<char>>,
    },
    BuntPopOut {
        batter: Seq<char>,
        pitcher: Seq<char>,
        fielders: Seq<Seq<char>>,
    },
    Forceout {
        batter: Seq<char>,
        pitcher: Seq<char>,
        fielders: Seq<Seq<char>>,
    },
    FieldersChoiceOut {
        batter: Seq<char>,
        pitcher: Seq<char>,
        fielders: Seq<Seq<char>>,
        scoring_runner: Seq<char>,
    },
    DoublePlay {
        batter: Seq<char>,
        pitcher: Seq<char>,
        fielders: Seq<Seq<char>>,
    },
    TriplePlay {
        batter: Seq<char>,
        pitcher: Seq<char>,
        fielders: Seq<Seq<char>>,
    },
    RunnerDoublePlay {
        batter: Seq<char>,
        pitcher: Seq<char>,
        fielders: Seq<Seq<char>>,
    },
    RunnerTriplePlay {
        batter: Seq<char>,
        pitcher: Seq<char>,
        fielders: Seq<Seq<char>>,
    },
    GroundedIntoDoublePlay {
        batter: Seq<char>,
        pitcher: Seq<char>,
        fielders: Seq<Seq<char>>,
    },
    StrikeoutDoublePlay {
        batter: Seq<char>,
        pitcher: Seq<char>,
        fielders: Seq<Seq<char>>,
    },
    Pickoff {
        base: Base,
        fielders: Seq<Seq<char>>,
        runner: Seq<char>,
    },
    PickoffError {
        base: Base,
        fielders: Seq<Seq<char>>,
        runner: Seq<char>,
    },
    CaughtStealing {
        base: Base,
        fielders: Seq<Seq<char>>,
        runner: Seq<char>,
    },
    PickoffCaughtStealing {
        base: Base,
        fielders: Seq<Seq<char>>,
        runner: Seq<char>,
    },
    WildPitch {
        pitcher: Seq<char>,
        runner: Seq<char>,
    },
    RunnerOut {
        fielders: Seq<Seq<char>>,
        runner: Seq<char>,
    },
    FieldOut {
        fielders: Seq<Seq<char>>,
        runner: Seq<char>,
    },
    BatterOut {
        batter: Seq<char>,
        catcher: Seq<char>,
    },
    Balk {
        pitcher: Seq<char>,
    },
    PassedBall {
        pitcher: Seq<char>,
        catcher: Seq<char>,
    },
    Error {
        pitcher: Seq<char>,
        catcher: Seq<char>,
    },
    Single {
        batter: Seq<char>,
        pitcher: Seq<char>,
    },
    Double {
        batter: Seq<char>,
        pitcher: Seq<char>,
    },
    Triple {
        batter: Seq<char>,
        pitcher: Seq<char>,
    },
    HomeRun {
        batter: Seq<char>,
        pitcher: Seq<char>,
    },
    Walk {
        batter: Seq<char>,
        pitcher: Seq<char>,
    },
    IntentWalk {
        batter: Seq<char>,
        pitcher: Seq<char>,
    },
    HitByPitch {
        batter: Seq<char>,
        pitcher: Seq<char>,
    },
    FieldersChoice {
        batter: Seq<char>,
        pitcher: Seq<char>,
        fielders: Seq<Seq<char>>,
    },
    CatcherInterference {
        batter: Seq<char>,
        pitcher: Seq<char>,
        fielders: Seq<Seq<char>>,
    },
    StolenBase {
        base: Base,
        scoring_runner: Seq<char>,
    },
    SacFly {
        batter: Seq<char>,
        pitcher: Seq<char>,
        fielders: Seq<Seq<char>>,
        scoring_runner: Seq<char>,
    },
    SacFlyDoublePlay {
        batter: Seq<char>,
        pitcher: Seq<char>,
        fielders: Seq<Seq<char>>,
        scoring_runner: Seq<char>,
    },
    SacBunt {
        batter: Seq<char>,
        pitcher: Seq<char>,
        fielders: Seq<Seq<char>>,
        runner: Seq<char>,
    },
    SacBuntDoublePlay {
        batter: Seq<char>,
        pitcher: Seq<char>,
        fielders: Seq<Seq<char>>,
        runner: Seq<char>,
    },
    FieldError {
        batter: Seq<char>,
        pitcher: Seq<char>,
        fielders: Seq<Seq<char>>,
    },
    GameAdvisory,
}

impl View for PlayContent {
    type V = PlayContentV;

    open spec fn view(&self) -> PlayContentV {
        match self {
            PlayContent::Groundout { batter, pitcher, fielders } => PlayContentV::Groundout { batter: batter@, pitcher: pitcher@, fielders: fielders.deep_view() },
            PlayContent::BuntGroundout { batter, pitcher, fielders } => PlayContentV::BuntGroundout { batter: batter@, pitcher: pitcher@, fielders: fielders.deep_view() },
            PlayContent::Strikeout { batter, pitcher } => PlayContentV::Strikeout { batter: batter@, pitcher: pitcher@ },
            PlayContent::Lineout { batter, pitcher, fielders } => PlayContentV::Lineout { batter: batter@, pitcher: pitcher@, fielders: fielders.deep_view() },
            PlayContent::BuntLineout { batter, pitcher, fielders } => PlayContentV::BuntLineout { batter: batter@, pitcher: pitcher@, fielders: fielders.deep_view() },
            PlayContent::Flyout { batter, pitcher, fielders } => PlayContentV::Flyout { batter: batter@, pitcher: pitcher@, fielders: fielders.deep_view() },
            PlayContent::PopOut { batter, pitcher, fielders } => PlayContentV::PopOut { batter: batter@, pitcher: pitcher@, fielders: fielders.deep_view() },
            PlayContent::BuntPopOut { batter, pitcher, fielders } => PlayContentV::BuntPopOut { batter: batter@, pitcher: pitcher@, fielders: fielders.deep_view() },
            PlayContent::Forceout { batter, pitcher, fielders } => PlayContentV::Forceout { batter: batter@, pitcher: pitcher@, fielders: fielders.deep_view() },
            PlayContent::FieldersChoiceOut { batter, pitcher, fielders, scoring_runner } => PlayContentV::FieldersChoiceOut { batter: batter@, pitcher: pitcher@, fielders: fielders.deep_view(), scoring_runner: scoring_runner@ },
            PlayContent::DoublePlay { batter, pitcher, fielders } => PlayContentV::DoublePlay { batter: batter@, pitcher: pitcher@, fielders: fielders.deep_view() },
            PlayContent::TriplePlay { batter, pitcher, fielders } => PlayContentV::TriplePlay { batter: batter@, pitcher: pitcher@, fielders: fielders.deep_view() },
            PlayContent::RunnerDoublePlay { batter, pitcher, fielders } => PlayContentV::RunnerDoublePlay { batter: batter@, pitcher: pitcher@, fielders: fielders.deep_view() },
            PlayContent::RunnerTriplePlay { batter, pitcher, fielders } => PlayContentV::RunnerTriplePlay { batter: batter@, pitcher: pitcher@, fielders: fielders.deep_view() },
            PlayContent::GroundedIntoDoublePlay { batter, pitcher, fielders } => PlayContentV::GroundedIntoDoublePlay { batter: batter@, pitcher: pitcher@, fielders: fielders.deep_view() },
            PlayContent::StrikeoutDoublePlay { batter, pitcher, fielders } => PlayContentV::StrikeoutDoublePlay { batter: batter@, pitcher: pitcher@, fielders: fielders.deep_view() },
            PlayContent::Pickoff { base, fielders, runner } => PlayContentV::Pickoff { base: *base, fielders: fielders.deep_view(), runner: runner@ },
            PlayContent::PickoffError { base, fielders, runner } => PlayContentV::PickoffError { base: *base, fielders: fielders.deep_view(), runner: runner@ },
            PlayContent::CaughtStealing { base, fielders, runner } => PlayContentV::CaughtStealing { base: *base, fielders: fielders.deep_view(), runner: runner@ },
            PlayContent::PickoffCaughtStealing { base, fielders, runner } => PlayContentV::PickoffCaughtStealing { base: *base, fielders: fielders.deep_view(), runner: runner@ },
            PlayContent::WildPitch { pitcher, runner } => PlayContentV::WildPitch { pitcher: pitcher@, runner: runner@ },
            PlayContent::RunnerOut { fielders, runner } => PlayContentV::RunnerOut { fielders: fielders.deep_view(), runner: runner@ },
            PlayContent::FieldOut { fielders, runner } => PlayContentV::FieldOut { fielders: fielders.deep_view(), runner: runner@ },
            PlayContent::BatterOut { batter, catcher } => PlayContentV::BatterOut { batter: batter@, catcher: catcher@ },
            PlayContent::Balk { pitcher } => PlayContentV::Balk { pitcher: pitcher@ },
            PlayContent::PassedBall { pitcher, catcher } => PlayContentV::PassedBall { pitcher: pitcher@, catcher: catcher@ },
            PlayContent::Error { pitcher, catcher } => PlayContentV::Error { pitcher: pitcher@, catcher: catcher@ },
            PlayContent::Single { batter, pitcher } => PlayContentV::Single { batter: batter@, pitcher: pitcher@ },
            PlayContent::Double { batter, pitcher } => PlayContentV::Double { batter: batter@, pitcher: pitcher@ },
            PlayContent::Triple { batter, pitcher } => PlayContentV::Triple { batter: batter@, pitcher: pitcher@ },
            PlayContent::HomeRun { batter, pitcher } => PlayContentV::HomeRun { batter: batter@, pitcher: pitcher@ },
            PlayContent::Walk { batter, pitcher } => PlayContentV::Walk { batter: batter@, pitcher: pitcher@ },
            PlayContent::IntentWalk { batter, pitcher } => PlayContentV::IntentWalk { batter: batter@, pitcher: pitcher@ },
            PlayContent::HitByPitch { batter, pitcher } => PlayContentV::HitByPitch { batter: batter@, pitcher: pitcher@ },
            PlayContent::FieldersChoice { batter, pitcher, fielders } => PlayContentV::FieldersChoice { batter: batter@, pitcher: pitcher@, fielders: fielders.deep_view() },
            PlayContent::CatcherInterference { batter, pitcher, fielders } => PlayContentV::CatcherInterference { batter: batter@, pitcher: pitcher@, fielders: fielders.deep_view() },
            PlayContent::StolenBase { base, scoring_runner } => PlayContentV::StolenBase { base: *base, scoring_runner: scoring_runner@ },
            PlayContent::SacFly { batter, pitcher, fielders, scoring_runner } => PlayContentV::SacFly { batter: batter@, pitcher: pitcher@, fielders: fielders.deep_view(), scoring_runner: scoring_runner@ },
            PlayContent::SacFlyDoublePlay { batter, pitcher, fielders, scoring_runner } => PlayContentV::SacFlyDoublePlay { batter: batter@, pitcher: pitcher@, fielders: fielders.deep_view(), scoring_runner: scoring_runner@ },
            PlayContent::SacBunt { batter, pitcher, fielders, runner } => PlayContentV::SacBunt { batter: batter@, pitcher: pitcher@, fielders: fielders.deep_view(), runner: runner@ },
            PlayContent::SacBuntDoublePlay { batter, pitcher, fielders, runner } => PlayContentV::SacBuntDoublePlay { batter: batter@, pitcher: pitcher@, fielders: fielders.deep_view(), runner: runner@ },
            PlayContent::FieldError { batter, pitcher, fielders } => PlayContentV::FieldError { batter: batter@, pitcher: pitcher@, fielders: fielders.deep_view() },
            PlayContent::GameAdvisory => PlayContentV::GameAdvisory,
        }
    }
}

/// A unit of game action: its inning, its typed content, and the runner
/// movements it caused.
#[derive(Clone, Debug)]
pub struct Play {
    pub inning: Inning,
    pub play_content: PlayContent,
    pub movements: Vec<Movement>,
}

/// The mathematical image of a `Play`.
pub ghost struct PlayV {
    pub inning: Inning,
    pub play_content: PlayContentV,
    pub movements: Seq<MovementV>,
}

impl View for Play {
    type V = PlayV;

    open spec fn view(&self) -> PlayV {
        PlayV {
            inning: self.inning,
            play_content: self.play_content@,
            movements: mviews(self.movements@),
        }
    }
}

/// The views of a sequence of plays.
pub open spec fn play_views(s: Seq<Play>) -> Seq<PlayV> {
    s.map_values(|p: Play| p@)
}

/// A fully parsed game: context, the two teams, and the ordered plays.
#[derive(Debug)]
pub struct Game {
    pub context: Context,
    pub home_team: Team,
    pub away_team: Team,
    pub plays: Vec<Play>,
}

/// The mathematical image of a `Game`.
pub ghost struct GameV {
    pub context: ContextV,
    pub home_team: TeamV,
    pub away_team: TeamV,
    pub plays: Seq<PlayV>,
}

impl View for Game {
    type V = GameV;

    open spec fn view(&self) -> GameV {
        GameV {
            context: self.context@,
            home_team: self.home_team@,
            away_team: self.away_team@,
            plays: play_views(self.plays@),
        }
    }
}

} // verus!
