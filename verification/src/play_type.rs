//! The closed set of play types, their canonical surface strings, and the
//! requirement predicates that fix which sub-sections a play of each type
//! carries.

use vstd::prelude::*;
use vstd::string::*;

use crate::ontology::str_eq;

verus! {

/// One of the closed set of play types a `[PLAY]` tag may name.
#[derive(Clone, Copy, Debug, PartialEq, Eq, Structural)]
pub enum PlayType {
    Groundout,
    BuntGroundout,
    Strikeout,
    Lineout,
    BuntLineout,
    Flyout,
    PopOut,
    BuntPopOut,
    Forceout,
    FieldersChoiceOut,
    DoublePlay,
    TriplePlay,
    RunnerDoublePlay,
    RunnerTriplePlay,
    GroundedIntoDoublePlay,
    StrikeoutDoublePlay,
    Pickoff,
    PickoffError,
    CaughtStealing,
    PickoffCaughtStealing,
    WildPitch,
    RunnerOut,
    FieldOut,
    BatterOut,
    Balk,
    PassedBall,
    Error,
    Single,
    Double,
    Triple,
    HomeRun,
    Walk,
    IntentWalk,
    HitByPitch,
    FieldersChoice,
    CatcherInterference,
    StolenBase,
    SacFly,
    SacFlyDoublePlay,
    SacBunt,
    SacBuntDoublePlay,
    FieldError,
    GameAdvisory,
}

impl PlayType {
    /// The canonical surface string of a play type.
    pub open spec fn spec_text(self) -> Seq<char> {
        match self {
            PlayType::Groundout => "Groundout"@,
            PlayType::BuntGroundout => "Bunt Groundout"@,
            PlayType::Strikeout => "Strikeout"@,
            PlayType::Lineout => "Lineout"@,
            PlayType::BuntLineout => "Bunt Lineout"@,
            PlayType::Flyout => "Flyout"@,
            PlayType::PopOut => "Pop Out"@,
            PlayType::BuntPopOut => "Bunt Pop Out"@,
            PlayType::Forceout => "Forceout"@,
            PlayType::FieldersChoiceOut => "Fielders Choice Out"@,
            PlayType::DoublePlay => "Double Play"@,
            PlayType::TriplePlay => "Triple Play"@,
            PlayType::RunnerDoublePlay => "Runner Double Play"@,
            PlayType::RunnerTriplePlay => "Runner Triple Play"@,
            PlayType::GroundedIntoDoublePlay => "Grounded Into Double Play"@,
            PlayType::StrikeoutDoublePlay => "Strikeout Double Play"@,
            PlayType::Pickoff => "Pickoff"@,
            PlayType::PickoffError => "Pickoff Error"@,
            PlayType::CaughtStealing => "Caught Stealing"@,
            PlayType::PickoffCaughtStealing => "Pickoff Caught Stealing"@,
            PlayType::WildPitch => "Wild Pitch"@,
            PlayType::RunnerOut => "Runner Out"@,
            PlayType::FieldOut => "Field Out"@,
            PlayType::BatterOut => "Batter Out"@,
            PlayType::Balk => "Balk"@,
            PlayType::PassedBall => "Passed Ball"@,
            PlayType::Error => "Error"@,
            PlayType::Single => "Single"@,
            PlayType::Double => "Double"@,
            PlayType::Triple => "Triple"@,
            PlayType::HomeRun => "Home Run"@,
            PlayType::Walk => "Walk"@,
            PlayType::IntentWalk => "Intent Walk"@,
            PlayType::HitByPitch => "Hit By Pitch"@,
            PlayType::FieldersChoice => "Fielders Choice"@,
            PlayType::CatcherInterference => "Catcher Interference"@,
            PlayType::StolenBase => "Stolen Base"@,
            PlayType::SacFly => "Sac Fly"@,
            PlayType::SacFlyDoublePlay => "Sac Fly Double Play"@,
            PlayType::SacBunt => "Sac Bunt"@,
            PlayType::SacBuntDoublePlay => "Sac Bunt Double Play"@,
            PlayType::FieldError => "Field Error"@,
            PlayType::GameAdvisory => "Game Advisory"@,
        }
    }

    /// The canonical surface string, as an owned string.
    pub fn text(&self) -> (r: String)
        ensures
            r@ == self.spec_text(),
    {
        match self {
            PlayType::Groundout => String::from_str("Groundout"),
            PlayType::BuntGroundout => String::from_str("Bunt Groundout"),
            PlayType::Strikeout => String::from_str("Strikeout"),
            PlayType::Lineout => String::from_str("Lineout"),
            PlayType::BuntLineout => String::from_str("Bunt Lineout"),
            PlayType::Flyout => String::from_str("Flyout"),
            PlayType::PopOut => String::from_str("Pop Out"),
            PlayType::BuntPopOut => String::from_str("Bunt Pop Out"),
            PlayType::Forceout => String::from_str("Forceout"),
            PlayType::FieldersChoiceOut => String::from_str("Fielders Choice Out"),
            PlayType::DoublePlay => String::from_str("Double Play"),
            PlayType::TriplePlay => String::from_str("Triple Play"),
            PlayType::RunnerDoublePlay => String::from_str("Runner Double Play"),
            PlayType::RunnerTriplePlay => String::from_str("Runner Triple Play"),
            PlayType::GroundedIntoDoublePlay => String::from_str("Grounded Into Double Play"),
            PlayType::StrikeoutDoublePlay => String::from_str("Strikeout Double Play"),
            PlayType::Pickoff => String::from_str("Pickoff"),
            PlayType::PickoffError => String::from_str("Pickoff Error"),
            PlayType::CaughtStealing => String::from_str("Caught Stealing"),
            PlayType::PickoffCaughtStealing => String::from_str("Pickoff Caught Stealing"),
            PlayType::WildPitch => String::from_str("Wild Pitch"),
            PlayType::RunnerOut => String::from_str("Runner Out"),
            PlayType::FieldOut => String::from_str("Field Out"),
            PlayType::BatterOut => String::from_str("Batter Out"),
            PlayType::Balk => String::from_str("Balk"),
            PlayType::PassedBall => String::from_str("Passed Ball"),
            PlayType::Error => String::from_str("Error"),
            PlayType::Single => String::from_str("Single"),
            PlayType::Double => String::from_str("Double"),
            PlayType::Triple => String::from_str("Triple"),
            PlayType::HomeRun => String::from_str("Home Run"),
            PlayType::Walk => String::from_str("Walk"),
            PlayType::IntentWalk => String::from_str("Intent Walk"),
            PlayType::HitByPitch => String::from_str("Hit By Pitch"),
            PlayType::FieldersChoice => String::from_str("Fielders Choice"),
            PlayType::CatcherInterference => String::from_str("Catcher Interference"),
            PlayType::StolenBase => String::from_str("Stolen Base"),
            PlayType::SacFly => String::from_str("Sac Fly"),
            PlayType::SacFlyDoublePlay => String::from_str("Sac Fly Double Play"),
            PlayType::SacBunt => String::from_str("Sac Bunt"),
            PlayType::SacBuntDoublePlay => String::from_str("Sac Bunt Double Play"),
            PlayType::FieldError => String::from_str("Field Error"),
            PlayType::GameAdvisory => String::from_str("Game Advisory"),
        }
    }

    /// Which play type, if any, a string spells.
    pub open spec fn spec_from_text(s: Seq<char>) -> Option<PlayType> {
        if s == "Groundout"@ {
            Some(PlayType::Groundout)
        } else if s == "Bunt Groundout"@ {
            Some(PlayType::BuntGroundout)
        } else if s == "Strikeout"@ {
            Some(PlayType::Strikeout)
        } else if s == "Lineout"@ {
            Some(PlayType::Lineout)
        } else if s == "Bunt Lineout"@ {
            Some(PlayType::BuntLineout)
        } else if s == "Flyout"@ {
            Some(PlayType::Flyout)
        } else if s == "Pop Out"@ {
            Some(PlayType::PopOut)
        } else if s == "Bunt Pop Out"@ {
            Some(PlayType::BuntPopOut)
        } else if s == "Forceout"@ {
            Some(PlayType::Forceout)
        } else if s == "Fielders Choice Out"@ {
            Some(PlayType::FieldersChoiceOut)
        } else if s == "Double Play"@ {
            Some(PlayType::DoublePlay)
        } else if s == "Triple Play"@ {
            Some(PlayType::TriplePlay)
        } else if s == "Runner Double Play"@ {
            Some(PlayType::RunnerDoublePlay)
        } else if s == "Runner Triple Play"@ {
            Some(PlayType::RunnerTriplePlay)
        } else if s == "Grounded Into Double Play"@ {
            Some(PlayType::GroundedIntoDoublePlay)
        } else if s == "Strikeout Double Play"@ {
            Some(PlayType::StrikeoutDoublePlay)
        } else if s == "Pickoff"@ {
            Some(PlayType::Pickoff)
        } else if s == "Pickoff Error"@ {
            Some(PlayType::PickoffError)
        } else if s == "Caught Stealing"@ {
            Some(PlayType::CaughtStealing)
        } else if s == "Pickoff Caught Stealing"@ {
            Some(PlayType::PickoffCaughtStealing)
        } else if s == "Wild Pitch"@ {
            Some(PlayType::WildPitch)
        } else if s == "Runner Out"@ {
            Some(PlayType::RunnerOut)
        } else if s == "Field Out"@ {
            Some(PlayType::FieldOut)
        } else if s == "Batter Out"@ {
            Some(PlayType::BatterOut)
        } else if s == "Balk"@ {
            Some(PlayType::Balk)
        } else if s == "Passed Ball"@ {
            Some(PlayType::PassedBall)
        } else if s == "Error"@ {
            Some(PlayType::Error)
        } else if s == "Single"@ {
            Some(PlayType::Single)
        } else if s == "Double"@ {
            Some(PlayType::Double)
        } else if s == "Triple"@ {
            Some(PlayType::Triple)
        } else if s == "Home Run"@ {
            Some(PlayType::HomeRun)
        } else if s == "Walk"@ {
            Some(PlayType::Walk)
        } else if s == "Intent Walk"@ {
            Some(PlayType::IntentWalk)
        } else if s == "Hit By Pitch"@ {
            Some(PlayType::HitByPitch)
        } else if s == "Fielders Choice"@ {
            Some(PlayType::FieldersChoice)
        } else if s == "Catcher Interference"@ {
            Some(PlayType::CatcherInterference)
        } else if s == "Stolen Base"@ {
            Some(PlayType::StolenBase)
        } else if s == "Sac Fly"@ {
            Some(PlayType::SacFly)
        } else if s == "Sac Fly Double Play"@ {
            Some(PlayType::SacFlyDoublePlay)
        } else if s == "Sac Bunt"@ {
            Some(PlayType::SacBunt)
        } else if s == "Sac Bunt Double Play"@ {
            Some(PlayType::SacBuntDoublePlay)
        } else if s == "Field Error"@ {
            Some(PlayType::FieldError)
        } else if s == "Game Advisory"@ {
            Some(PlayType::GameAdvisory)
        } else {
            None
        }
    }

    /// Parse a canonical play-type string.
    pub fn from_text(s: &str) -> (r: Option<PlayType>)
        ensures
            r == PlayType::spec_from_text(s@),
    {
        if str_eq(s, "Groundout") {
            Some(PlayType::Groundout)
        } else if str_eq(s, "Bunt Groundout") {
            Some(PlayType::BuntGroundout)
        } else if str_eq(s, "Strikeout") {
            Some(PlayType::Strikeout)
        } else if str_eq(s, "Lineout") {
            Some(PlayType::Lineout)
        } else if str_eq(s, "Bunt Lineout") {
            Some(PlayType::BuntLineout)
        } else if str_eq(s, "Flyout") {
            Some(PlayType::Flyout)
        } else if str_eq(s, "Pop Out") {
            Some(PlayType::PopOut)
        } else if str_eq(s, "Bunt Pop Out") {
            Some(PlayType::BuntPopOut)
        } else if str_eq(s, "Forceout") {
            Some(PlayType::Forceout)
        } else if str_eq(s, "Fielders Choice Out") {
            Some(PlayType::FieldersChoiceOut)
        } else if str_eq(s, "Double Play") {
            Some(PlayType::DoublePlay)
        } else if str_eq(s, "Triple Play") {
            Some(PlayType::TriplePlay)
        } else if str_eq(s, "Runner Double Play") {
            Some(PlayType::RunnerDoublePlay)
        } else if str_eq(s, "Runner Triple Play") {
            Some(PlayType::RunnerTriplePlay)
        } else if str_eq(s, "Grounded Into Double Play") {
            Some(PlayType::GroundedIntoDoublePlay)
        } else if str_eq(s, "Strikeout Double Play") {
            Some(PlayType::StrikeoutDoublePlay)
        } else if str_eq(s, "Pickoff") {
            Some(PlayType::Pickoff)
        } else if str_eq(s, "Pickoff Error") {
            Some(PlayType::PickoffError)
        } else if str_eq(s, "Caught Stealing") {
            Some(PlayType::CaughtStealing)
        } else if str_eq(s, "Pickoff Caught Stealing") {
            Some(PlayType::PickoffCaughtStealing)
        } else if str_eq(s, "Wild Pitch") {
            Some(PlayType::WildPitch)
        } else if str_eq(s, "Runner Out") {
            Some(PlayType::RunnerOut)
        } else if str_eq(s, "Field Out") {
            Some(PlayType::FieldOut)
        } else if str_eq(s, "Batter Out") {
            Some(PlayType::BatterOut)
        } else if str_eq(s, "Balk") {
            Some(PlayType::Balk)
        } else if str_eq(s, "Passed Ball") {
            Some(PlayType::PassedBall)
        } else if str_eq(s, "Error") {
            Some(PlayType::Error)
        } else if str_eq(s, "Single") {
            Some(PlayType::Single)
        } else if str_eq(s, "Double") {
            Some(PlayType::Double)
        } else if str_eq(s, "Triple") {
            Some(PlayType::Triple)
        } else if str_eq(s, "Home Run") {
            Some(PlayType::HomeRun)
        } else if str_eq(s, "Walk") {
            Some(PlayType::Walk)
        } else if str_eq(s, "Intent Walk") {
            Some(PlayType::IntentWalk)
        } else if str_eq(s, "Hit By Pitch") {
            Some(PlayType::HitByPitch)
        } else if str_eq(s, "Fielders Choice") {
            Some(PlayType::FieldersChoice)
        } else if str_eq(s, "Catcher Interference") {
            Some(PlayType::CatcherInterference)
        } else if str_eq(s, "Stolen Base") {
            Some(PlayType::StolenBase)
        } else if str_eq(s, "Sac Fly") {
            Some(PlayType::SacFly)
        } else if str_eq(s, "Sac Fly Double Play") {
            Some(PlayType::SacFlyDoublePlay)
        } else if str_eq(s, "Sac Bunt") {
            Some(PlayType::SacBunt)
        } else if str_eq(s, "Sac Bunt Double Play") {
            Some(PlayType::SacBuntDoublePlay)
        } else if str_eq(s, "Field Error") {
            Some(PlayType::FieldError)
        } else if str_eq(s, "Game Advisory") {
            Some(PlayType::GameAdvisory)
        } else {
            None
        }
    }

    /// Whether a play of this type carries a `[BASE]` sub-section.
    pub open spec fn spec_requires_base(self) -> bool {
        match self {
            PlayType::Pickoff => true,
            PlayType::PickoffError => true,
            PlayType::CaughtStealing => true,
            PlayType::PickoffCaughtStealing => true,
            PlayType::StolenBase => true,
            _ => false,
        }
    }

    /// Whether a play of this type carries a `[BASE]` sub-section.
    pub fn requires_base(&self) -> (r: bool)
        ensures
            r == self.spec_requires_base(),
    {
        match self {
            PlayType::Pickoff => true,
            PlayType::PickoffError => true,
            PlayType::CaughtStealing => true,
            PlayType::PickoffCaughtStealing => true,
            PlayType::StolenBase => true,
            _ => false,
        }
    }

    /// Whether a play of this type carries a `[BATTER]` sub-section.
    pub open spec fn spec_requires_batter(self) -> bool {
        match self {
            PlayType::Groundout => true,
            PlayType::BuntGroundout => true,
            PlayType::Strikeout => true,
            PlayType::Lineout => true,
            PlayType::BuntLineout => true,
            PlayType::Flyout => true,
            PlayType::PopOut => true,
            PlayType::BuntPopOut => true,
            PlayType::Forceout => true,
            PlayType::FieldersChoiceOut => true,
            PlayType::DoublePlay => true,
            PlayType::TriplePlay => true,
            PlayType::RunnerDoublePlay => true,
            PlayType::RunnerTriplePlay => true,
            PlayType::GroundedIntoDoublePlay => true,
            PlayType::StrikeoutDoublePlay => true,
            PlayType::BatterOut => true,
            PlayType::Single => true,
            PlayType::Double => true,
            PlayType::Triple => true,
            PlayType::HomeRun => true,
            PlayType::Walk => true,
            PlayType::IntentWalk => true,
            PlayType::HitByPitch => true,
            PlayType::FieldersChoice => true,
            PlayType::CatcherInterference => true,
            PlayType::SacFly => true,
            PlayType::SacFlyDoublePlay => true,
            PlayType::SacBunt => true,
            PlayType::SacBuntDoublePlay => true,
            PlayType::FieldError => true,
            _ => false,
        }
    }

    /// Whether a play of this type carries a `[BATTER]` sub-section.
    pub fn requires_batter(&self) -> (r: bool)
        ensures
            r == self.spec_requires_batter(),
    {
        match self {
            PlayType::Groundout => true,
            PlayType::BuntGroundout => true,
            PlayType::Strikeout => true,
            PlayType::Lineout => true,
            PlayType::BuntLineout => true,
            PlayType::Flyout => true,
            PlayType::PopOut => true,
            PlayType::BuntPopOut => true,
            PlayType::Forceout => true,
            PlayType::FieldersChoiceOut => true,
            PlayType::DoublePlay => true,
            PlayType::TriplePlay => true,
            PlayType::RunnerDoublePlay => true,
            PlayType::RunnerTriplePlay => true,
            PlayType::GroundedIntoDoublePlay => true,
            PlayType::StrikeoutDoublePlay => true,
            PlayType::BatterOut => true,
            PlayType::Single => true,
            PlayType::Double => true,
            PlayType::Triple => true,
            PlayType::HomeRun => true,
            PlayType::Walk => true,
            PlayType::IntentWalk => true,
            PlayType::HitByPitch => true,
            PlayType::FieldersChoice => true,
            PlayType::CatcherInterference => true,
            PlayType::SacFly => true,
            PlayType::SacFlyDoublePlay => true,
            PlayType::SacBunt => true,
            PlayType::SacBuntDoublePlay => true,
            PlayType::FieldError => true,
            _ => false,
        }
    }

    /// Whether a play of this type carries a `[PITCHER]` sub-section.
    pub open spec fn spec_requires_pitcher(self) -> bool {
        match self {
            PlayType::Groundout => true,
            PlayType::BuntGroundout => true,
            PlayType::Strikeout => true,
            PlayType::Lineout => true,
            PlayType::BuntLineout => true,
            PlayType::Flyout => true,
            PlayType::PopOut => true,
            PlayType::BuntPopOut => true,
            PlayType::Forceout => true,
            PlayType::FieldersChoiceOut => true,
            PlayType::DoublePlay => true,
            PlayType::TriplePlay => true,
            PlayType::RunnerDoublePlay => true,
            PlayType::RunnerTriplePlay => true,
            PlayType::GroundedIntoDoublePlay => true,
            PlayType::StrikeoutDoublePlay => true,
            PlayType::WildPitch => true,
            PlayType::Balk => true,
            PlayType::PassedBall => true,
            PlayType::Error => true,
            PlayType::Single => true,
            PlayType::Double => true,
            PlayType::Triple => true,
            PlayType::HomeRun => true,
            PlayType::Walk => true,
            PlayType::IntentWalk => true,
            PlayType::HitByPitch => true,
            PlayType::FieldersChoice => true,
            PlayType::CatcherInterference => true,
            PlayType::SacFly => true,
            PlayType::SacFlyDoublePlay => true,
            PlayType::SacBunt => true,
            PlayType::SacBuntDoublePlay => true,
            PlayType::FieldError => true,
            _ => false,
        }
    }

    /// Whether a play of this type carries a `[PITCHER]` sub-section.
    pub fn requires_pitcher(&self) -> (r: bool)
        ensures
            r == self.spec_requires_pitcher(),
    {
        match self {
            PlayType::Groundout => true,
            PlayType::BuntGroundout => true,
            PlayType::Strikeout => true,
            PlayType::Lineout => true,
            PlayType::BuntLineout => true,
            PlayType::Flyout => true,
            PlayType::PopOut => true,
            PlayType::BuntPopOut => true,
            PlayType::Forceout => true,
            PlayType::FieldersChoiceOut => true,
            PlayType::DoublePlay => true,
            PlayType::TriplePlay => true,
            PlayType::RunnerDoublePlay => true,
            PlayType::RunnerTriplePlay => true,
            PlayType::GroundedIntoDoublePlay => true,
            PlayType::StrikeoutDoublePlay => true,
            PlayType::WildPitch => true,
            PlayType::Balk => true,
            PlayType::PassedBall => true,
            PlayType::Error => true,
            PlayType::Single => true,
            PlayType::Double => true,
            PlayType::Triple => true,
            PlayType::HomeRun => true,
            PlayType::Walk => true,
            PlayType::IntentWalk => true,
            PlayType::HitByPitch => true,
            PlayType::FieldersChoice => true,
            PlayType::CatcherInterference => true,
            PlayType::SacFly => true,
            PlayType::SacFlyDoublePlay => true,
            PlayType::SacBunt => true,
            PlayType::SacBuntDoublePlay => true,
            PlayType::FieldError => true,
            _ => false,
        }
    }

    /// Whether a play of this type carries a `[CATCHER]` sub-section.
    pub open spec fn spec_requires_catcher(self) -> bool {
        match self {
            PlayType::BatterOut => true,
            PlayType::PassedBall => true,
            PlayType::Error => true,
            _ => false,
        }
    }

    /// Whether a play of this type carries a `[CATCHER]` sub-section.
    pub fn requires_catcher(&self) -> (r: bool)
        ensures
            r == self.spec_requires_catcher(),
    {
        match self {
            PlayType::BatterOut => true,
            PlayType::PassedBall => true,
            PlayType::Error => true,
            _ => false,
        }
    }

    /// Whether a play of this type carries a `[FIELDERS]` sub-section.
    pub open spec fn spec_requires_fielders(self) -> bool {
        match self {
            PlayType::Groundout => true,
            PlayType::BuntGroundout => true,
            PlayType::Lineout => true,
            PlayType::BuntLineout => true,
            PlayType::Flyout => true,
            PlayType::PopOut => true,
            PlayType::BuntPopOut => true,
            PlayType::Forceout => true,
            PlayType::FieldersChoiceOut => true,
            PlayType::DoublePlay => true,
            PlayType::TriplePlay => true,
            PlayType::RunnerDoublePlay => true,
            PlayType::RunnerTriplePlay => true,
            PlayType::GroundedIntoDoublePlay => true,
            PlayType::StrikeoutDoublePlay => true,
            PlayType::Pickoff => true,
            PlayType::PickoffError => true,
            PlayType::CaughtStealing => true,
            PlayType::PickoffCaughtStealing => true,
            PlayType::RunnerOut => true,
            PlayType::FieldOut => true,
            PlayType::FieldersChoice => true,
            PlayType::CatcherInterference => true,
            PlayType::SacFly => true,
            PlayType::SacFlyDoublePlay => true,
            PlayType::SacBunt => true,
            PlayType::SacBuntDoublePlay => true,
            PlayType::FieldError => true,
            _ => false,
        }
    }

    /// Whether a play of this type carries a `[FIELDERS]` sub-section.
    pub fn requires_fielders(&self) -> (r: bool)
        ensures
            r == self.spec_requires_fielders(),
    {
        match self {
            PlayType::Groundout => true,
            PlayType::BuntGroundout => true,
            PlayType::Lineout => true,
            PlayType::BuntLineout => true,
            PlayType::Flyout => true,
            PlayType::PopOut => true,
            PlayType::BuntPopOut => true,
            PlayType::Forceout => true,
            PlayType::FieldersChoiceOut => true,
            PlayType::DoublePlay => true,
            PlayType::TriplePlay => true,
            PlayType::RunnerDoublePlay => true,
            PlayType::RunnerTriplePlay => true,
            PlayType::GroundedIntoDoublePlay => true,
            PlayType::StrikeoutDoublePlay => true,
            PlayType::Pickoff => true,
            PlayType::PickoffError => true,
            PlayType::CaughtStealing => true,
            PlayType::PickoffCaughtStealing => true,
            PlayType::RunnerOut => true,
            PlayType::FieldOut => true,
            PlayType::FieldersChoice => true,
            PlayType::CatcherInterference => true,
            PlayType::SacFly => true,
            PlayType::SacFlyDoublePlay => true,
            PlayType::SacBunt => true,
            PlayType::SacBuntDoublePlay => true,
            PlayType::FieldError => true,
            _ => false,
        }
    }

    /// Whether a play of this type carries a `[RUNNER]` sub-section.
    pub open spec fn spec_requires_runner(self) -> bool {
        match self {
            PlayType::Pickoff => true,
            PlayType::PickoffError => true,
            PlayType::CaughtStealing => true,
            PlayType::PickoffCaughtStealing => true,
            PlayType::WildPitch => true,
            PlayType::RunnerOut => true,
            PlayType::FieldOut => true,
            PlayType::SacBunt => true,
            PlayType::SacBuntDoublePlay => true,
            _ => false,
        }
    }

    /// Whether a play of this type carries a `[RUNNER]` sub-section.
    pub fn requires_runner(&self) -> (r: bool)
        ensures
            r == self.spec_requires_runner(),
    {
        match self {
            PlayType::Pickoff => true,
            PlayType::PickoffError => true,
            PlayType::CaughtStealing => true,
            PlayType::PickoffCaughtStealing => true,
            PlayType::WildPitch => true,
            PlayType::RunnerOut => true,
            PlayType::FieldOut => true,
            PlayType::SacBunt => true,
            PlayType::SacBuntDoublePlay => true,
            _ => false,
        }
    }

    /// Whether a play of this type carries a `[SCORING_RUNNER]` sub-section.
    pub open spec fn spec_requires_scoring_runner(self) -> bool {
        match self {
            PlayType::FieldersChoiceOut => true,
            PlayType::StolenBase => true,
            PlayType::SacFly => true,
            PlayType::SacFlyDoublePlay => true,
            _ => false,
        }
    }

    /// Whether a play of this type carries a `[SCORING_RUNNER]` sub-section.
    pub fn requires_scoring_runner(&self) -> (r: bool)
        ensures
            r == self.spec_requires_scoring_runner(),
    {
        match self {
            PlayType::FieldersChoiceOut => true,
            PlayType::StolenBase => true,
            PlayType::SacFly => true,
            PlayType::SacFlyDoublePlay => true,
            _ => false,
        }
    }

}

/// All play types, in declaration order; the synthesized whole-game pattern
/// lists the per-type play patterns in this order.
pub open spec fn spec_all_play_types() -> Seq<PlayType> {
    seq![
        PlayType::Groundout,
        PlayType::BuntGroundout,
        PlayType::Strikeout,
        PlayType::Lineout,
        PlayType::BuntLineout,
        PlayType::Flyout,
        PlayType::PopOut,
        PlayType::BuntPopOut,
        PlayType::Forceout,
        PlayType::FieldersChoiceOut,
        PlayType::DoublePlay,
        PlayType::TriplePlay,
        PlayType::RunnerDoublePlay,
        PlayType::RunnerTriplePlay,
        PlayType::GroundedIntoDoublePlay,
        PlayType::StrikeoutDoublePlay,
        PlayType::Pickoff,
        PlayType::PickoffError,
        PlayType::CaughtStealing,
        PlayType::PickoffCaughtStealing,
        PlayType::WildPitch,
        PlayType::RunnerOut,
        PlayType::FieldOut,
        PlayType::BatterOut,
        PlayType::Balk,
        PlayType::PassedBall,
        PlayType::Error,
        PlayType::Single,
        PlayType::Double,
        PlayType::Triple,
        PlayType::HomeRun,
        PlayType::Walk,
        PlayType::IntentWalk,
        PlayType::HitByPitch,
        PlayType::FieldersChoice,
        PlayType::CatcherInterference,
        PlayType::StolenBase,
        PlayType::SacFly,
        PlayType::SacFlyDoublePlay,
        PlayType::SacBunt,
        PlayType::SacBuntDoublePlay,
        PlayType::FieldError,
        PlayType::GameAdvisory,
    ]
}

/// All play types, in declaration order.
pub fn all_play_types() -> (r: Vec<PlayType>)
    ensures
        r@ == spec_all_play_types(),
{
    let r: Vec<PlayType> = vec![
        PlayType::Groundout,
        PlayType::BuntGroundout,
        PlayType::Strikeout,
        PlayType::Lineout,
        PlayType::BuntLineout,
        PlayType::Flyout,
        PlayType::PopOut,
        PlayType::BuntPopOut,
        PlayType::Forceout,
        PlayType::FieldersChoiceOut,
        PlayType::DoublePlay,
        PlayType::TriplePlay,
        PlayType::RunnerDoublePlay,
        PlayType::RunnerTriplePlay,
        PlayType::GroundedIntoDoublePlay,
        PlayType::StrikeoutDoublePlay,
        PlayType::Pickoff,
        PlayType::PickoffError,
        PlayType::CaughtStealing,
        PlayType::PickoffCaughtStealing,
        PlayType::WildPitch,
        PlayType::RunnerOut,
        PlayType::FieldOut,
        PlayType::BatterOut,
        PlayType::Balk,
        PlayType::PassedBall,
        PlayType::Error,
        PlayType::Single,
        PlayType::Double,
        PlayType::Triple,
        PlayType::HomeRun,
        PlayType::Walk,
        PlayType::IntentWalk,
        PlayType::HitByPitch,
        PlayType::FieldersChoice,
        PlayType::CatcherInterference,
        PlayType::StolenBase,
        PlayType::SacFly,
        PlayType::SacFlyDoublePlay,
        PlayType::SacBunt,
        PlayType::SacBuntDoublePlay,
        PlayType::FieldError,
        PlayType::GameAdvisory,
    ];
    assert(r@ =~= spec_all_play_types());
    r
}

/// Parsing a play type's canonical string gives the play type back.
pub proof fn lemma_play_type_round_trip(t: PlayType)
    ensures
        PlayType::spec_from_text(t.spec_text()) == Some(t),
{
    reveal_strlit("Groundout");
    reveal_strlit("Bunt Groundout");
    reveal_strlit("Strikeout");
    reveal_strlit("Lineout");
    reveal_strlit("Bunt Lineout");
    reveal_strlit("Flyout");
    reveal_strlit("Pop Out");
    reveal_strlit("Bunt Pop Out");
    reveal_strlit("Forceout");
    reveal_strlit("Fielders Choice Out");
    reveal_strlit("Double Play");
    reveal_strlit("Triple Play");
    reveal_strlit("Runner Double Play");
    reveal_strlit("Runner Triple Play");
    reveal_strlit("Grounded Into Double Play");
    reveal_strlit("Strikeout Double Play");
    reveal_strlit("Pickoff");
    reveal_strlit("Pickoff Error");
    reveal_strlit("Caught Stealing");
    reveal_strlit("Pickoff Caught Stealing");
    reveal_strlit("Wild Pitch");
    reveal_strlit("Runner Out");
    reveal_strlit("Field Out");
    reveal_strlit("Batter Out");
    reveal_strlit("Balk");
    reveal_strlit("Passed Ball");
    reveal_strlit("Error");
    reveal_strlit("Single");
    reveal_strlit("Double");
    reveal_strlit("Triple");
    reveal_strlit("Home Run");
    reveal_strlit("Walk");
    reveal_strlit("Intent Walk");
    reveal_strlit("Hit By Pitch");
    reveal_strlit("Fielders Choice");
    reveal_strlit("Catcher Interference");
    reveal_strlit("Stolen Base");
    reveal_strlit("Sac Fly");
    reveal_strlit("Sac Fly Double Play");
    reveal_strlit("Sac Bunt");
    reveal_strlit("Sac Bunt Double Play");
    reveal_strlit("Field Error");
    reveal_strlit("Game Advisory");
    // Pin each string's length and leading character; where two strings
    // share both, pin a later character, so that no two compare equal.
    assert("Groundout"@.len() == 9);
    assert("Groundout"@[0] == 'G');
    assert("Bunt Groundout"@.len() == 14);
    assert("Bunt Groundout"@[0] == 'B');
    assert("Strikeout"@.len() == 9);
    assert("Strikeout"@[0] == 'S');
    assert("Lineout"@.len() == 7);
    assert("Lineout"@[0] == 'L');
    assert("Bunt Lineout"@.len() == 12);
    assert("Bunt Lineout"@[0] == 'B');
    assert("Flyout"@.len() == 6);
    assert("Flyout"@[0] == 'F');
    assert("Pop Out"@.len() == 7);
    assert("Pop Out"@[0] == 'P');
    assert("Bunt Pop Out"@.len() == 12);
    assert("Bunt Pop Out"@[0] == 'B');
    assert("Forceout"@.len() == 8);
    assert("Forceout"@[0] == 'F');
    assert("Fielders Choice Out"@.len() == 19);
    assert("Fielders Choice Out"@[0] == 'F');
    assert("Double Play"@.len() == 11);
    assert("Double Play"@[0] == 'D');
    assert("Triple Play"@.len() == 11);
    assert("Triple Play"@[0] == 'T');
    assert("Runner Double Play"@.len() == 18);
    assert("Runner Double Play"@[0] == 'R');
    assert("Runner Triple Play"@.len() == 18);
    assert("Runner Triple Play"@[0] == 'R');
    assert("Grounded Into Double Play"@.len() == 25);
    assert("Grounded Into Double Play"@[0] == 'G');
    assert("Strikeout Double Play"@.len() == 21);
    assert("Strikeout Double Play"@[0] == 'S');
    assert("Pickoff"@.len() == 7);
    assert("Pickoff"@[0] == 'P');
    assert("Pickoff Error"@.len() == 13);
    assert("Pickoff Error"@[0] == 'P');
    assert("Caught Stealing"@.len() == 15);
    assert("Caught Stealing"@[0] == 'C');
    assert("Pickoff Caught Stealing"@.len() == 23);
    assert("Pickoff Caught Stealing"@[0] == 'P');
    assert("Wild Pitch"@.len() == 10);
    assert("Wild Pitch"@[0] == 'W');
    assert("Runner Out"@.len() == 10);
    assert("Runner Out"@[0] == 'R');
    assert("Field Out"@.len() == 9);
    assert("Field Out"@[0] == 'F');
    assert("Batter Out"@.len() == 10);
    assert("Batter Out"@[0] == 'B');
    assert("Balk"@.len() == 4);
    assert("Balk"@[0] == 'B');
    assert("Passed Ball"@.len() == 11);
    assert("Passed Ball"@[0] == 'P');
    assert("Error"@.len() == 5);
    assert("Error"@[0] == 'E');
    assert("Single"@.len() == 6);
    assert("Single"@[0] == 'S');
    assert("Double"@.len() == 6);
    assert("Double"@[0] == 'D');
    assert("Triple"@.len() == 6);
    assert("Triple"@[0] == 'T');
    assert("Home Run"@.len() == 8);
    assert("Home Run"@[0] == 'H');
    assert("Walk"@.len() == 4);
    assert("Walk"@[0] == 'W');
    assert("Intent Walk"@.len() == 11);
    assert("Intent Walk"@[0] == 'I');
    assert("Hit By Pitch"@.len() == 12);
    assert("Hit By Pitch"@[0] == 'H');
    assert("Fielders Choice"@.len() == 15);
    assert("Fielders Choice"@[0] == 'F');
    assert("Catcher Interference"@.len() == 20);
    assert("Catcher Interference"@[0] == 'C');
    assert("Stolen Base"@.len() == 11);
    assert("Stolen Base"@[0] == 'S');
    assert("Sac Fly"@.len() == 7);
    assert("Sac Fly"@[0] == 'S');
    assert("Sac Fly Double Play"@.len() == 19);
    assert("Sac Fly Double Play"@[0] == 'S');
    assert("Sac Bunt"@.len() == 8);
    assert("Sac Bunt"@[0] == 'S');
    assert("Sac Bunt Double Play"@.len() == 20);
    assert("Sac Bunt Double Play"@[0] == 'S');
    assert("Field Error"@.len() == 11);
    assert("Field Error"@[0] == 'F');
    assert("Game Advisory"@.len() == 13);
    assert("Game Advisory"@[0] == 'G');
    assert("Bunt Lineout"@[5] == 'L');
    assert("Bunt Pop Out"@[5] == 'P');
    assert("Pickoff"@[1] == 'i');
    assert("Pop Out"@[1] == 'o');
    assert("Runner Double Play"@[7] == 'D');
    assert("Runner Triple Play"@[7] == 'T');
}

} // verus!
