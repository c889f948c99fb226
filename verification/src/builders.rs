//! Incremental constructors for movements, plays and the whole game.
//! Each builder holds every field as an optional slot and finalizes only
//! when the slots that the selected play type requires are filled.

use vstd::prelude::*;
use vstd::string::*;

use crate::ontology::{Base, Inning};
use crate::play_type::PlayType;
use crate::content::{
    mviews, player_views, play_views, Context, ContextV, Game, GameV, Movement, MovementV, Play,
    PlayContent, PlayContentV, PlayV, Player, Team, TeamV, Weather, WeatherV,
};

verus! {

/// Copy a list of names; the copy has the same view.
pub fn clone_vec_string(v: &Vec<String>) -> (r: Vec<String>)
    ensures
        r.deep_view() == v.deep_view(),
{
    let mut r: Vec<String> = Vec::new();
    let mut i: usize = 0;
    while i < v.len()
        invariant
            0 <= i <= v.len(),
            r@.len() == i,
            forall|j: int| 0 <= j < i ==> r@[j]@ == v@[j]@,
        decreases v.len() - i,
    {
        r.push(v[i].clone());
        i += 1;
    }
    assert(r.deep_view() =~= v.deep_view());
    r
}

/// Copy a list of movements; the copy holds equal movements.
pub fn clone_movements(v: &Vec<Movement>) -> (r: Vec<Movement>)
    ensures
        r@ == v@,
{
    let mut r: Vec<Movement> = Vec::new();
    let mut i: usize = 0;
    while i < v.len()
        invariant
            0 <= i <= v.len(),
            r@ =~= v@.subrange(0, i as int),
        decreases v.len() - i,
    {
        let m = Movement {
            runner: v[i].runner.clone(),
            from: v[i].from,
            to: v[i].to,
            out: v[i].out,
        };
        r.push(m);
        i += 1;
    }
    assert(r@ =~= v@);
    r
}

/// Accumulates the parts of one runner movement while it streams in.
#[derive(Debug)]
pub struct MovementBuilder {
    pub runner: Option<String>,
    pub from: Option<Base>,
    pub to: Option<Base>,
    pub out: bool,
}

impl MovementBuilder {
    /// A builder with every slot unset.
    pub open spec fn spec_fresh(self) -> bool {
        self.runner is None && self.from is None && self.to is None && !self.out
    }

    /// All the slots a movement needs are filled.
    pub open spec fn spec_ok(self) -> bool {
        self.runner is Some && self.from is Some && self.to is Some
    }

    /// The movement the filled slots describe.
    pub open spec fn spec_movement(self) -> MovementV
        recommends
            self.spec_ok(),
    {
        MovementV {
            runner: self.runner->0@,
            from: self.from->0,
            to: self.to->0,
            out: self.out,
        }
    }

    pub fn new() -> (r: Self)
        ensures
            r.spec_fresh(),
    {
        Self { runner: None, from: None, to: None, out: false }
    }

    pub fn set_runner(&mut self, runner: String)
        ensures
            final(self).runner == Some(runner),
            final(self).from == old(self).from,
            final(self).to == old(self).to,
            final(self).out == old(self).out,
    {
        self.runner = Some(runner);
    }

    pub fn set_from(&mut self, from: Base)
        ensures
            final(self).from == Some(from),
            final(self).runner == old(self).runner,
            final(self).to == old(self).to,
            final(self).out == old(self).out,
    {
        self.from = Some(from);
    }

    pub fn set_to(&mut self, to: Base)
        ensures
            final(self).to == Some(to),
            final(self).runner == old(self).runner,
            final(self).from == old(self).from,
            final(self).out == old(self).out,
    {
        self.to = Some(to);
    }

    pub fn set_out(&mut self)
        ensures
            final(self).out,
            final(self).runner == old(self).runner,
            final(self).from == old(self).from,
            final(self).to == old(self).to,
    {
        self.out = true;
    }

    /// Promote the filled slots into a movement; fails, naming the first
    /// unset slot, when one is missing.
    pub fn build(&self) -> (r: Result<Movement, String>)
        ensures
            r is Ok <==> self.spec_ok(),
            r matches Ok(m) ==> m@ == self.spec_movement(),
            r matches Err(e) ==> e@ == (if self.runner is None {
                "Runner is required, not set"@
            } else if self.from is None {
                "From is required, not set"@
            } else {
                "To is required, not set"@
            }),
    {
        let runner = match &self.runner {
            Some(x) => x.clone(),
            None => {
                return Err(String::from_str("Runner is required, not set"));
            },
        };
        let from = match &self.from {
            Some(x) => *x,
            None => {
                return Err(String::from_str("From is required, not set"));
            },
        };
        let to = match &self.to {
            Some(x) => *x,
            None => {
                return Err(String::from_str("To is required, not set"));
            },
        };
        Ok(Movement { runner, from, to, out: self.out })
    }
}

/// Accumulates the parts of one play while it streams in.
pub struct PlayBuilder {
    pub inning: Option<Inning>,
    pub play_type: Option<PlayType>,
    pub base: Option<Base>,
    pub batter: Option<String>,
    pub pitcher: Option<String>,
    pub catcher: Option<String>,
    pub fielders: Vec<String>,
    pub runner: Option<String>,
    pub scoring_runner: Option<String>,
    pub movement_builder: MovementBuilder,
    pub movements: Vec<Movement>,
}

impl PlayBuilder {
    /// A builder with every slot unset.
    pub open spec fn spec_fresh(self) -> bool {
        &&& self.inning is None
        &&& self.play_type is None
        &&& self.base is None
        &&& self.batter is None
        &&& self.pitcher is None
        &&& self.catcher is None
        &&& self.fielders@ == Seq::<String>::empty()
        &&& self.runner is None
        &&& self.scoring_runner is None
        &&& self.movement_builder.spec_fresh()
        &&& self.movements@ == Seq::<Movement>::empty()
    }

    /// Every slot that the selected play type requires is filled.
    pub open spec fn spec_ok(self) -> bool {
        &&& self.inning is Some
        &&& self.play_type is Some
        &&& (self.play_type->0.spec_requires_base() ==> self.base is Some)
        &&& (self.play_type->0.spec_requires_batter() ==> self.batter is Some)
        &&& (self.play_type->0.spec_requires_pitcher() ==> self.pitcher is Some)
        &&& (self.play_type->0.spec_requires_catcher() ==> self.catcher is Some)
        &&& (self.play_type->0.spec_requires_runner() ==> self.runner is Some)
        &&& (self.play_type->0.spec_requires_scoring_runner() ==> self.scoring_runner is Some)
    }

    /// The content the filled slots describe for the selected play type.
    pub open spec fn spec_content(self) -> PlayContentV
        recommends
            self.spec_ok(),
    {
        match self.play_type {
            Some(PlayType::Groundout) => PlayContentV::Groundout { batter: self.batter->0@, pitcher: self.pitcher->0@, fielders: self.fielders.deep_view() },
            Some(PlayType::BuntGroundout) => PlayContentV::BuntGroundout { batter: self.batter->0@, pitcher: self.pitcher->0@, fielders: self.fielders.deep_view() },
            Some(PlayType::Strikeout) => PlayContentV::Strikeout { batter: self.batter->0@, pitcher: self.pitcher->0@ },
            Some(PlayType::Lineout) => PlayContentV::Lineout { batter: self.batter->0@, pitcher: self.pitcher->0@, fielders: self.fielders.deep_view() },
            Some(PlayType::BuntLineout) => PlayContentV::BuntLineout { batter: self.batter->0@, pitcher: self.pitcher->0@, fielders: self.fielders.deep_view() },
            Some(PlayType::Flyout) => PlayContentV::Flyout { batter: self.batter->0@, pitcher: self.pitcher->0@, fielders: self.fielders.deep_view() },
            Some(PlayType::PopOut) => PlayContentV::PopOut { batter: self.batter->0@, pitcher: self.pitcher->0@, fielders: self.fielders.deep_view() },
            Some(PlayType::BuntPopOut) => PlayContentV::BuntPopOut { batter: self.batter->0@, pitcher: self.pitcher->0@, fielders: self.fielders.deep_view() },
            Some(PlayType::Forceout) => PlayContentV::Forceout { batter: self.batter->0@, pitcher: self.pitcher->0@, fielders: self.fielders.deep_view() },
            Some(PlayType::FieldersChoiceOut) => PlayContentV::FieldersChoiceOut { batter: self.batter->0@, pitcher: self.pitcher->0@, fielders: self.fielders.deep_view(), scoring_runner: self.scoring_runner->0@ },
            Some(PlayType::DoublePlay) => PlayContentV::DoublePlay { batter: self.batter->0@, pitcher: self.pitcher->0@, fielders: self.fielders.deep_view() },
            Some(PlayType::TriplePlay) => PlayContentV::TriplePlay { batter: self.batter->0@, pitcher: self.pitcher->0@, fielders: self.fielders.deep_view() },
            Some(PlayType::RunnerDoublePlay) => PlayContentV::RunnerDoublePlay { batter: self.batter->0@, pitcher: self.pitcher->0@, fielders: self.fielders.deep_view() },
            Some(PlayType::RunnerTriplePlay) => PlayContentV::RunnerTriplePlay { batter: self.batter->0@, pitcher: self.pitcher->0@, fielders: self.fielders.deep_view() },
            Some(PlayType::GroundedIntoDoublePlay) => PlayContentV::GroundedIntoDoublePlay { batter: self.batter->0@, pitcher: self.pitcher->0@, fielders: self.fielders.deep_view() },
            Some(PlayType::StrikeoutDoublePlay) => PlayContentV::StrikeoutDoublePlay { batter: self.batter->0@, pitcher: self.pitcher->0@, fielders: self.fielders.deep_view() },
            Some(PlayType::Pickoff) => PlayContentV::Pickoff { base: self.base->0, fielders: self.fielders.deep_view(), runner: self.runner->0@ },
            Some(PlayType::PickoffError) => PlayContentV::PickoffError { base: self.base->0, fielders: self.fielders.deep_view(), runner: self.runner->0@ },
            Some(PlayType::CaughtStealing) => PlayContentV::CaughtStealing { base: self.base->0, fielders: self.fielders.deep_view(), runner: self.runner->0@ },
            Some(PlayType::PickoffCaughtStealing) => PlayContentV::PickoffCaughtStealing { base: self.base->0, fielders: self.fielders.deep_view(), runner: self.runner->0@ },
            Some(PlayType::WildPitch) => PlayContentV::WildPitch { pitcher: self.pitcher->0@, runner: self.runner->0@ },
            Some(PlayType::RunnerOut) => PlayContentV::RunnerOut { fielders: self.fielders.deep_view(), runner: self.runner->0@ },
            Some(PlayType::FieldOut) => PlayContentV::FieldOut { fielders: self.fielders.deep_view(), runner: self.runner->0@ },
            Some(PlayType::BatterOut) => PlayContentV::BatterOut { batter: self.batter->0@, catcher: self.catcher->0@ },
            Some(PlayType::Balk) => PlayContentV::Balk { pitcher: self.pitcher->0@ },
            Some(PlayType::PassedBall) => PlayContentV::PassedBall { pitcher: self.pitcher->0@, catcher: self.catcher->0@ },
            Some(PlayType::Error) => PlayContentV::Error { pitcher: self.pitcher->0@, catcher: self.catcher->0@ },
            Some(PlayType::Single) => PlayContentV::Single { batter: self.batter->0@, pitcher: self.pitcher->0@ },
            Some(PlayType::Double) => PlayContentV::Double { batter: self.batter->0@, pitcher: self.pitcher->0@ },
            Some(PlayType::Triple) => PlayContentV::Triple { batter: self.batter->0@, pitcher: self.pitcher->0@ },
            Some(PlayType::HomeRun) => PlayContentV::HomeRun { batter: self.batter->0@, pitcher: self.pitcher->0@ },
            Some(PlayType::Walk) => PlayContentV::Walk { batter: self.batter->0@, pitcher: self.pitcher->0@ },
            Some(PlayType::IntentWalk) => PlayContentV::IntentWalk { batter: self.batter->0@, pitcher: self.pitcher->0@ },
            Some(PlayType::HitByPitch) => PlayContentV::HitByPitch { batter: self.batter->0@, pitcher: self.pitcher->0@ },
            Some(PlayType::FieldersChoice) => PlayContentV::FieldersChoice { batter: self.batter->0@, pitcher: self.pitcher->0@, fielders: self.fielders.deep_view() },
            Some(PlayType::CatcherInterference) => PlayContentV::CatcherInterference { batter: self.batter->0@, pitcher: self.pitcher->0@, fielders: self.fielders.deep_view() },
            Some(PlayType::StolenBase) => PlayContentV::StolenBase { base: self.base->0, scoring_runner: self.scoring_runner->0@ },
            Some(PlayType::SacFly) => PlayContentV::SacFly { batter: self.batter->0@, pitcher: self.pitcher->0@, fielders: self.fielders.deep_view(), scoring_runner: self.scoring_runner->0@ },
            Some(PlayType::SacFlyDoublePlay) => PlayContentV::SacFlyDoublePlay { batter: self.batter->0@, pitcher: self.pitcher->0@, fielders: self.fielders.deep_view(), scoring_runner: self.scoring_runner->0@ },
            Some(PlayType::SacBunt) => PlayContentV::SacBunt { batter: self.batter->0@, pitcher: self.pitcher->0@, fielders: self.fielders.deep_view(), runner: self.runner->0@ },
            Some(PlayType::SacBuntDoublePlay) => PlayContentV::SacBuntDoublePlay { batter: self.batter->0@, pitcher: self.pitcher->0@, fielders: self.fielders.deep_view(), runner: self.runner->0@ },
            Some(PlayType::FieldError) => PlayContentV::FieldError { batter: self.batter->0@, pitcher: self.pitcher->0@, fielders: self.fielders.deep_view() },
            Some(PlayType::GameAdvisory) => PlayContentV::GameAdvisory,
            None => arbitrary(),
        }
    }

    /// The play the filled slots describe.
    pub open spec fn spec_play(self) -> PlayV
        recommends
            self.spec_ok(),
    {
        PlayV {
            inning: self.inning->0,
            play_content: self.spec_content(),
            movements: mviews(self.movements@),
        }
    }

    pub fn new() -> (r: Self)
        ensures
            r.spec_fresh(),
    {
        Self {
            inning: None,
            play_type: None,
            base: None,
            batter: None,
            pitcher: None,
            catcher: None,
            fielders: Vec::new(),
            runner: None,
            scoring_runner: None,
            movement_builder: MovementBuilder::new(),
            movements: Vec::new(),
        }
    }

    pub fn set_inning(&mut self, inning: Inning)
        ensures
            final(self).inning == Some(inning),
            final(self).play_type == old(self).play_type,
            final(self).base == old(self).base,
            final(self).batter == old(self).batter,
            final(self).pitcher == old(self).pitcher,
            final(self).catcher == old(self).catcher,
            final(self).fielders == old(self).fielders,
            final(self).runner == old(self).runner,
            final(self).scoring_runner == old(self).scoring_runner,
            final(self).movement_builder == old(self).movement_builder,
            final(self).movements == old(self).movements,
    {
        self.inning = Some(inning);
    }

    pub fn set_play_type(&mut self, play_type: PlayType)
        ensures
            final(self).play_type == Some(play_type),
            final(self).inning == old(self).inning,
            final(self).base == old(self).base,
            final(self).batter == old(self).batter,
            final(self).pitcher == old(self).pitcher,
            final(self).catcher == old(self).catcher,
            final(self).fielders == old(self).fielders,
            final(self).runner == old(self).runner,
            final(self).scoring_runner == old(self).scoring_runner,
            final(self).movement_builder == old(self).movement_builder,
            final(self).movements == old(self).movements,
    {
        self.play_type = Some(play_type);
    }

    pub fn set_base(&mut self, base: Base)
        ensures
            final(self).base == Some(base),
            final(self).inning == old(self).inning,
            final(self).play_type == old(self).play_type,
            final(self).batter == old(self).batter,
            final(self).pitcher == old(self).pitcher,
            final(self).catcher == old(self).catcher,
            final(self).fielders == old(self).fielders,
            final(self).runner == old(self).runner,
            final(self).scoring_runner == old(self).scoring_runner,
            final(self).movement_builder == old(self).movement_builder,
            final(self).movements == old(self).movements,
    {
        self.base = Some(base);
    }

    pub fn set_batter(&mut self, batter: String)
        ensures
            final(self).batter == Some(batter),
            final(self).inning == old(self).inning,
            final(self).play_type == old(self).play_type,
            final(self).base == old(self).base,
            final(self).pitcher == old(self).pitcher,
            final(self).catcher == old(self).catcher,
            final(self).fielders == old(self).fielders,
            final(self).runner == old(self).runner,
            final(self).scoring_runner == old(self).scoring_runner,
            final(self).movement_builder == old(self).movement_builder,
            final(self).movements == old(self).movements,
    {
        self.batter = Some(batter);
    }

    pub fn set_pitcher(&mut self, pitcher: String)
        ensures
            final(self).pitcher == Some(pitcher),
            final(self).inning == old(self).inning,
            final(self).play_type == old(self).play_type,
            final(self).base == old(self).base,
            final(self).batter == old(self).batter,
            final(self).catcher == old(self).catcher,
            final(self).fielders == old(self).fielders,
            final(self).runner == old(self).runner,
            final(self).scoring_runner == old(self).scoring_runner,
            final(self).movement_builder == old(self).movement_builder,
            final(self).movements == old(self).movements,
    {
        self.pitcher = Some(pitcher);
    }

    pub fn set_catcher(&mut self, catcher: String)
        ensures
            final(self).catcher == Some(catcher),
            final(self).inning == old(self).inning,
            final(self).play_type == old(self).play_type,
            final(self).base == old(self).base,
            final(self).batter == old(self).batter,
            final(self).pitcher == old(self).pitcher,
            final(self).fielders == old(self).fielders,
            final(self).runner == old(self).runner,
            final(self).scoring_runner == old(self).scoring_runner,
            final(self).movement_builder == old(self).movement_builder,
            final(self).movements == old(self).movements,
    {
        self.catcher = Some(catcher);
    }

    pub fn add_fielder(&mut self, fielder: String)
        ensures
            final(self).fielders@ == old(self).fielders@.push(fielder),
            final(self).inning == old(self).inning,
            final(self).play_type == old(self).play_type,
            final(self).base == old(self).base,
            final(self).batter == old(self).batter,
            final(self).pitcher == old(self).pitcher,
            final(self).catcher == old(self).catcher,
            final(self).runner == old(self).runner,
            final(self).scoring_runner == old(self).scoring_runner,
            final(self).movement_builder == old(self).movement_builder,
            final(self).movements == old(self).movements,
    {
        self.fielders.push(fielder);
    }

    pub fn set_runner(&mut self, runner: String)
        ensures
            final(self).runner == Some(runner),
            final(self).inning == old(self).inning,
            final(self).play_type == old(self).play_type,
            final(self).base == old(self).base,
            final(self).batter == old(self).batter,
            final(self).pitcher == old(self).pitcher,
            final(self).catcher == old(self).catcher,
            final(self).fielders == old(self).fielders,
            final(self).scoring_runner == old(self).scoring_runner,
            final(self).movement_builder == old(self).movement_builder,
            final(self).movements == old(self).movements,
    {
        self.runner = Some(runner);
    }

    pub fn set_scoring_runner(&mut self, scoring_runner: String)
        ensures
            final(self).scoring_runner == Some(scoring_runner),
            final(self).inning == old(self).inning,
            final(self).play_type == old(self).play_type,
            final(self).base == old(self).base,
            final(self).batter == old(self).batter,
            final(self).pitcher == old(self).pitcher,
            final(self).catcher == old(self).catcher,
            final(self).fielders == old(self).fielders,
            final(self).runner == old(self).runner,
            final(self).movement_builder == old(self).movement_builder,
            final(self).movements == old(self).movements,
    {
        self.scoring_runner = Some(scoring_runner);
    }

    pub fn reset_movement_builder(&mut self)
        ensures
            final(self).movement_builder.spec_fresh(),
            final(self).inning == old(self).inning,
            final(self).play_type == old(self).play_type,
            final(self).base == old(self).base,
            final(self).batter == old(self).batter,
            final(self).pitcher == old(self).pitcher,
            final(self).catcher == old(self).catcher,
            final(self).fielders == old(self).fielders,
            final(self).runner == old(self).runner,
            final(self).scoring_runner == old(self).scoring_runner,
            final(self).movements == old(self).movements,
    {
        self.movement_builder = MovementBuilder::new();
    }

    /// Finalize the movement being accumulated, append it to the play's
    /// movement list, and reset the movement builder.
    pub fn build_movement(&mut self) -> (r: Result<(), String>)
        ensures
            r is Ok <==> old(self).movement_builder.spec_ok(),
            r is Ok ==> {
                &&& mviews(final(self).movements@) == mviews(old(self).movements@).push(
                    old(self).movement_builder.spec_movement())
                &&& final(self).movement_builder.spec_fresh()
            },
            r is Err ==> *final(self) == *old(self),
            final(self).inning == old(self).inning,
            final(self).play_type == old(self).play_type,
            final(self).base == old(self).base,
            final(self).batter == old(self).batter,
            final(self).pitcher == old(self).pitcher,
            final(self).catcher == old(self).catcher,
            final(self).fielders == old(self).fielders,
            final(self).runner == old(self).runner,
            final(self).scoring_runner == old(self).scoring_runner,
    {
        let m = match self.movement_builder.build() {
            Ok(m) => m,
            Err(e) => {
                return Err(e);
            },
        };
        self.movements.push(m);
        self.reset_movement_builder();
        assert(mviews(self.movements@) =~= mviews(old(self).movements@).push(
            old(self).movement_builder.spec_movement()));
        Ok(())
    }

    /// Finalize the play: select the content variant for the set play type
    /// and populate it from the matching slots; `None` when the type, the
    /// inning or a required slot is unset.
    #[verifier::rlimit(60)]
    pub fn build(&self) -> (r: Option<Play>)
        ensures
            r is Some <==> self.spec_ok(),
            r matches Some(p) ==> p@ == self.spec_play(),
    {
        let play_content = match self.play_type {
            Some(PlayType::Groundout) => {
                let batter = match &self.batter {
                    Some(x) => x.clone(),
                    None => {
                        return None;
                    },
                };
                let pitcher = match &self.pitcher {
                    Some(x) => x.clone(),
                    None => {
                        return None;
                    },
                };
                PlayContent::Groundout { batter, pitcher, fielders: clone_vec_string(&self.fielders) }
            },
            Some(PlayType::BuntGroundout) => {
                let batter = match &self.batter {
                    Some(x) => x.clone(),
                    None => {
                        return None;
                    },
                };
                let pitcher = match &self.pitcher {
                    Some(x) => x.clone(),
                    None => {
                        return None;
                    },
                };
                PlayContent::BuntGroundout { batter, pitcher, fielders: clone_vec_string(&self.fielders) }
            },
            Some(PlayType::Strikeout) => {
                let batter = match &self.batter {
                    Some(x) => x.clone(),
                    None => {
                        return None;
                    },
                };
                let pitcher = match &self.pitcher {
                    Some(x) => x.clone(),
                    None => {
                        return None;
                    },
                };
                PlayContent::Strikeout { batter, pitcher }
            },
            Some(PlayType::Lineout) => {
                let batter = match &self.batter {
                    Some(x) => x.clone(),
                    None => {
                        return None;
                    },
                };
                let pitcher = match &self.pitcher {
                    Some(x) => x.clone(),
                    None => {
                        return None;
                    },
                };
                PlayContent::Lineout { batter, pitcher, fielders: clone_vec_string(&self.fielders) }
            },
            Some(PlayType::BuntLineout) => {
                let batter = match &self.batter {
                    Some(x) => x.clone(),
                    None => {
                        return None;
                    },
                };
                let pitcher = match &self.pitcher {
                    Some(x) => x.clone(),
                    None => {
                        return None;
                    },
                };
                PlayContent::BuntLineout { batter, pitcher, fielders: clone_vec_string(&self.fielders) }
            },
            Some(PlayType::Flyout) => {
                let batter = match &self.batter {
                    Some(x) => x.clone(),
                    None => {
                        return None;
                    },
                };
                let pitcher = match &self.pitcher {
                    Some(x) => x.clone(),
                    None => {
                        return None;
                    },
                };
                PlayContent::Flyout { batter, pitcher, fielders: clone_vec_string(&self.fielders) }
            },
            Some(PlayType::PopOut) => {
                let batter = match &self.batter {
                    Some(x) => x.clone(),
                    None => {
                        return None;
                    },
                };
                let pitcher = match &self.pitcher {
                    Some(x) => x.clone(),
                    None => {
                        return None;
                    },
                };
                PlayContent::PopOut { batter, pitcher, fielders: clone_vec_string(&self.fielders) }
            },
            Some(PlayType::BuntPopOut) => {
                let batter = match &self.batter {
                    Some(x) => x.clone(),
                    None => {
                        return None;
                    },
                };
                let pitcher = match &self.pitcher {
                    Some(x) => x.clone(),
                    None => {
                        return None;
                    },
                };
                PlayContent::BuntPopOut { batter, pitcher, fielders: clone_vec_string(&self.fielders) }
            },
            Some(PlayType::Forceout) => {
                let batter = match &self.batter {
                    Some(x) => x.clone(),
                    None => {
                        return None;
                    },
                };
                let pitcher = match &self.pitcher {
                    Some(x) => x.clone(),
                    None => {
                        return None;
                    },
                };
                PlayContent::Forceout { batter, pitcher, fielders: clone_vec_string(&self.fielders) }
            },
            Some(PlayType::FieldersChoiceOut) => {
                let batter = match &self.batter {
                    Some(x) => x.clone(),
                    None => {
                        return None;
                    },
                };
                let pitcher = match &self.pitcher {
                    Some(x) => x.clone(),
                    None => {
                        return None;
                    },
                };
                let scoring_runner = match &self.scoring_runner {
                    Some(x) => x.clone(),
                    None => {
                        return None;
                    },
                };
                PlayContent::FieldersChoiceOut { batter, pitcher, fielders: clone_vec_string(&self.fielders), scoring_runner }
            },
            Some(PlayType::DoublePlay) => {
                let batter = match &self.batter {
                    Some(x) => x.clone(),
                    None => {
                        return None;
                    },
                };
                let pitcher = match &self.pitcher {
                    Some(x) => x.clone(),
                    None => {
                        return None;
                    },
                };
                PlayContent::DoublePlay { batter, pitcher, fielders: clone_vec_string(&self.fielders) }
            },
            Some(PlayType::TriplePlay) => {
                let batter = match &self.batter {
                    Some(x) => x.clone(),
                    None => {
                        return None;
                    },
                };
                let pitcher = match &self.pitcher {
                    Some(x) => x.clone(),
                    None => {
                        return None;
                    },
                };
                PlayContent::TriplePlay { batter, pitcher, fielders: clone_vec_string(&self.fielders) }
            },
            Some(PlayType::RunnerDoublePlay) => {
                let batter = match &self.batter {
                    Some(x) => x.clone(),
                    None => {
                        return None;
                    },
                };
                let pitcher = match &self.pitcher {
                    Some(x) => x.clone(),
                    None => {
                        return None;
                    },
                };
                PlayContent::RunnerDoublePlay { batter, pitcher, fielders: clone_vec_string(&self.fielders) }
            },
            Some(PlayType::RunnerTriplePlay) => {
                let batter = match &self.batter {
                    Some(x) => x.clone(),
                    None => {
                        return None;
                    },
                };
                let pitcher = match &self.pitcher {
                    Some(x) => x.clone(),
                    None => {
                        return None;
                    },
                };
                PlayContent::RunnerTriplePlay { batter, pitcher, fielders: clone_vec_string(&self.fielders) }
            },
            Some(PlayType::GroundedIntoDoublePlay) => {
                let batter = match &self.batter {
                    Some(x) => x.clone(),
                    None => {
                        return None;
                    },
                };
                let pitcher = match &self.pitcher {
                    Some(x) => x.clone(),
                    None => {
                        return None;
                    },
                };
                PlayContent::GroundedIntoDoublePlay { batter, pitcher, fielders: clone_vec_string(&self.fielders) }
            },
            Some(PlayType::StrikeoutDoublePlay) => {
                let batter = match &self.batter {
                    Some(x) => x.clone(),
                    None => {
                        return None;
                    },
                };
                let pitcher = match &self.pitcher {
                    Some(x) => x.clone(),
                    None => {
                        return None;
                    },
                };
                PlayContent::StrikeoutDoublePlay { batter, pitcher, fielders: clone_vec_string(&self.fielders) }
            },
            Some(PlayType::Pickoff) => {
                let base = match &self.base {
                    Some(x) => *x,
                    None => {
                        return None;
                    },
                };
                let runner = match &self.runner {
                    Some(x) => x.clone(),
                    None => {
                        return None;
                    },
                };
                PlayContent::Pickoff { base, fielders: clone_vec_string(&self.fielders), runner }
            },
            Some(PlayType::PickoffError) => {
                let base = match &self.base {
                    Some(x) => *x,
                    None => {
                        return None;
                    },
                };
                let runner = match &self.runner {
                    Some(x) => x.clone(),
                    None => {
                        return None;
                    },
                };
                PlayContent::PickoffError { base, fielders: clone_vec_string(&self.fielders), runner }
            },
            Some(PlayType::CaughtStealing) => {
                let base = match &self.base {
                    Some(x) => *x,
                    None => {
                        return None;
                    },
                };
                let runner = match &self.runner {
                    Some(x) => x.clone(),
                    None => {
                        return None;
                    },
                };
                PlayContent::CaughtStealing { base, fielders: clone_vec_string(&self.fielders), runner }
            },
            Some(PlayType::PickoffCaughtStealing) => {
                let base = match &self.base {
                    Some(x) => *x,
                    None => {
                        return None;
                    },
                };
                let runner = match &self.runner {
                    Some(x) => x.clone(),
                    None => {
                        return None;
                    },
                };
                PlayContent::PickoffCaughtStealing { base, fielders: clone_vec_string(&self.fielders), runner }
            },
            Some(PlayType::WildPitch) => {
                let pitcher = match &self.pitcher {
                    Some(x) => x.clone(),
                    None => {
                        return None;
                    },
                };
                let runner = match &self.runner {
                    Some(x) => x.clone(),
                    None => {
                        return None;
                    },
                };
                PlayContent::WildPitch { pitcher, runner }
            },
            Some(PlayType::RunnerOut) => {
                let runner = match &self.runner {
                    Some(x) => x.clone(),
                    None => {
                        return None;
                    },
                };
                PlayContent::RunnerOut { fielders: clone_vec_string(&self.fielders), runner }
            },
            Some(PlayType::FieldOut) => {
                let runner = match &self.runner {
                    Some(x) => x.clone(),
                    None => {
                        return None;
                    },
                };
                PlayContent::FieldOut { fielders: clone_vec_string(&self.fielders), runner }
            },
            Some(PlayType::BatterOut) => {
                let batter = match &self.batter {
                    Some(x) => x.clone(),
                    None => {
                        return None;
                    },
                };
                let catcher = match &self.catcher {
                    Some(x) => x.clone(),
                    None => {
                        return None;
                    },
                };
                PlayContent::BatterOut { batter, catcher }
            },
            Some(PlayType::Balk) => {
                let pitcher = match &self.pitcher {
                    Some(x) => x.clone(),
                    None => {
                        return None;
                    },
                };
                PlayContent::Balk { pitcher }
            },
            Some(PlayType::PassedBall) => {
                let pitcher = match &self.pitcher {
                    Some(x) => x.clone(),
                    None => {
                        return None;
                    },
                };
                let catcher = match &self.catcher {
                    Some(x) => x.clone(),
                    None => {
                        return None;
                    },
                };
                PlayContent::PassedBall { pitcher, catcher }
            },
            Some(PlayType::Error) => {
                let pitcher = match &self.pitcher {
                    Some(x) => x.clone(),
                    None => {
                        return None;
                    },
                };
                let catcher = match &self.catcher {
                    Some(x) => x.clone(),
                    None => {
                        return None;
                    },
                };
                PlayContent::Error { pitcher, catcher }
            },
            Some(PlayType::Single) => {
                let batter = match &self.batter {
                    Some(x) => x.clone(),
                    None => {
                        return None;
                    },
                };
                let pitcher = match &self.pitcher {
                    Some(x) => x.clone(),
                    None => {
                        return None;
                    },
                };
                PlayContent::Single { batter, pitcher }
            },
            Some(PlayType::Double) => {
                let batter = match &self.batter {
                    Some(x) => x.clone(),
                    None => {
                        return None;
                    },
                };
                let pitcher = match &self.pitcher {
                    Some(x) => x.clone(),
                    None => {
                        return None;
                    },
                };
                PlayContent::Double { batter, pitcher }
            },
            Some(PlayType::Triple) => {
                let batter = match &self.batter {
                    Some(x) => x.clone(),
                    None => {
                        return None;
                    },
                };
                let pitcher = match &self.pitcher {
                    Some(x) => x.clone(),
                    None => {
                        return None;
                    },
                };
                PlayContent::Triple { batter, pitcher }
            },
            Some(PlayType::HomeRun) => {
                let batter = match &self.batter {
                    Some(x) => x.clone(),
                    None => {
                        return None;
                    },
                };
                let pitcher = match &self.pitcher {
                    Some(x) => x.clone(),
                    None => {
                        return None;
                    },
                };
                PlayContent::HomeRun { batter, pitcher }
            },
            Some(PlayType::Walk) => {
                let batter = match &self.batter {
                    Some(x) => x.clone(),
                    None => {
                        return None;
                    },
                };
                let pitcher = match &self.pitcher {
                    Some(x) => x.clone(),
                    None => {
                        return None;
                    },
                };
                PlayContent::Walk { batter, pitcher }
            },
            Some(PlayType::IntentWalk) => {
                let batter = match &self.batter {
                    Some(x) => x.clone(),
                    None => {
                        return None;
                    },
                };
                let pitcher = match &self.pitcher {
                    Some(x) => x.clone(),
                    None => {
                        return None;
                    },
                };
                PlayContent::IntentWalk { batter, pitcher }
            },
            Some(PlayType::HitByPitch) => {
                let batter = match &self.batter {
                    Some(x) => x.clone(),
                    None => {
                        return None;
                    },
                };
                let pitcher = match &self.pitcher {
                    Some(x) => x.clone(),
                    None => {
                        return None;
                    },
                };
                PlayContent::HitByPitch { batter, pitcher }
            },
            Some(PlayType::FieldersChoice) => {
                let batter = match &self.batter {
                    Some(x) => x.clone(),
                    None => {
                        return None;
                    },
                };
                let pitcher = match &self.pitcher {
                    Some(x) => x.clone(),
                    None => {
                        return None;
                    },
                };
                PlayContent::FieldersChoice { batter, pitcher, fielders: clone_vec_string(&self.fielders) }
            },
            Some(PlayType::CatcherInterference) => {
                let batter = match &self.batter {
                    Some(x) => x.clone(),
                    None => {
                        return None;
                    },
                };
                let pitcher = match &self.pitcher {
                    Some(x) => x.clone(),
                    None => {
                        return None;
                    },
                };
                PlayContent::CatcherInterference { batter, pitcher, fielders: clone_vec_string(&self.fielders) }
            },
            Some(PlayType::StolenBase) => {
                let base = match &self.base {
                    Some(x) => *x,
                    None => {
                        return None;
                    },
                };
                let scoring_runner = match &self.scoring_runner {
                    Some(x) => x.clone(),
                    None => {
                        return None;
                    },
                };
                PlayContent::StolenBase { base, scoring_runner }
            },
            Some(PlayType::SacFly) => {
                let batter = match &self.batter {
                    Some(x) => x.clone(),
                    None => {
                        return None;
                    },
                };
                let pitcher = match &self.pitcher {
                    Some(x) => x.clone(),
                    None => {
                        return None;
                    },
                };
                let scoring_runner = match &self.scoring_runner {
                    Some(x) => x.clone(),
                    None => {
                        return None;
                    },
                };
                PlayContent::SacFly { batter, pitcher, fielders: clone_vec_string(&self.fielders), scoring_runner }
            },
            Some(PlayType::SacFlyDoublePlay) => {
                let batter = match &self.batter {
                    Some(x) => x.clone(),
                    None => {
                        return None;
                    },
                };
                let pitcher = match &self.pitcher {
                    Some(x) => x.clone(),
                    None => {
                        return None;
                    },
                };
                let scoring_runner = match &self.scoring_runner {
                    Some(x) => x.clone(),
                    None => {
                        return None;
                    },
                };
                PlayContent::SacFlyDoublePlay { batter, pitcher, fielders: clone_vec_string(&self.fielders), scoring_runner }
            },
            Some(PlayType::SacBunt) => {
                let batter = match &self.batter {
                    Some(x) => x.clone(),
                    None => {
                        return None;
                    },
                };
                let pitcher = match &self.pitcher {
                    Some(x) => x.clone(),
                    None => {
                        return None;
                    },
                };
                let runner = match &self.runner {
                    Some(x) => x.clone(),
                    None => {
                        return None;
                    },
                };
                PlayContent::SacBunt { batter, pitcher, fielders: clone_vec_string(&self.fielders), runner }
            },
            Some(PlayType::SacBuntDoublePlay) => {
                let batter = match &self.batter {
                    Some(x) => x.clone(),
                    None => {
                        return None;
                    },
                };
                let pitcher = match &self.pitcher {
                    Some(x) => x.clone(),
                    None => {
                        return None;
                    },
                };
                let runner = match &self.runner {
                    Some(x) => x.clone(),
                    None => {
                        return None;
                    },
                };
                PlayContent::SacBuntDoublePlay { batter, pitcher, fielders: clone_vec_string(&self.fielders), runner }
            },
            Some(PlayType::FieldError) => {
                let batter = match &self.batter {
                    Some(x) => x.clone(),
                    None => {
                        return None;
                    },
                };
                let pitcher = match &self.pitcher {
                    Some(x) => x.clone(),
                    None => {
                        return None;
                    },
                };
                PlayContent::FieldError { batter, pitcher, fielders: clone_vec_string(&self.fielders) }
            },
            Some(PlayType::GameAdvisory) => PlayContent::GameAdvisory,
            None => {
                return None;
            },
        };
        let inning = match self.inning {
            Some(i) => i,
            None => {
                return None;
            },
        };
        Some(Play { inning, play_content, movements: clone_movements(&self.movements) })
    }
}

/// Copy a roster; the copy holds equal players.
pub fn clone_players(v: &Vec<Player>) -> (r: Vec<Player>)
    ensures
        r@ == v@,
{
    let mut r: Vec<Player> = Vec::new();
    let mut i: usize = 0;
    while i < v.len()
        invariant
            0 <= i <= v.len(),
            r@ =~= v@.subrange(0, i as int),
        decreases v.len() - i,
    {
        let p = Player { position: v[i].position, name: v[i].name.clone() };
        r.push(p);
        i += 1;
    }
    assert(r@ =~= v@);
    r
}

/// Copy a play content; the copy has the same view.
pub fn clone_content(c: &PlayContent) -> (r: PlayContent)
    ensures
        r@ == c@,
{
    match c {
        PlayContent::Groundout { batter, pitcher, fielders } => PlayContent::Groundout { batter: batter.clone(), pitcher: pitcher.clone(), fielders: clone_vec_string(fielders) },
        PlayContent::BuntGroundout { batter, pitcher, fielders } => PlayContent::BuntGroundout { batter: batter.clone(), pitcher: pitcher.clone(), fielders: clone_vec_string(fielders) },
        PlayContent::Strikeout { batter, pitcher } => PlayContent::Strikeout { batter: batter.clone(), pitcher: pitcher.clone() },
        PlayContent::Lineout { batter, pitcher, fielders } => PlayContent::Lineout { batter: batter.clone(), pitcher: pitcher.clone(), fielders: clone_vec_string(fielders) },
        PlayContent::BuntLineout { batter, pitcher, fielders } => PlayContent::BuntLineout { batter: batter.clone(), pitcher: pitcher.clone(), fielders: clone_vec_string(fielders) },
        PlayContent::Flyout { batter, pitcher, fielders } => PlayContent::Flyout { batter: batter.clone(), pitcher: pitcher.clone(), fielders: clone_vec_string(fielders) },
        PlayContent::PopOut { batter, pitcher, fielders } => PlayContent::PopOut { batter: batter.clone(), pitcher: pitcher.clone(), fielders: clone_vec_string(fielders) },
        PlayContent::BuntPopOut { batter, pitcher, fielders } => PlayContent::BuntPopOut { batter: batter.clone(), pitcher: pitcher.clone(), fielders: clone_vec_string(fielders) },
        PlayContent::Forceout { batter, pitcher, fielders } => PlayContent::Forceout { batter: batter.clone(), pitcher: pitcher.clone(), fielders: clone_vec_string(fielders) },
        PlayContent::FieldersChoiceOut { batter, pitcher, fielders, scoring_runner } => PlayContent::FieldersChoiceOut { batter: batter.clone(), pitcher: pitcher.clone(), fielders: clone_vec_string(fielders), scoring_runner: scoring_runner.clone() },
        PlayContent::DoublePlay { batter, pitcher, fielders } => PlayContent::DoublePlay { batter: batter.clone(), pitcher: pitcher.clone(), fielders: clone_vec_string(fielders) },
        PlayContent::TriplePlay { batter, pitcher, fielders } => PlayContent::TriplePlay { batter: batter.clone(), pitcher: pitcher.clone(), fielders: clone_vec_string(fielders) },
        PlayContent::RunnerDoublePlay { batter, pitcher, fielders } => PlayContent::RunnerDoublePlay { batter: batter.clone(), pitcher: pitcher.clone(), fielders: clone_vec_string(fielders) },
        PlayContent::RunnerTriplePlay { batter, pitcher, fielders } => PlayContent::RunnerTriplePlay { batter: batter.clone(), pitcher: pitcher.clone(), fielders: clone_vec_string(fielders) },
        PlayContent::GroundedIntoDoublePlay { batter, pitcher, fielders } => PlayContent::GroundedIntoDoublePlay { batter: batter.clone(), pitcher: pitcher.clone(), fielders: clone_vec_string(fielders) },
        PlayContent::StrikeoutDoublePlay { batter, pitcher, fielders } => PlayContent::StrikeoutDoublePlay { batter: batter.clone(), pitcher: pitcher.clone(), fielders: clone_vec_string(fielders) },
        PlayContent::Pickoff { base, fielders, runner } => PlayContent::Pickoff { base: *base, fielders: clone_vec_string(fielders), runner: runner.clone() },
        PlayContent::PickoffError { base, fielders, runner } => PlayContent::PickoffError { base: *base, fielders: clone_vec_string(fielders), runner: runner.clone() },
        PlayContent::CaughtStealing { base, fielders, runner } => PlayContent::CaughtStealing { base: *base, fielders: clone_vec_string(fielders), runner: runner.clone() },
        PlayContent::PickoffCaughtStealing { base, fielders, runner } => PlayContent::PickoffCaughtStealing { base: *base, fielders: clone_vec_string(fielders), runner: runner.clone() },
        PlayContent::WildPitch { pitcher, runner } => PlayContent::WildPitch { pitcher: pitcher.clone(), runner: runner.clone() },
        PlayContent::RunnerOut { fielders, runner } => PlayContent::RunnerOut { fielders: clone_vec_string(fielders), runner: runner.clone() },
        PlayContent::FieldOut { fielders, runner } => PlayContent::FieldOut { fielders: clone_vec_string(fielders), runner: runner.clone() },
        PlayContent::BatterOut { batter, catcher } => PlayContent::BatterOut { batter: batter.clone(), catcher: catcher.clone() },
        PlayContent::Balk { pitcher } => PlayContent::Balk { pitcher: pitcher.clone() },
        PlayContent::PassedBall { pitcher, catcher } => PlayContent::PassedBall { pitcher: pitcher.clone(), catcher: catcher.clone() },
        PlayContent::Error { pitcher, catcher } => PlayContent::Error { pitcher: pitcher.clone(), catcher: catcher.clone() },
        PlayContent::Single { batter, pitcher } => PlayContent::Single { batter: batter.clone(), pitcher: pitcher.clone() },
        PlayContent::Double { batter, pitcher } => PlayContent::Double { batter: batter.clone(), pitcher: pitcher.clone() },
        PlayContent::Triple { batter, pitcher } => PlayContent::Triple { batter: batter.clone(), pitcher: pitcher.clone() },
        PlayContent::HomeRun { batter, pitcher } => PlayContent::HomeRun { batter: batter.clone(), pitcher: pitcher.clone() },
        PlayContent::Walk { batter, pitcher } => PlayContent::Walk { batter: batter.clone(), pitcher: pitcher.clone() },
        PlayContent::IntentWalk { batter, pitcher } => PlayContent::IntentWalk { batter: batter.clone(), pitcher: pitcher.clone() },
        PlayContent::HitByPitch { batter, pitcher } => PlayContent::HitByPitch { batter: batter.clone(), pitcher: pitcher.clone() },
        PlayContent::FieldersChoice { batter, pitcher, fielders } => PlayContent::FieldersChoice { batter: batter.clone(), pitcher: pitcher.clone(), fielders: clone_vec_string(fielders) },
        PlayContent::CatcherInterference { batter, pitcher, fielders } => PlayContent::CatcherInterference { batter: batter.clone(), pitcher: pitcher.clone(), fielders: clone_vec_string(fielders) },
        PlayContent::StolenBase { base, scoring_runner } => PlayContent::StolenBase { base: *base, scoring_runner: scoring_runner.clone() },
        PlayContent::SacFly { batter, pitcher, fielders, scoring_runner } => PlayContent::SacFly { batter: batter.clone(), pitcher: pitcher.clone(), fielders: clone_vec_string(fielders), scoring_runner: scoring_runner.clone() },
        PlayContent::SacFlyDoublePlay { batter, pitcher, fielders, scoring_runner } => PlayContent::SacFlyDoublePlay { batter: batter.clone(), pitcher: pitcher.clone(), fielders: clone_vec_string(fielders), scoring_runner: scoring_runner.clone() },
        PlayContent::SacBunt { batter, pitcher, fielders, runner } => PlayContent::SacBunt { batter: batter.clone(), pitcher: pitcher.clone(), fielders: clone_vec_string(fielders), runner: runner.clone() },
        PlayContent::SacBuntDoublePlay { batter, pitcher, fielders, runner } => PlayContent::SacBuntDoublePlay { batter: batter.clone(), pitcher: pitcher.clone(), fielders: clone_vec_string(fielders), runner: runner.clone() },
        PlayContent::FieldError { batter, pitcher, fielders } => PlayContent::FieldError { batter: batter.clone(), pitcher: pitcher.clone(), fielders: clone_vec_string(fielders) },
        PlayContent::GameAdvisory => PlayContent::GameAdvisory,
    }
}

/// Copy a list of plays; the copies have the same views.
pub fn clone_plays(v: &Vec<Play>) -> (r: Vec<Play>)
    ensures
        play_views(r@) == play_views(v@),
{
    let mut r: Vec<Play> = Vec::new();
    let mut i: usize = 0;
    while i < v.len()
        invariant
            0 <= i <= v.len(),
            r@.len() == i,
            forall|j: int| 0 <= j < i ==> r@[j]@ == v@[j]@,
        decreases v.len() - i,
    {
        let p = Play {
            inning: v[i].inning,
            play_content: clone_content(&v[i].play_content),
            movements: clone_movements(&v[i].movements),
        };
        r.push(p);
        i += 1;
    }
    assert(play_views(r@) =~= play_views(v@));
    r
}

/// Accumulates the parts of a whole game while it streams in.
pub struct GameBuilder {
    pub game_pk: Option<u64>,
    pub date: Option<String>,
    pub venue: Option<String>,
    pub weather_condition: Option<String>,
    pub weather_temperature: Option<u64>,
    pub weather_wind_speed: Option<u64>,
    pub home_team_id: Option<u64>,
    pub home_team_players: Vec<Player>,
    pub away_team_id: Option<u64>,
    pub away_team_players: Vec<Player>,
    pub play_builder: PlayBuilder,
    pub plays: Vec<Play>,
}

impl GameBuilder {
    /// Every field the finished game needs is filled.
    pub open spec fn spec_ok(self) -> bool {
        &&& self.game_pk is Some
        &&& self.date is Some
        &&& self.venue is Some
        &&& self.weather_condition is Some
        &&& self.weather_temperature is Some
        &&& self.weather_wind_speed is Some
        &&& self.home_team_id is Some
        &&& self.away_team_id is Some
    }

    /// The game the filled fields describe.
    pub open spec fn spec_game(self) -> GameV
        recommends
            self.spec_ok(),
    {
        GameV {
            context: ContextV {
                game_pk: self.game_pk->0,
                date: self.date->0@,
                venue: self.venue->0@,
                weather: WeatherV {
                    condition: self.weather_condition->0@,
                    temperature: self.weather_temperature->0,
                    wind_speed: self.weather_wind_speed->0,
                },
            },
            home_team: TeamV {
                team_id: self.home_team_id->0,
                players: player_views(self.home_team_players@),
            },
            away_team: TeamV {
                team_id: self.away_team_id->0,
                players: player_views(self.away_team_players@),
            },
            plays: play_views(self.plays@),
        }
    }

    pub fn new() -> (r: Self)
        ensures
            r.game_pk is None,
            r.date is None,
            r.venue is None,
            r.weather_condition is None,
            r.weather_temperature is None,
            r.weather_wind_speed is None,
            r.home_team_id is None,
            r.home_team_players@ == Seq::<Player>::empty(),
            r.away_team_id is None,
            r.away_team_players@ == Seq::<Player>::empty(),
            r.play_builder.spec_fresh(),
            r.plays@ == Seq::<Play>::empty(),
    {
        Self {
            game_pk: None,
            date: None,
            venue: None,
            weather_condition: None,
            weather_temperature: None,
            weather_wind_speed: None,
            home_team_id: None,
            home_team_players: Vec::new(),
            away_team_id: None,
            away_team_players: Vec::new(),
            play_builder: PlayBuilder::new(),
            plays: Vec::new(),
        }
    }

    pub fn set_game_pk(&mut self, game_pk: u64)
        ensures
            final(self).game_pk == Some(game_pk),
            final(self).date == old(self).date,
            final(self).venue == old(self).venue,
            final(self).weather_condition == old(self).weather_condition,
            final(self).weather_temperature == old(self).weather_temperature,
            final(self).weather_wind_speed == old(self).weather_wind_speed,
            final(self).home_team_id == old(self).home_team_id,
            final(self).home_team_players == old(self).home_team_players,
            final(self).away_team_id == old(self).away_team_id,
            final(self).away_team_players == old(self).away_team_players,
            final(self).play_builder == old(self).play_builder,
            final(self).plays == old(self).plays,
    {
        self.game_pk = Some(game_pk);
    }

    pub fn set_date(&mut self, date: String)
        ensures
            final(self).date == Some(date),
            final(self).game_pk == old(self).game_pk,
            final(self).venue == old(self).venue,
            final(self).weather_condition == old(self).weather_condition,
            final(self).weather_temperature == old(self).weather_temperature,
            final(self).weather_wind_speed == old(self).weather_wind_speed,
            final(self).home_team_id == old(self).home_team_id,
            final(self).home_team_players == old(self).home_team_players,
            final(self).away_team_id == old(self).away_team_id,
            final(self).away_team_players == old(self).away_team_players,
            final(self).play_builder == old(self).play_builder,
            final(self).plays == old(self).plays,
    {
        self.date = Some(date);
    }

    pub fn set_venue(&mut self, venue: String)
        ensures
            final(self).venue == Some(venue),
            final(self).game_pk == old(self).game_pk,
            final(self).date == old(self).date,
            final(self).weather_condition == old(self).weather_condition,
            final(self).weather_temperature == old(self).weather_temperature,
            final(self).weather_wind_speed == old(self).weather_wind_speed,
            final(self).home_team_id == old(self).home_team_id,
            final(self).home_team_players == old(self).home_team_players,
            final(self).away_team_id == old(self).away_team_id,
            final(self).away_team_players == old(self).away_team_players,
            final(self).play_builder == old(self).play_builder,
            final(self).plays == old(self).plays,
    {
        self.venue = Some(venue);
    }

    pub fn set_weather(&mut self, condition: String, temperature: u64, wind_speed: u64)
        ensures
            final(self).weather_condition == Some(condition),
            final(self).weather_temperature == Some(temperature),
            final(self).weather_wind_speed == Some(wind_speed),
            final(self).game_pk == old(self).game_pk,
            final(self).date == old(self).date,
            final(self).venue == old(self).venue,
            final(self).home_team_id == old(self).home_team_id,
            final(self).home_team_players == old(self).home_team_players,
            final(self).away_team_id == old(self).away_team_id,
            final(self).away_team_players == old(self).away_team_players,
            final(self).play_builder == old(self).play_builder,
            final(self).plays == old(self).plays,
    {
        self.weather_condition = Some(condition);
        self.weather_temperature = Some(temperature);
        self.weather_wind_speed = Some(wind_speed);
    }

    pub fn set_home_team_id(&mut self, home_team_id: u64)
        ensures
            final(self).home_team_id == Some(home_team_id),
            final(self).game_pk == old(self).game_pk,
            final(self).date == old(self).date,
            final(self).venue == old(self).venue,
            final(self).weather_condition == old(self).weather_condition,
            final(self).weather_temperature == old(self).weather_temperature,
            final(self).weather_wind_speed == old(self).weather_wind_speed,
            final(self).home_team_players == old(self).home_team_players,
            final(self).away_team_id == old(self).away_team_id,
            final(self).away_team_players == old(self).away_team_players,
            final(self).play_builder == old(self).play_builder,
            final(self).plays == old(self).plays,
    {
        self.home_team_id = Some(home_team_id);
    }

    pub fn add_home_team_player(&mut self, player: Player)
        ensures
            final(self).home_team_players@ == old(self).home_team_players@.push(player),
            final(self).game_pk == old(self).game_pk,
            final(self).date == old(self).date,
            final(self).venue == old(self).venue,
            final(self).weather_condition == old(self).weather_condition,
            final(self).weather_temperature == old(self).weather_temperature,
            final(self).weather_wind_speed == old(self).weather_wind_speed,
            final(self).home_team_id == old(self).home_team_id,
            final(self).away_team_id == old(self).away_team_id,
            final(self).away_team_players == old(self).away_team_players,
            final(self).play_builder == old(self).play_builder,
            final(self).plays == old(self).plays,
    {
        self.home_team_players.push(player);
    }

    pub fn set_away_team_id(&mut self, away_team_id: u64)
        ensures
            final(self).away_team_id == Some(away_team_id),
            final(self).game_pk == old(self).game_pk,
            final(self).date == old(self).date,
            final(self).venue == old(self).venue,
            final(self).weather_condition == old(self).weather_condition,
            final(self).weather_temperature == old(self).weather_temperature,
            final(self).weather_wind_speed == old(self).weather_wind_speed,
            final(self).home_team_id == old(self).home_team_id,
            final(self).home_team_players == old(self).home_team_players,
            final(self).away_team_players == old(self).away_team_players,
            final(self).play_builder == old(self).play_builder,
            final(self).plays == old(self).plays,
    {
        self.away_team_id = Some(away_team_id);
    }

    pub fn add_away_team_player(&mut self, player: Player)
        ensures
            final(self).away_team_players@ == old(self).away_team_players@.push(player),
            final(self).game_pk == old(self).game_pk,
            final(self).date == old(self).date,
            final(self).venue == old(self).venue,
            final(self).weather_condition == old(self).weather_condition,
            final(self).weather_temperature == old(self).weather_temperature,
            final(self).weather_wind_speed == old(self).weather_wind_speed,
            final(self).home_team_id == old(self).home_team_id,
            final(self).home_team_players == old(self).home_team_players,
            final(self).away_team_id == old(self).away_team_id,
            final(self).play_builder == old(self).play_builder,
            final(self).plays == old(self).plays,
    {
        self.away_team_players.push(player);
    }

    pub fn reset_play_builder(&mut self)
        ensures
            final(self).play_builder.spec_fresh(),
            final(self).game_pk == old(self).game_pk,
            final(self).date == old(self).date,
            final(self).venue == old(self).venue,
            final(self).weather_condition == old(self).weather_condition,
            final(self).weather_temperature == old(self).weather_temperature,
            final(self).weather_wind_speed == old(self).weather_wind_speed,
            final(self).home_team_id == old(self).home_team_id,
            final(self).home_team_players == old(self).home_team_players,
            final(self).away_team_id == old(self).away_team_id,
            final(self).away_team_players == old(self).away_team_players,
            final(self).plays == old(self).plays,
    {
        self.play_builder = PlayBuilder::new();
    }

    /// Finalize the play being accumulated, append it to the play list,
    /// and reset the play builder; `None`, with nothing changed, when a
    /// required slot of the play is unset.
    pub fn build_play(&mut self) -> (r: Option<()>)
        ensures
            r is Some <==> old(self).play_builder.spec_ok(),
            r is Some ==> {
                &&& play_views(final(self).plays@) == play_views(old(self).plays@).push(
                    old(self).play_builder.spec_play())
                &&& final(self).play_builder.spec_fresh()
            },
            r is None ==> *final(self) == *old(self),
            final(self).game_pk == old(self).game_pk,
            final(self).date == old(self).date,
            final(self).venue == old(self).venue,
            final(self).weather_condition == old(self).weather_condition,
            final(self).weather_temperature == old(self).weather_temperature,
            final(self).weather_wind_speed == old(self).weather_wind_speed,
            final(self).home_team_id == old(self).home_team_id,
            final(self).home_team_players == old(self).home_team_players,
            final(self).away_team_id == old(self).away_team_id,
            final(self).away_team_players == old(self).away_team_players,
    {
        let p = match self.play_builder.build() {
            Some(p) => p,
            None => {
                return None;
            },
        };
        self.plays.push(p);
        self.reset_play_builder();
        assert(play_views(self.plays@) =~= play_views(old(self).plays@).push(
            old(self).play_builder.spec_play()));
        Some(())
    }

    /// Finalize the whole game; `None` when a required context or team
    /// field is unset.
    pub fn build(&self) -> (r: Option<Game>)
        ensures
            r is Some <==> self.spec_ok(),
            r matches Some(g) ==> g@ == self.spec_game(),
    {
        let game_pk = match self.game_pk {
            Some(x) => x,
            None => {
                return None;
            },
        };
        let weather_temperature = match self.weather_temperature {
            Some(x) => x,
            None => {
                return None;
            },
        };
        let weather_wind_speed = match self.weather_wind_speed {
            Some(x) => x,
            None => {
                return None;
            },
        };
        let home_team_id = match self.home_team_id {
            Some(x) => x,
            None => {
                return None;
            },
        };
        let away_team_id = match self.away_team_id {
            Some(x) => x,
            None => {
                return None;
            },
        };
        let date = match &self.date {
            Some(x) => x.clone(),
            None => {
                return None;
            },
        };
        let venue = match &self.venue {
            Some(x) => x.clone(),
            None => {
                return None;
            },
        };
        let weather_condition = match &self.weather_condition {
            Some(x) => x.clone(),
            None => {
                return None;
            },
        };
        let context = Context {
            game_pk,
            date,
            venue,
            weather: Weather {
                condition: weather_condition,
                temperature: weather_temperature,
                wind_speed: weather_wind_speed,
            },
        };
        let home_team = Team { team_id: home_team_id, players: clone_players(&self.home_team_players) };
        let away_team = Team { team_id: away_team_id, players: clone_players(&self.away_team_players) };
        let g = Game { context, home_team, away_team, plays: clone_plays(&self.plays) };
        assert(g@ == self.spec_game()) by {
            assert(player_views(g.home_team.players@) =~= player_views(self.home_team_players@));
            assert(player_views(g.away_team.players@) =~= player_views(self.away_team_players@));
        }
        Some(g)
    }
}

} // verus!
