//! The closed domain vocabulary: player positions, play types, bases and
//! inning sides, with their canonical surface spellings and the predicates
//! that say which sub-sections each play type requires.

use vstd::prelude::*;
use vstd::string::*;

verus! {

/// A defensive position, as it appears in a `[<POSITION>]` team-roster tag.
#[derive(Clone, Copy, PartialEq, Eq, Debug, Structural)]
pub enum Position {
    Pitcher,
    Catcher,
    FirstBase,
    SecondBase,
    ThirdBase,
    Shortstop,
    LeftField,
    CenterField,
    RightField,
    DesignatedHitter,
    PinchHitter,
    PinchRunner,
    TwoWayPlayer,
    Outfield,
    Infield,
    Utility,
    ReliefPitcher,
    StartingPitcher,
}

impl Position {
    /// The canonical upper-snake-case spelling of a position.
    pub open spec fn spec_text(self) -> Seq<char> {
        match self {
            Position::Pitcher => "PITCHER"@,
            Position::Catcher => "CATCHER"@,
            Position::FirstBase => "FIRST_BASE"@,
            Position::SecondBase => "SECOND_BASE"@,
            Position::ThirdBase => "THIRD_BASE"@,
            Position::Shortstop => "SHORTSTOP"@,
            Position::LeftField => "LEFT_FIELD"@,
            Position::CenterField => "CENTER_FIELD"@,
            Position::RightField => "RIGHT_FIELD"@,
            Position::DesignatedHitter => "DESIGNATED_HITTER"@,
            Position::PinchHitter => "PINCH_HITTER"@,
            Position::PinchRunner => "PINCH_RUNNER"@,
            Position::TwoWayPlayer => "TWO_WAY_PLAYER"@,
            Position::Outfield => "OUTFIELD"@,
            Position::Infield => "INFIELD"@,
            Position::Utility => "UTILITY"@,
            Position::ReliefPitcher => "RELIEF_PITCHER"@,
            Position::StartingPitcher => "STARTING_PITCHER"@,
        }
    }

    /// The canonical spelling, as an owned string.
    pub fn text(&self) -> (r: String)
        ensures
            r@ == self.spec_text(),
    {
        match self {
            Position::Pitcher => String::from_str("PITCHER"),
            Position::Catcher => String::from_str("CATCHER"),
            Position::FirstBase => String::from_str("FIRST_BASE"),
            Position::SecondBase => String::from_str("SECOND_BASE"),
            Position::ThirdBase => String::from_str("THIRD_BASE"),
            Position::Shortstop => String::from_str("SHORTSTOP"),
            Position::LeftField => String::from_str("LEFT_FIELD"),
            Position::CenterField => String::from_str("CENTER_FIELD"),
            Position::RightField => String::from_str("RIGHT_FIELD"),
            Position::DesignatedHitter => String::from_str("DESIGNATED_HITTER"),
            Position::PinchHitter => String::from_str("PINCH_HITTER"),
            Position::PinchRunner => String::from_str("PINCH_RUNNER"),
            Position::TwoWayPlayer => String::from_str("TWO_WAY_PLAYER"),
            Position::Outfield => String::from_str("OUTFIELD"),
            Position::Infield => String::from_str("INFIELD"),
            Position::Utility => String::from_str("UTILITY"),
            Position::ReliefPitcher => String::from_str("RELIEF_PITCHER"),
            Position::StartingPitcher => String::from_str("STARTING_PITCHER"),
        }
    }

    /// Which position, if any, a string spells.
    pub open spec fn spec_from_text(s: Seq<char>) -> Option<Position> {
        if s == "PITCHER"@ {
            Some(Position::Pitcher)
        } else if s == "CATCHER"@ {
            Some(Position::Catcher)
        } else if s == "FIRST_BASE"@ {
            Some(Position::FirstBase)
        } else if s == "SECOND_BASE"@ {
            Some(Position::SecondBase)
        } else if s == "THIRD_BASE"@ {
            Some(Position::ThirdBase)
        } else if s == "SHORTSTOP"@ {
            Some(Position::Shortstop)
        } else if s == "LEFT_FIELD"@ {
            Some(Position::LeftField)
        } else if s == "CENTER_FIELD"@ {
            Some(Position::CenterField)
        } else if s == "RIGHT_FIELD"@ {
            Some(Position::RightField)
        } else if s == "DESIGNATED_HITTER"@ {
            Some(Position::DesignatedHitter)
        } else if s == "PINCH_HITTER"@ {
            Some(Position::PinchHitter)
        } else if s == "PINCH_RUNNER"@ {
            Some(Position::PinchRunner)
        } else if s == "TWO_WAY_PLAYER"@ {
            Some(Position::TwoWayPlayer)
        } else if s == "OUTFIELD"@ {
            Some(Position::Outfield)
        } else if s == "INFIELD"@ {
            Some(Position::Infield)
        } else if s == "UTILITY"@ {
            Some(Position::Utility)
        } else if s == "RELIEF_PITCHER"@ {
            Some(Position::ReliefPitcher)
        } else if s == "STARTING_PITCHER"@ {
            Some(Position::StartingPitcher)
        } else {
            None
        }
    }

    /// Parse a canonical position spelling.
    pub fn from_text(s: &str) -> (r: Option<Position>)
        ensures
            r == Position::spec_from_text(s@),
    {
        if str_eq(s, "PITCHER") {
            Some(Position::Pitcher)
        } else if str_eq(s, "CATCHER") {
            Some(Position::Catcher)
        } else if str_eq(s, "FIRST_BASE") {
            Some(Position::FirstBase)
        } else if str_eq(s, "SECOND_BASE") {
            Some(Position::SecondBase)
        } else if str_eq(s, "THIRD_BASE") {
            Some(Position::ThirdBase)
        } else if str_eq(s, "SHORTSTOP") {
            Some(Position::Shortstop)
        } else if str_eq(s, "LEFT_FIELD") {
            Some(Position::LeftField)
        } else if str_eq(s, "CENTER_FIELD") {
            Some(Position::CenterField)
        } else if str_eq(s, "RIGHT_FIELD") {
            Some(Position::RightField)
        } else if str_eq(s, "DESIGNATED_HITTER") {
            Some(Position::DesignatedHitter)
        } else if str_eq(s, "PINCH_HITTER") {
            Some(Position::PinchHitter)
        } else if str_eq(s, "PINCH_RUNNER") {
            Some(Position::PinchRunner)
        } else if str_eq(s, "TWO_WAY_PLAYER") {
            Some(Position::TwoWayPlayer)
        } else if str_eq(s, "OUTFIELD") {
            Some(Position::Outfield)
        } else if str_eq(s, "INFIELD") {
            Some(Position::Infield)
        } else if str_eq(s, "UTILITY") {
            Some(Position::Utility)
        } else if str_eq(s, "RELIEF_PITCHER") {
            Some(Position::ReliefPitcher)
        } else if str_eq(s, "STARTING_PITCHER") {
            Some(Position::StartingPitcher)
        } else {
            None
        }
    }
}

/// All positions, in declaration order; the order fixes the alternation
/// order inside the synthesized team-roster pattern.
pub open spec fn spec_all_positions() -> Seq<Position> {
    seq![
        Position::Pitcher,
        Position::Catcher,
        Position::FirstBase,
        Position::SecondBase,
        Position::ThirdBase,
        Position::Shortstop,
        Position::LeftField,
        Position::CenterField,
        Position::RightField,
        Position::DesignatedHitter,
        Position::PinchHitter,
        Position::PinchRunner,
        Position::TwoWayPlayer,
        Position::Outfield,
        Position::Infield,
        Position::Utility,
        Position::ReliefPitcher,
        Position::StartingPitcher,
    ]
}

/// All positions, in declaration order.
pub fn all_positions() -> (r: Vec<Position>)
    ensures
        r@ == spec_all_positions(),
{
    let r: Vec<Position> = vec![
        Position::Pitcher,
        Position::Catcher,
        Position::FirstBase,
        Position::SecondBase,
        Position::ThirdBase,
        Position::Shortstop,
        Position::LeftField,
        Position::CenterField,
        Position::RightField,
        Position::DesignatedHitter,
        Position::PinchHitter,
        Position::PinchRunner,
        Position::TwoWayPlayer,
        Position::Outfield,
        Position::Infield,
        Position::Utility,
        Position::ReliefPitcher,
        Position::StartingPitcher,
    ];
    assert(r@ =~= spec_all_positions());
    r
}

/// Parsing a position's canonical spelling gives the position back.
pub proof fn lemma_position_round_trip(p: Position)
    ensures
        Position::spec_from_text(p.spec_text()) == Some(p),
{
    reveal_strlit("PITCHER");
    reveal_strlit("CATCHER");
    reveal_strlit("FIRST_BASE");
    reveal_strlit("SECOND_BASE");
    reveal_strlit("THIRD_BASE");
    reveal_strlit("SHORTSTOP");
    reveal_strlit("LEFT_FIELD");
    reveal_strlit("CENTER_FIELD");
    reveal_strlit("RIGHT_FIELD");
    reveal_strlit("DESIGNATED_HITTER");
    reveal_strlit("PINCH_HITTER");
    reveal_strlit("PINCH_RUNNER");
    reveal_strlit("TWO_WAY_PLAYER");
    reveal_strlit("OUTFIELD");
    reveal_strlit("INFIELD");
    reveal_strlit("UTILITY");
    reveal_strlit("RELIEF_PITCHER");
    reveal_strlit("STARTING_PITCHER");
    // Pin each spelling's length and leading character; where two spellings
    // share both, pin a later character, so that no two compare equal.
    assert("PITCHER"@.len() == 7);
    assert("PITCHER"@[0] == 'P');
    assert("CATCHER"@.len() == 7);
    assert("CATCHER"@[0] == 'C');
    assert("FIRST_BASE"@.len() == 10);
    assert("FIRST_BASE"@[0] == 'F');
    assert("SECOND_BASE"@.len() == 11);
    assert("SECOND_BASE"@[0] == 'S');
    assert("THIRD_BASE"@.len() == 10);
    assert("THIRD_BASE"@[0] == 'T');
    assert("SHORTSTOP"@.len() == 9);
    assert("SHORTSTOP"@[0] == 'S');
    assert("LEFT_FIELD"@.len() == 10);
    assert("LEFT_FIELD"@[0] == 'L');
    assert("CENTER_FIELD"@.len() == 12);
    assert("CENTER_FIELD"@[0] == 'C');
    assert("RIGHT_FIELD"@.len() == 11);
    assert("RIGHT_FIELD"@[0] == 'R');
    assert("DESIGNATED_HITTER"@.len() == 17);
    assert("DESIGNATED_HITTER"@[0] == 'D');
    assert("PINCH_HITTER"@.len() == 12);
    assert("PINCH_HITTER"@[0] == 'P');
    assert("PINCH_RUNNER"@.len() == 12);
    assert("PINCH_RUNNER"@[0] == 'P');
    assert("TWO_WAY_PLAYER"@.len() == 14);
    assert("TWO_WAY_PLAYER"@[0] == 'T');
    assert("OUTFIELD"@.len() == 8);
    assert("OUTFIELD"@[0] == 'O');
    assert("INFIELD"@.len() == 7);
    assert("INFIELD"@[0] == 'I');
    assert("UTILITY"@.len() == 7);
    assert("UTILITY"@[0] == 'U');
    assert("RELIEF_PITCHER"@.len() == 14);
    assert("RELIEF_PITCHER"@[0] == 'R');
    assert("STARTING_PITCHER"@.len() == 16);
    assert("STARTING_PITCHER"@[0] == 'S');
    assert("PINCH_HITTER"@[6] == 'H');
    assert("PINCH_RUNNER"@[6] == 'R');
}

/// Whether an inning is the visiting team's half or the home team's half.
#[derive(Clone, Copy, Debug, PartialEq, Eq, Structural)]
pub enum TopBottom {
    Top,
    Bottom,
}

impl TopBottom {
    /// The surface spelling of an inning side.
    pub open spec fn spec_text(self) -> Seq<char> {
        match self {
            TopBottom::Top => "top"@,
            TopBottom::Bottom => "bottom"@,
        }
    }

    /// The surface spelling, as an owned string.
    pub fn text(&self) -> (r: String)
        ensures
            r@ == self.spec_text(),
    {
        match self {
            TopBottom::Top => String::from_str("top"),
            TopBottom::Bottom => String::from_str("bottom"),
        }
    }

    /// Which inning side, if any, a string spells.
    pub open spec fn spec_from_text(s: Seq<char>) -> Option<TopBottom> {
        if s == "top"@ {
            Some(TopBottom::Top)
        } else if s == "bottom"@ {
            Some(TopBottom::Bottom)
        } else {
            None
        }
    }

    /// Parse an inning-side spelling.
    pub fn from_text(s: &str) -> (r: Option<TopBottom>)
        ensures
            r == TopBottom::spec_from_text(s@),
    {
        if str_eq(s, "top") {
            Some(TopBottom::Top)
        } else if str_eq(s, "bottom") {
            Some(TopBottom::Bottom)
        } else {
            None
        }
    }
}

/// Parsing an inning side's spelling gives the side back.
pub proof fn lemma_top_bottom_round_trip(t: TopBottom)
    ensures
        TopBottom::spec_from_text(t.spec_text()) == Some(t),
{
    reveal_strlit("top");
    reveal_strlit("bottom");
    assert("top"@.len() == 3);
    assert("bottom"@.len() == 6);
}

/// An inning: its number and its side.
#[derive(Clone, Copy, Debug, PartialEq, Eq, Structural)]
pub struct Inning {
    pub number: u64,
    pub top_bottom: TopBottom,
}

/// Which end of a movement a base comparison looks at: as a starting base
/// home ranks lowest, as an ending base home ranks highest.
#[derive(Clone, Copy, Debug, Structural, PartialEq, Eq)]
pub enum BaseComparison {
    From,
    To,
}

/// One of the four bases. The surface token `4` is an alias for `Home`.
#[derive(Clone, Copy, Debug, PartialEq, Eq, Hash, Structural)]
pub enum Base {
    Home,
    First,
    Second,
    Third,
}

impl Base {
    /// The rank of a base when it starts a movement: home is earliest.
    pub open spec fn from_rank(self) -> int {
        match self {
            Base::Home => 0,
            Base::First => 1,
            Base::Second => 2,
            Base::Third => 3,
        }
    }

    /// The rank of a base when it ends a movement: home is latest.
    pub open spec fn to_rank(self) -> int {
        match self {
            Base::First => 1,
            Base::Second => 2,
            Base::Third => 3,
            Base::Home => 4,
        }
    }

    /// Compare two bases in the ordering chosen by `comparison`; under
    /// `From`, home sorts strictly before every base (itself included),
    /// and under `To` strictly after.
    pub fn compare(&self, other: &Base, comparison: BaseComparison) -> (r: core::cmp::Ordering)
        ensures
            comparison == BaseComparison::From && (self is Home || other is Home) ==> r == (
            if self is Home {
                core::cmp::Ordering::Less
            } else {
                core::cmp::Ordering::Greater
            }),
            comparison == BaseComparison::To && (self is Home || other is Home) ==> r == (
            if self is Home {
                core::cmp::Ordering::Greater
            } else {
                core::cmp::Ordering::Less
            }),
            !(self is Home) && !(other is Home) ==> r == (if self.from_rank() < other.from_rank() {
                core::cmp::Ordering::Less
            } else if self.from_rank() == other.from_rank() {
                core::cmp::Ordering::Equal
            } else {
                core::cmp::Ordering::Greater
            }),
    {
        match (comparison, self, other) {
            (BaseComparison::From, Base::Home, _) => core::cmp::Ordering::Less,
            (BaseComparison::From, _, Base::Home) => core::cmp::Ordering::Greater,
            (BaseComparison::To, Base::Home, _) => core::cmp::Ordering::Greater,
            (BaseComparison::To, _, Base::Home) => core::cmp::Ordering::Less,
            (_, Base::First, Base::First) => core::cmp::Ordering::Equal,
            (_, Base::First, _) => core::cmp::Ordering::Less,
            (_, Base::Second, Base::First) => core::cmp::Ordering::Greater,
            (_, Base::Second, Base::Second) => core::cmp::Ordering::Equal,
            (_, Base::Second, Base::Third) => core::cmp::Ordering::Less,
            (_, Base::Third, Base::Third) => core::cmp::Ordering::Equal,
            (_, Base::Third, _) => core::cmp::Ordering::Greater,
        }
    }

    /// The surface spelling of a base when it is printed.
    pub open spec fn spec_text(self) -> Seq<char> {
        match self {
            Base::Home => "home"@,
            Base::First => "1"@,
            Base::Second => "2"@,
            Base::Third => "3"@,
        }
    }

    /// The surface spelling, as an owned string.
    pub fn text(&self) -> (r: String)
        ensures
            r@ == self.spec_text(),
    {
        match self {
            Base::Home => String::from_str("home"),
            Base::First => String::from_str("1"),
            Base::Second => String::from_str("2"),
            Base::Third => String::from_str("3"),
        }
    }

    /// Which base, if any, a surface token names; `4` and `home` both name
    /// home plate.
    pub open spec fn spec_from_text(s: Seq<char>) -> Option<Base> {
        if s == "1"@ {
            Some(Base::First)
        } else if s == "2"@ {
            Some(Base::Second)
        } else if s == "3"@ {
            Some(Base::Third)
        } else if s == "4"@ || s == "home"@ {
            Some(Base::Home)
        } else {
            None
        }
    }

    /// Parse a surface base token.
    pub fn from_text(s: &str) -> (r: Option<Base>)
        ensures
            r == Base::spec_from_text(s@),
    {
        if str_eq(s, "1") {
            Some(Base::First)
        } else if str_eq(s, "2") {
            Some(Base::Second)
        } else if str_eq(s, "3") {
            Some(Base::Third)
        } else if str_eq(s, "4") || str_eq(s, "home") {
            Some(Base::Home)
        } else {
            None
        }
    }
}

/// Parsing a base's printed spelling gives the base back.
pub proof fn lemma_base_round_trip(b: Base)
    ensures
        Base::spec_from_text(b.spec_text()) == Some(b),
{
    reveal_strlit("home");
    reveal_strlit("1");
    reveal_strlit("2");
    reveal_strlit("3");
    reveal_strlit("4");
    assert("home"@.len() == 4);
    assert("1"@.len() == 1);
    assert("2"@.len() == 1);
    assert("3"@.len() == 1);
    assert("4"@.len() == 1);
    assert("1"@[0] == '1');
    assert("2"@[0] == '2');
    assert("3"@[0] == '3');
    assert("4"@[0] == '4');
}

/// Compare two strings character by character.
pub fn str_eq(a: &str, b: &str) -> (r: bool)
    ensures
        r == (a@ == b@),
{
    let a_len = a.unicode_len();
    let b_len = b.unicode_len();
    if a_len != b_len {
        assert(a@ != b@);
        return false;
    }
    let mut i: usize = 0;
    while i < a_len
        invariant
            0 <= i <= a_len,
            a_len == a@.len(),
            b_len == b@.len(),
            a_len == b_len,
            forall|j: int| 0 <= j < i ==> a@[j] == b@[j],
        decreases a_len - i,
    {
        if a.get_char(i) != b.get_char(i) {
            assert(a@ != b@);
            return false;
        }
        i += 1;
    }
    assert(a@ =~= b@);
    true
}

} // verus!
