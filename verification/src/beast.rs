use vstd::prelude::*;
use crate::config::{ACTIONS, N_TYPES};

verus! {

/// What a beast can see: the kinds of things that live in (or bound) the world.
#[derive(Clone, Copy, Debug, PartialEq, Eq, Structural)]
pub enum BeastKind {
    Wall,
    Plant,
    Herbivore,
    Carnivore,
}

/// The name under which each kind travels in messages and sample files.
pub open spec fn kind_name(k: BeastKind) -> Seq<char> {
    match k {
        BeastKind::Wall => "Wall"@,
        BeastKind::Plant => "Plant"@,
        BeastKind::Herbivore => "Herbivore"@,
        BeastKind::Carnivore => "Carnivore"@,
    }
}

/// The kind a name stands for, if any.
pub open spec fn kind_named(name: Seq<char>) -> Option<BeastKind> {
    if name == "Wall"@ {
        Some(BeastKind::Wall)
    } else if name == "Plant"@ {
        Some(BeastKind::Plant)
    } else if name == "Herbivore"@ {
        Some(BeastKind::Herbivore)
    } else if name == "Carnivore"@ {
        Some(BeastKind::Carnivore)
    } else {
        None
    }
}

/// The layer of the sensory grid in which a kind is recorded.
pub open spec fn kind_layer(k: BeastKind) -> nat {
    match k {
        BeastKind::Wall => 0,
        BeastKind::Plant => 1,
        BeastKind::Herbivore => 2,
        BeastKind::Carnivore => 3,
    }
}

/// Character-wise equality of two strings.
pub fn str_eq(a: &str, b: &str) -> (r: bool)
    ensures
        r == (a@ == b@),
{
    let n: usize = a.unicode_len();
    if n != b.unicode_len() {
        return false;
    }
    let mut i: usize = 0;
    while i < n
        invariant
            n == a@.len(),
            n == b@.len(),
            i <= n,
            forall|j: int| 0 <= j < i ==> a@[j] == b@[j],
        decreases n - i,
    {
        if a.get_char(i) != b.get_char(i) {
            return false;
        }
        i = i + 1;
    }
    assert(a@ =~= b@);
    true
}

impl BeastKind {
    /// The name of the kind, as the world map and the sample files spell it.
    pub fn name(&self) -> (s: &'static str)
        ensures
            s@ == kind_name(*self),
    {
        match self {
            BeastKind::Wall => "Wall",
            BeastKind::Plant => "Plant",
            BeastKind::Herbivore => "Herbivore",
            BeastKind::Carnivore => "Carnivore",
        }
    }

    /// Reads a kind from its name; an unknown name gives `None`.
    pub fn from_name(name: &str) -> (k: Option<BeastKind>)
        ensures
            k == kind_named(name@),
    {
        if str_eq(name, "Wall") {
            Some(BeastKind::Wall)
        } else if str_eq(name, "Plant") {
            Some(BeastKind::Plant)
        } else if str_eq(name, "Herbivore") {
            Some(BeastKind::Herbivore)
        } else if str_eq(name, "Carnivore") {
            Some(BeastKind::Carnivore)
        } else {
            None
        }
    }

    /// The layer of the sensory grid in which this kind is recorded:
    /// wall 0, plant 1, herbivore 2, carnivore 3.
    pub fn signal_index(&self) -> (i: usize)
        ensures
            i == kind_layer(*self),
            i < N_TYPES,
    {
        match self {
            BeastKind::Wall => 0,
            BeastKind::Plant => 1,
            BeastKind::Herbivore => 2,
            BeastKind::Carnivore => 3,
        }
    }
}

/// Reading back the name of a kind gives the kind again.
pub proof fn lemma_kind_name_round_trip(k: BeastKind)
    ensures
        kind_named(kind_name(k)) == Some(k),
{
    reveal_strlit("Wall");
    reveal_strlit("Plant");
    reveal_strlit("Herbivore");
    reveal_strlit("Carnivore");
    assert("Wall"@.len() == 4);
    assert("Plant"@.len() == 5);
    assert("Herbivore"@.len() == 9 && "Herbivore"@[0] == 'H');
    assert("Carnivore"@.len() == 9 && "Carnivore"@[0] == 'C');
}

/// Why a beast is no longer alive.
#[derive(Clone, Copy, Debug, PartialEq, Eq, Structural)]
pub enum CauseOfDeath {
    Unknown,
    Starved,
    Eaten,
}

impl CauseOfDeath {
    /// The word printed when the beast dies.
    pub fn name(&self) -> (s: &'static str)
        ensures
            s@ == match *self {
                CauseOfDeath::Unknown => "unknown"@,
                CauseOfDeath::Starved => "starved"@,
                CauseOfDeath::Eaten => "eaten"@,
            },
    {
        match self {
            CauseOfDeath::Unknown => "unknown",
            CauseOfDeath::Starved => "starved",
            CauseOfDeath::Eaten => "eaten",
        }
    }
}

/// The seven moves a beast chooses from on each tick.
#[derive(Clone, Copy, Debug, PartialEq, Eq, Structural)]
pub enum Action {
    /// Move forward at the base speed.
    SpeedOne,
    /// Move forward at twice the base speed.
    SpeedTwo,
    /// Move forward at three times the base speed.
    SpeedThree,
    /// Move forward at the current speed.
    Forward,
    /// Turn left by 15 degrees, then move.
    Left,
    /// Turn right by 15 degrees, then move.
    Right,
    /// Step backwards at the base speed.
    Back,
}

/// The number of an action in the output of the network.
pub open spec fn action_number(a: Action) -> int {
    match a {
        Action::SpeedOne => 0,
        Action::SpeedTwo => 1,
        Action::SpeedThree => 2,
        Action::Forward => 3,
        Action::Left => 4,
        Action::Right => 5,
        Action::Back => 6,
    }
}

impl Action {
    /// Decodes the action chosen by the network; numbers outside `0..7`
    /// name no action.
    pub fn from_index(n: i64) -> (a: Option<Action>)
        ensures
            a is Some <==> 0 <= n < ACTIONS,
            a matches Some(act) ==> action_number(act) == n,
    {
        match n {
            0 => Some(Action::SpeedOne),
            1 => Some(Action::SpeedTwo),
            2 => Some(Action::SpeedThree),
            3 => Some(Action::Forward),
            4 => Some(Action::Left),
            5 => Some(Action::Right),
            6 => Some(Action::Back),
            _ => None,
        }
    }

    /// The number of the action.
    pub fn index(&self) -> (n: i64)
        ensures
            n == action_number(*self),
    {
        match self {
            Action::SpeedOne => 0,
            Action::SpeedTwo => 1,
            Action::SpeedThree => 2,
            Action::Forward => 3,
            Action::Left => 4,
            Action::Right => 5,
            Action::Back => 6,
        }
    }
}

/// Every action has its own number in `0..ACTIONS`, and no two actions share one.
pub proof fn lemma_action_numbers(a: Action, b: Action)
    ensures
        0 <= action_number(a) < ACTIONS,
        action_number(a) == action_number(b) ==> a == b,
{
}

} // verus!
