use vstd::prelude::*;
use crate::beast::BeastKind;
use crate::config::PLANT_FREQ;
use crate::random::random_in_range;

verus! {

/// Ticks an iteration runs at least before it may end.
pub const MIN_TICKS: i32 = 25;

/// Whether an iteration of the simulation is over once a beast has died:
/// after the first `MIN_TICKS` ticks it ends when no herbivore is left.
/// Carnivores are not spawned yet, so their absence ends nothing.
pub open spec fn iteration_over(kinds: Seq<BeastKind>, tick: int) -> bool {
    !kinds.contains(BeastKind::Herbivore) && tick > MIN_TICKS
}

/// Decides, after a death, whether the iteration is over, from the kinds of
/// the beasts still in the world and the ticks elapsed.
pub fn simulation_over(kinds: &Vec<BeastKind>, iteration_sim: i32) -> (over: bool)
    ensures
        over == iteration_over(kinds@, iteration_sim as int),
{
    let mut herbi = false;
    let mut carni = true;
    let mut i: usize = 0;
    while i < kinds.len()
        invariant
            i <= kinds@.len(),
            herbi == exists|j: int| 0 <= j < i && kinds@[j] == BeastKind::Herbivore,
            carni,
        decreases kinds@.len() - i,
    {
        if kinds[i] == BeastKind::Herbivore {
            herbi = true;
        }
        if kinds[i] == BeastKind::Carnivore {
            carni = true;
        }
        i = i + 1;
    }
    proof {
        if herbi {
            let j = choose|j: int| 0 <= j < kinds@.len() && kinds@[j] == BeastKind::Herbivore;
            assert(kinds@.contains(BeastKind::Herbivore));
        }
    }
    (!herbi || !carni) && iteration_sim > MIN_TICKS
}

/// Whether a roll of the percentile die grows a new plant this tick.
pub fn plant_due(roll: i32) -> (due: bool)
    ensures
        due == (roll <= PLANT_FREQ),
{
    roll <= PLANT_FREQ
}

/// Rolls the die for new plants: a number in `1..100`.
pub fn plant_spawn_roll() -> (roll: i32)
    ensures
        1 <= roll < 100,
{
    random_in_range(1, 100) as i32
}

/// No iteration ends during its first `MIN_TICKS` ticks, and after them one
/// ends exactly when no herbivore is left.
pub proof fn lemma_iteration_runs_at_least(kinds: Seq<BeastKind>, tick: int)
    ensures
        tick <= MIN_TICKS ==> !iteration_over(kinds, tick),
        tick > MIN_TICKS ==> (iteration_over(kinds, tick) <==> !kinds.contains(BeastKind::Herbivore)),
{
}

} // verus!
