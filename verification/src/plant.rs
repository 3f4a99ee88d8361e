use vstd::prelude::*;
use crate::random::random_in_range;

verus! {

/// Lowest energy a plant is born with.
pub const ENERGY_LOW: i32 = 10;
/// Energy a plant is born with stays below this.
pub const ENERGY_HIGH: i32 = 30;

/// A plant: it stands still at a whole-numbered spot, holds some energy and
/// can be eaten once.
pub struct Plant {
    id: String,
    alive: bool,
    pos: (i32, i32),
    energy: i32,
    mapsize: i32,
}

/// The state of a plant as plain values.
pub struct PlantView {
    pub id: Seq<char>,
    pub alive: bool,
    pub pos: (int, int),
    pub energy: int,
    pub mapsize: int,
}

impl View for Plant {
    type V = PlantView;

    closed spec fn view(&self) -> PlantView {
        PlantView {
            id: self.id@,
            alive: self.alive,
            pos: (self.pos.0 as int, self.pos.1 as int),
            energy: self.energy as int,
            mapsize: self.mapsize as int,
        }
    }
}

/// A plant after a beast tried to eat it.
pub open spec fn eaten(v: PlantView) -> PlantView {
    PlantView { alive: false, ..v }
}

impl Plant {
    /// A new plant somewhere at least 10 away from the border of a world of
    /// side `mapsize`, with an energy in `[ENERGY_LOW, ENERGY_HIGH)`.
    /// The world must leave room for that: `mapsize` above 20.
    pub fn new(id: String, mapsize: i32) -> (p: Plant)
        requires
            mapsize > 20,
        ensures
            p@.id == id@,
            p@.alive,
            10 <= p@.pos.0 < mapsize - 10,
            10 <= p@.pos.1 < mapsize - 10,
            ENERGY_LOW <= p@.energy < ENERGY_HIGH,
            p@.mapsize == mapsize,
    {
        let x: i32 = random_in_range(10, (mapsize - 10) as i64) as i32;
        let y: i32 = random_in_range(10, (mapsize - 10) as i64) as i32;
        let energy: i32 = random_in_range(ENERGY_LOW as i64, ENERGY_HIGH as i64) as i32;
        Plant { id, alive: true, pos: (x, y), energy, mapsize }
    }

    pub fn set_id(&mut self, id: String)
        ensures
            final(self)@ == (PlantView { id: id@, ..old(self)@ }),
    {
        self.id = id;
    }

    pub fn get_id(&self) -> (id: String)
        ensures
            id@ == self@.id,
    {
        self.id.clone()
    }

    pub fn set_pos(&mut self, pos: (i32, i32))
        ensures
            final(self)@ == (PlantView { pos: (pos.0 as int, pos.1 as int), ..old(self)@ }),
    {
        self.pos = pos;
    }

    pub fn get_pos(&self) -> (pos: (i32, i32))
        ensures
            pos.0 == self@.pos.0,
            pos.1 == self@.pos.1,
    {
        self.pos
    }

    /// The energy a beast gains by eating this plant.
    pub fn get_energy(&self) -> (e: i32)
        ensures
            e == self@.energy,
    {
        self.energy
    }

    pub fn is_alive(&self) -> (alive: bool)
        ensures
            alive == self@.alive,
    {
        self.alive
    }

    /// A beast tries to eat the plant. Returns whether the plant was still
    /// there (it is gone afterwards either way).
    pub fn eat(&mut self) -> (was_alive: bool)
        ensures
            was_alive == old(self)@.alive,
            final(self)@ == eaten(old(self)@),
    {
        if self.alive {
            self.alive = false;
            return true;
        }
        false
    }
}

/// A plant can be eaten only once: after one meal, another attempt finds
/// nothing and changes nothing.
pub proof fn lemma_eaten_once(v: PlantView)
    ensures
        !eaten(v).alive,
        eaten(eaten(v)) == eaten(v),
        eaten(v).energy == v.energy,
{
}

} // verus!
