use vstd::prelude::*;
use vstd::utf8::encode_utf8;

verus! {

/// What every beast of the grid world offers: a name, a cell and a heading.
pub trait Beast {
    fn set_id(&mut self, id: String);

    fn get_id(&self) -> String;

    fn set_pos(&mut self, pos: (i32, i32));

    fn get_pos(&self) -> (i32, i32);

    fn set_dir(&mut self, dir: i32);

    fn get_dir(&self) -> i32;
}

/// Longest name, in bytes, a herbivore of the grid world may pass on.
pub const MAX_NAME_BYTES: usize = 10;

/// Energy of a newly made grid herbivore.
pub const START_ENERGY: i32 = 100;

/// A herbivore of the grid world, where positions are whole cells.
pub struct Herbivore {
    id: String,
    pos: (i32, i32),
    dir: i32,
    speed: i32,
    energy: i32,
    mapsize: i32,
}

/// The state of a grid herbivore as plain values.
pub struct GridHerbivoreView {
    pub id: Seq<char>,
    pub pos: (int, int),
    pub dir: int,
    pub speed: int,
    pub energy: int,
    pub mapsize: int,
}

impl View for Herbivore {
    type V = GridHerbivoreView;

    closed spec fn view(&self) -> GridHerbivoreView {
        GridHerbivoreView {
            id: self.id@,
            pos: (self.pos.0 as int, self.pos.1 as int),
            dir: self.dir as int,
            speed: self.speed as int,
            energy: self.energy as int,
            mapsize: self.mapsize as int,
        }
    }
}

/// A freshly made grid herbivore: standing still at `pos`, facing 0, with
/// the starting energy.
pub open spec fn newborn(id: Seq<char>, pos: (int, int), mapsize: int) -> GridHerbivoreView {
    GridHerbivoreView { id, pos, dir: 0, speed: 0, energy: START_ENERGY as int, mapsize }
}

/// The name a grid herbivore gives its offspring: its own, followed by `-1`.
pub open spec fn offspring_name(id: Seq<char>) -> Seq<char> {
    id + "-1"@
}

impl Herbivore {
    pub fn new(id: String, pos: (i32, i32), mapsize: i32) -> (h: Herbivore)
        ensures
            h@ == newborn(id@, (pos.0 as int, pos.1 as int), mapsize as int),
    {
        Herbivore { id, pos, dir: 0, speed: 0, energy: START_ENERGY, mapsize }
    }

    pub fn get_mapsize(&self) -> (m: i32)
        ensures
            m == self@.mapsize,
    {
        self.mapsize
    }

    /// The offspring of this herbivore, if its name is short enough: the
    /// offspring is named after the parent with `-1` appended and starts at
    /// cell `(1, 1)` of the same world. A name longer than `MAX_NAME_BYTES`
    /// bytes ends the line, and the parent only idles. (The byte length is
    /// read as `str::len` gives it, a `usize`.)
    pub fn offspring(&self) -> (child: Option<Herbivore>)
        ensures
            child is Some <==> (encode_utf8(offspring_name(self@.id)).len() as usize) <= MAX_NAME_BYTES,
            child matches Some(c) ==> c@ == newborn(offspring_name(self@.id), (1, 1), self@.mapsize),
    {
        let mut name = self.id.clone();
        name.append("-1");
        if name.as_str().len() > MAX_NAME_BYTES {
            None
        } else {
            Some(Herbivore::new(name, (1, 1), self.mapsize))
        }
    }
}

impl Beast for Herbivore {
    fn set_id(&mut self, id: String)
        ensures
            final(self)@ == (GridHerbivoreView { id: id@, ..old(self)@ }),
    {
        self.id = id;
    }

    fn get_id(&self) -> (id: String)
        ensures
            id@ == self@.id,
    {
        self.id.clone()
    }

    fn set_pos(&mut self, pos: (i32, i32))
        ensures
            final(self)@ == (GridHerbivoreView { pos: (pos.0 as int, pos.1 as int), ..old(self)@ }),
    {
        self.pos = pos;
    }

    fn get_pos(&self) -> (pos: (i32, i32))
        ensures
            pos.0 == self@.pos.0,
            pos.1 == self@.pos.1,
    {
        self.pos
    }

    fn set_dir(&mut self, dir: i32)
        ensures
            final(self)@ == (GridHerbivoreView { dir: dir as int, ..old(self)@ }),
    {
        self.dir = dir;
    }

    fn get_dir(&self) -> (dir: i32)
        ensures
            dir == self@.dir,
    {
        self.dir
    }
}

} // verus!
