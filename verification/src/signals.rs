use vstd::prelude::*;
use crate::beast::{BeastKind, kind_layer};
use crate::config::{NN_RAYS, NN_RAY_LEN, N_TYPES};
use crate::herbivore::rem_toward_zero;

verus! {

/// Number of cells of the sensory grid.
pub const SIGNAL_CELLS: usize = N_TYPES * NN_RAYS * NN_RAY_LEN;

/// Position in the flat grid of the cell for kind layer `t`, ray `r` and
/// distance `d`.
pub open spec fn cell_index(t: int, r: int, d: int) -> int {
    t * (NN_RAYS * NN_RAY_LEN) + r * NN_RAY_LEN + d
}

/// Whether `(t, r, d)` names a cell of the grid.
pub open spec fn in_grid(t: int, r: int, d: int) -> bool {
    0 <= t < N_TYPES && 0 <= r < NN_RAYS && 0 <= d < NN_RAY_LEN
}

/// What a beast senses around it: for each kind of thing (wall, plant,
/// herbivore, carnivore), each of the rays around it and each point along a
/// ray, whether something of that kind is there.
pub struct Signals {
    cells: Vec<bool>,
}

impl Signals {
    /// The grid holds exactly one cell per kind, ray and distance.
    pub closed spec fn wf(&self) -> bool {
        self.cells@.len() == SIGNAL_CELLS
    }

    /// The cell for kind layer `t`, ray `r` and distance `d`.
    pub closed spec fn cell(&self, t: int, r: int, d: int) -> bool {
        self.cells@[cell_index(t, r, d)]
    }

    /// An empty grid: nothing sensed anywhere.
    pub fn new() -> (s: Signals)
        ensures
            s.wf(),
            forall|t: int, r: int, d: int| in_grid(t, r, d) ==> !#[trigger] s.cell(t, r, d),
    {
        let mut cells: Vec<bool> = Vec::new();
        let mut i: usize = 0;
        while i < SIGNAL_CELLS
            invariant
                i <= SIGNAL_CELLS,
                cells@.len() == i,
                forall|j: int| 0 <= j < i ==> !#[trigger] cells@[j],
            decreases SIGNAL_CELLS - i,
        {
            cells.push(false);
            i = i + 1;
        }
        let s = Signals { cells };
        assert forall|t: int, r: int, d: int| in_grid(t, r, d) implies !#[trigger] s.cell(t, r, d) by {
            lemma_cell_index(t, r, d, t, r, d);
        }
        s
    }

    /// Forgets everything sensed.
    pub fn clear(&mut self)
        requires
            old(self).wf(),
        ensures
            final(self).wf(),
            forall|t: int, r: int, d: int| in_grid(t, r, d) ==> !#[trigger] final(self).cell(t, r, d),
    {
        let mut i: usize = 0;
        while i < SIGNAL_CELLS
            invariant
                i <= SIGNAL_CELLS,
                self.cells@.len() == SIGNAL_CELLS,
                forall|j: int| 0 <= j < i ==> !#[trigger] self.cells@[j],
            decreases SIGNAL_CELLS - i,
        {
            self.cells.set(i, false);
            i = i + 1;
        }
        assert forall|t: int, r: int, d: int| in_grid(t, r, d) implies !#[trigger] self.cell(t, r, d) by {
            lemma_cell_index(t, r, d, t, r, d);
        }
    }

    /// Whether something of kind layer `t` was sensed on ray `r` at distance `d`.
    pub fn get(&self, t: usize, r: usize, d: usize) -> (b: bool)
        requires
            self.wf(),
            in_grid(t as int, r as int, d as int),
        ensures
            b == self.cell(t as int, r as int, d as int),
    {
        proof {
            lemma_cell_index(t as int, r as int, d as int, t as int, r as int, d as int);
        }
        self.cells[t * (NN_RAYS * NN_RAY_LEN) + r * NN_RAY_LEN + d]
    }

    /// Records that something of kind layer `t` is on ray `r` at distance `d`.
    /// No other cell changes.
    pub fn set(&mut self, t: usize, r: usize, d: usize)
        requires
            old(self).wf(),
            in_grid(t as int, r as int, d as int),
        ensures
            final(self).wf(),
            forall|t2: int, r2: int, d2: int|
                in_grid(t2, r2, d2) ==> #[trigger] final(self).cell(t2, r2, d2) == if t2 == t && r2 == r
                    && d2 == d {
                    true
                } else {
                    old(self).cell(t2, r2, d2)
                },
    {
        proof {
            lemma_cell_index(t as int, r as int, d as int, t as int, r as int, d as int);
        }
        let i: usize = t * (NN_RAYS * NN_RAY_LEN) + r * NN_RAY_LEN + d;
        self.cells.set(i, true);
        assert forall|t2: int, r2: int, d2: int| in_grid(t2, r2, d2) implies #[trigger] self.cell(
            t2,
            r2,
            d2,
        ) == if t2 == t && r2 == r && d2 == d {
            true
        } else {
            old(self).cell(t2, r2, d2)
        } by {
            lemma_cell_index(t as int, r as int, d as int, t2, r2, d2);
        }
    }

    /// Records a wall on ray `ray` at the first point, `radius` (counted from
    /// 1), where the ray leaves the world.
    pub fn mark_wall(&mut self, ray: usize, radius: usize)
        requires
            old(self).wf(),
            ray < NN_RAYS,
            1 <= radius <= NN_RAY_LEN,
        ensures
            final(self).wf(),
            forall|t2: int, r2: int, d2: int|
                in_grid(t2, r2, d2) ==> #[trigger] final(self).cell(t2, r2, d2) == if t2 == 0 && r2
                    == ray && d2 == radius - 1 {
                    true
                } else {
                    old(self).cell(t2, r2, d2)
                },
    {
        self.set(0, ray, radius - 1);
    }

    /// Records a remembered beast of kind `kind` seen on ray `ray` at distance
    /// index `dist`. A beast beyond the last point of the rays is remembered
    /// but not sensed: the grid is left as it was and `false` is returned.
    pub fn mark_sighting(&mut self, kind: BeastKind, ray: usize, dist: usize) -> (marked: bool)
        requires
            old(self).wf(),
            ray < NN_RAYS,
        ensures
            marked == (dist < NN_RAY_LEN),
            final(self).wf(),
            forall|t2: int, r2: int, d2: int|
                in_grid(t2, r2, d2) ==> #[trigger] final(self).cell(t2, r2, d2) == if marked && t2
                    == kind_layer(kind) && r2 == ray && d2 == dist {
                    true
                } else {
                    old(self).cell(t2, r2, d2)
                },
    {
        if dist > NN_RAY_LEN - 1 {
            return false;
        }
        let t: usize = kind.signal_index();
        self.set(t, ray, dist);
        true
    }
}

/// The cells of the grid have distinct positions inside the flat grid.
proof fn lemma_cell_index(t: int, r: int, d: int, t2: int, r2: int, d2: int)
    requires
        in_grid(t, r, d),
    ensures
        0 <= cell_index(t, r, d) < SIGNAL_CELLS,
        in_grid(t2, r2, d2) && cell_index(t, r, d) == cell_index(t2, r2, d2) ==> t == t2 && r == r2
            && d == d2,
{
    if in_grid(t2, r2, d2) && cell_index(t, r, d) == cell_index(t2, r2, d2) {
        assert(t == t2) by (nonlinear_arith)
            requires
                0 <= r * 12 + d < 288,
                0 <= r2 * 12 + d2 < 288,
                t * 288 + r * 12 + d == t2 * 288 + r2 * 12 + d2,
        ;
        assert(r == r2) by (nonlinear_arith)
            requires
                0 <= d < 12,
                0 <= d2 < 12,
                r * 12 + d == r2 * 12 + d2,
        ;
    }
}

/// The heading of ray `ray` of a beast heading `dir`: the rays split the full
/// circle evenly, starting at the heading.
pub fn ray_heading(dir: i32, ray: usize) -> (h: i32)
    requires
        ray < NN_RAYS,
        dir + 345 <= i32::MAX,
    ensures
        h == rem_toward_zero(dir + 15 * ray, 360),
{
    (dir + (ray * 360 / NN_RAYS) as i32) % 360
}

} // verus!
