use vstd::prelude::*;
use crate::beast::CauseOfDeath;
use crate::config::CHILD_THRESH;
use crate::random::random_in_range;

verus! {

/// Remainder of `a` by `m` as Rust computes it on signed integers: it takes
/// the sign of `a`.
pub open spec fn rem_toward_zero(a: int, m: int) -> int {
    if a >= 0 {
        a % m
    } else {
        -((-a) % m)
    }
}

/// Quotient of `a` by `m` rounded toward zero, as Rust computes it.
pub open spec fn div_toward_zero(a: int, m: int) -> int {
    if a >= 0 {
        a / m
    } else {
        -((-a) / m)
    }
}

/// Heading after a turn to the left by 15 degrees.
pub open spec fn turned_left(dir: int) -> int {
    rem_toward_zero(dir + 15, 360)
}

/// Heading after a turn to the right by 15 degrees, brought back to a
/// non-negative angle.
pub open spec fn turned_right(dir: int) -> int {
    let d = rem_toward_zero(dir - 15, 360);
    if d < 0 {
        d + 360
    } else {
        d
    }
}

/// The discrete state of a herbivore: who it is, whether it lives, where it
/// looks, how far it sees, how much it has eaten and which generation it
/// belongs to. Its position, speed and energy are continuous and kept by
/// the caller.
pub struct Herbivore {
    id: String,
    alive: bool,
    dir: i32,
    fov: i32,
    sight_range: i32,
    eaten: i32,
    gen: i32,
    cause_of_death: CauseOfDeath,
}

/// The state of a herbivore as plain values.
pub struct HerbivoreView {
    pub id: Seq<char>,
    pub alive: bool,
    pub dir: int,
    pub fov: int,
    pub sight_range: int,
    pub eaten: int,
    pub gen: int,
    pub cause_of_death: CauseOfDeath,
}

impl View for Herbivore {
    type V = HerbivoreView;

    closed spec fn view(&self) -> HerbivoreView {
        HerbivoreView {
            id: self.id@,
            alive: self.alive,
            dir: self.dir as int,
            fov: self.fov as int,
            sight_range: self.sight_range as int,
            eaten: self.eaten as int,
            gen: self.gen as int,
            cause_of_death: self.cause_of_death,
        }
    }
}

/// A herbivore after something tried to eat it: a living one dies, eaten;
/// a dead one stays as it was.
pub open spec fn killed(v: HerbivoreView) -> HerbivoreView {
    if v.alive {
        HerbivoreView { alive: false, cause_of_death: CauseOfDeath::Eaten, ..v }
    } else {
        v
    }
}

/// A herbivore whose energy ran out: it is dead, starved.
pub open spec fn starved(v: HerbivoreView) -> HerbivoreView {
    HerbivoreView { alive: false, cause_of_death: CauseOfDeath::Starved, ..v }
}

/// Food eaten after a meal of `value`: past the child threshold, the
/// threshold is spent on a child.
pub open spec fn eaten_after_meal(eaten: int, value: int) -> int {
    if eaten + value > CHILD_THRESH {
        eaten + value - CHILD_THRESH
    } else {
        eaten + value
    }
}

/// Whether a meal of `value` on top of `eaten` makes a child.
pub open spec fn meal_spawns_child(eaten: int, value: int) -> bool {
    eaten + value > CHILD_THRESH
}

/// How the position of another beast is held against one bound of the
/// field of view, a line through the viewer's position.
#[derive(Clone, Copy, Debug, PartialEq, Eq, Structural)]
pub enum SideTest {
    /// The other beast is on or below the line.
    OnOrBelow,
    /// The other beast is strictly above the line.
    Above,
    /// The bound is vertical; the other beast is strictly to the right.
    RightOf,
    /// The bound is vertical; the other beast is strictly to the left.
    LeftOf,
}

/// The test for the left bound of the field of view, whose angle is `angle`
/// (an angle in `[0, 360)`; 270 is the one angle the last branch stands for).
pub open spec fn left_side_test(angle: int) -> SideTest
    recommends
        0 <= angle < 360,
{
    if (0 <= angle <= 89) || (271 <= angle <= 359) {
        SideTest::OnOrBelow
    } else if 91 <= angle <= 269 {
        SideTest::Above
    } else if angle == 90 {
        SideTest::RightOf
    } else {
        SideTest::LeftOf
    }
}

/// The test for the right bound of the field of view, whose angle is `angle`
/// (an angle in `[0, 360)`).
pub open spec fn right_side_test(angle: int) -> SideTest
    recommends
        0 <= angle < 360,
{
    if (0 <= angle <= 89) || (271 <= angle <= 359) {
        SideTest::Above
    } else if 91 <= angle <= 269 {
        SideTest::OnOrBelow
    } else if angle == 90 {
        SideTest::LeftOf
    } else {
        SideTest::RightOf
    }
}

/// The test that accepts the other side of the same line.
pub open spec fn mirrored(t: SideTest) -> SideTest {
    match t {
        SideTest::OnOrBelow => SideTest::Above,
        SideTest::Above => SideTest::OnOrBelow,
        SideTest::RightOf => SideTest::LeftOf,
        SideTest::LeftOf => SideTest::RightOf,
    }
}

/// The two bounds of a herbivore's field of view: the angle (in degrees,
/// below 180 in size) whose tangent is the slope of each bound, and the test
/// that tells on which side of it a visible beast must be.
pub struct ViewBounds {
    pub left_slope_angle: i32,
    pub right_slope_angle: i32,
    pub left: SideTest,
    pub right: SideTest,
}

impl Herbivore {
    /// A newly born herbivore: alive, nothing eaten, facing a random multiple
    /// of 15 degrees. `sight_range` is the range of sight that belongs to
    /// `fov`.
    pub fn new(id: String, fov: i32, sight_range: i32, gen: i32) -> (h: Herbivore)
        ensures
            h@.id == id@,
            h@.alive,
            0 <= h@.dir < 360,
            h@.dir % 15 == 0,
            h@.fov == fov,
            h@.sight_range == sight_range,
            h@.eaten == 0,
            h@.gen == gen,
            h@.cause_of_death == CauseOfDeath::Unknown,
    {
        let step: i32 = random_in_range(0, 24) as i32;
        Herbivore {
            id,
            alive: true,
            dir: 15 * step,
            fov,
            sight_range,
            eaten: 0,
            gen,
            cause_of_death: CauseOfDeath::Unknown,
        }
    }

    pub fn set_id(&mut self, id: String)
        ensures
            final(self)@ == (HerbivoreView { id: id@, ..old(self)@ }),
    {
        self.id = id;
    }

    pub fn get_id(&self) -> (id: String)
        ensures
            id@ == self@.id,
    {
        self.id.clone()
    }

    pub fn set_dir(&mut self, dir: i32)
        ensures
            final(self)@ == (HerbivoreView { dir: dir as int, ..old(self)@ }),
    {
        self.dir = dir;
    }

    pub fn get_dir(&self) -> (dir: i32)
        ensures
            dir == self@.dir,
    {
        self.dir
    }

    /// The field of view, in degrees.
    pub fn get_fov(&self) -> (fov: i32)
        ensures
            fov == self@.fov,
    {
        self.fov
    }

    /// The range of sight.
    pub fn get_ros(&self) -> (ros: i32)
        ensures
            ros == self@.sight_range,
    {
        self.sight_range
    }

    pub fn is_alive(&self) -> (alive: bool)
        ensures
            alive == self@.alive,
    {
        self.alive
    }

    /// Food eaten since the last child.
    pub fn get_eaten(&self) -> (eaten: i32)
        ensures
            eaten == self@.eaten,
    {
        self.eaten
    }

    pub fn get_gen(&self) -> (gen: i32)
        ensures
            gen == self@.gen,
    {
        self.gen
    }

    pub fn cause_of_death(&self) -> (c: CauseOfDeath)
        ensures
            c == self@.cause_of_death,
    {
        self.cause_of_death
    }

    /// Turns 15 degrees to the left (the move that follows is the caller's).
    pub fn left(&mut self)
        requires
            old(self)@.dir + 15 <= i32::MAX,
        ensures
            final(self)@ == (HerbivoreView { dir: turned_left(old(self)@.dir), ..old(self)@ }),
    {
        self.dir = (self.dir + 15) % 360;
    }

    /// Turns 15 degrees to the right, keeping the heading non-negative (the
    /// move that follows is the caller's).
    pub fn right(&mut self)
        requires
            old(self)@.dir - 15 >= i32::MIN,
        ensures
            final(self)@ == (HerbivoreView { dir: turned_right(old(self)@.dir), ..old(self)@ }),
    {
        self.dir = (self.dir - 15) % 360;
        if self.dir < 0 {
            self.dir += 360;
        }
    }

    /// Something tries to eat this herbivore. Returns whether it was alive
    /// (and is now dead, eaten).
    pub fn kill(&mut self) -> (was_alive: bool)
        ensures
            was_alive == old(self)@.alive,
            final(self)@ == killed(old(self)@),
    {
        if self.alive {
            self.alive = false;
            self.cause_of_death = CauseOfDeath::Eaten;
            return true;
        }
        false
    }

    /// The herbivore's energy has run out: it dies, starved.
    pub fn starve(&mut self)
        ensures
            final(self)@ == starved(old(self)@),
    {
        self.alive = false;
        self.cause_of_death = CauseOfDeath::Starved;
    }

    /// Adds a meal of `value` to the food eaten. Once past the child
    /// threshold the threshold is spent and `true` says a child is due.
    pub fn record_meal(&mut self, value: i32) -> (child_due: bool)
        requires
            i32::MIN <= old(self)@.eaten + value <= i32::MAX,
        ensures
            child_due == meal_spawns_child(old(self)@.eaten, value as int),
            child_due == (old(self)@.eaten + value > CHILD_THRESH),
            final(self)@.eaten + (if child_due { CHILD_THRESH as int } else { 0 }) == old(self)@.eaten
                + value,
            final(self)@ == (HerbivoreView {
                eaten: eaten_after_meal(old(self)@.eaten, value as int),
                ..old(self)@
            }),
    {
        self.eaten = self.eaten + value;
        if self.eaten > CHILD_THRESH {
            self.eaten = self.eaten - CHILD_THRESH;
            true
        } else {
            false
        }
    }

    /// The generation of this herbivore's children.
    pub fn child_gen(&self) -> (g: i32)
        requires
            self@.gen < i32::MAX,
        ensures
            g == self@.gen + 1,
    {
        self.gen + 1
    }

    /// The bounds of the field of view: each lies half the field of view
    /// away from the heading. The slope angles are the bound's angle modulo
    /// 180 as Rust's `%` gives it (the tangent does not mind the sign); the
    /// side tests are chosen by the bound's angle brought into `[0, 360)`,
    /// so a bound left of heading 0 at -60 degrees counts as 300 degrees.
    pub fn view_bounds(&self) -> (b: ViewBounds)
        requires
            i32::MIN <= self@.dir + div_toward_zero(self@.fov, 2) <= i32::MAX,
            i32::MIN <= self@.dir - div_toward_zero(self@.fov, 2) <= i32::MAX,
        ensures
            b.left_slope_angle == rem_toward_zero(self@.dir + div_toward_zero(self@.fov, 2), 180),
            b.right_slope_angle == rem_toward_zero(self@.dir - div_toward_zero(self@.fov, 2), 180),
            b.left == left_side_test((self@.dir + div_toward_zero(self@.fov, 2)) % 360),
            b.right == right_side_test((self@.dir - div_toward_zero(self@.fov, 2)) % 360),
    {
        let half: i32 = self.fov / 2;
        let left_angle: i32 = self.dir + half;
        let right_angle: i32 = self.dir - half;
        let left = side_test_left(full_turn_angle(left_angle));
        let right = side_test_right(full_turn_angle(right_angle));
        ViewBounds {
            left_slope_angle: left_angle % 180,
            right_slope_angle: right_angle % 180,
            left,
            right,
        }
    }
}

/// An angle brought into `[0, 360)`.
pub fn full_turn_angle(angle: i32) -> (a: i32)
    ensures
        a == angle % 360,
        0 <= a < 360,
{
    let r: i32 = angle % 360;
    if r < 0 {
        r + 360
    } else {
        r
    }
}

/// The test for a left bound at `angle` degrees, `angle` in `[0, 360)`.
fn side_test_left(angle: i32) -> (t: SideTest)
    requires
        0 <= angle < 360,
    ensures
        t == left_side_test(angle as int),
        91 <= angle <= 269 ==> t == SideTest::Above,
        (angle <= 89 || 271 <= angle) ==> t == SideTest::OnOrBelow,
        angle == 90 ==> t == SideTest::RightOf,
        angle == 270 ==> t == SideTest::LeftOf,
{
    match angle {
        0..=89 => SideTest::OnOrBelow,
        271..=359 => SideTest::OnOrBelow,
        91..=269 => SideTest::Above,
        90 => SideTest::RightOf,
        _ => SideTest::LeftOf,
    }
}

/// The test for a right bound at `angle` degrees, `angle` in `[0, 360)`.
fn side_test_right(angle: i32) -> (t: SideTest)
    requires
        0 <= angle < 360,
    ensures
        t == right_side_test(angle as int),
        91 <= angle <= 269 ==> t == SideTest::OnOrBelow,
        (angle <= 89 || 271 <= angle) ==> t == SideTest::Above,
        angle == 90 ==> t == SideTest::LeftOf,
        angle == 270 ==> t == SideTest::RightOf,
{
    match angle {
        0..=89 => SideTest::Above,
        271..=359 => SideTest::Above,
        91..=269 => SideTest::OnOrBelow,
        90 => SideTest::LeftOf,
        _ => SideTest::RightOf,
    }
}

/// Turning left undoes turning right and the other way round, and both keep
/// a heading in `[0, 360)`; a heading that is a multiple of 15 degrees stays
/// one.
pub proof fn lemma_turns_undo_each_other(dir: int)
    requires
        0 <= dir < 360,
    ensures
        turned_right(turned_left(dir)) == dir,
        turned_left(turned_right(dir)) == dir,
        0 <= turned_left(dir) < 360,
        0 <= turned_right(dir) < 360,
        dir % 15 == 0 ==> turned_left(dir) % 15 == 0 && turned_right(dir) % 15 == 0,
{
}

/// The heading after `n` turns to the left.
pub open spec fn turned_left_times(dir: int, n: nat) -> int
    decreases n,
{
    if n == 0 {
        dir
    } else {
        turned_left(turned_left_times(dir, (n - 1) as nat))
    }
}

/// Turning left `n` times from a heading in `[0, 360)` adds `15 * n`
/// degrees modulo 360; after 24 turns the herbivore faces where it started.
pub proof fn lemma_full_circle(dir: int, n: nat)
    requires
        0 <= dir < 360,
    ensures
        turned_left_times(dir, n) == (dir + 15 * n) % 360,
        turned_left_times(dir, 24) == dir,
{
    lemma_full_circle_exact(dir, n);
    lemma_full_circle_exact(dir, 24);
}

proof fn lemma_full_circle_exact(dir: int, n: nat)
    requires
        0 <= dir < 360,
    ensures
        turned_left_times(dir, n) == (dir + 15 * n) % 360,
    decreases n,
{
    if n > 0 {
        lemma_full_circle_exact(dir, (n - 1) as nat);
        let prev = (dir + 15 * (n - 1)) % 360;
        assert((prev + 15) % 360 == (dir + 15 * n) % 360) by (nonlinear_arith)
            requires
                prev == (dir + 15 * (n - 1)) % 360,
                n > 0,
        ;
    }
}

/// A herbivore can be killed only once: after a kill it is dead, so a second
/// kill reports that it was not alive and changes nothing.
pub proof fn lemma_killed_once(v: HerbivoreView)
    ensures
        !killed(v).alive,
        killed(killed(v)) == killed(v),
        v.alive ==> killed(v).cause_of_death == CauseOfDeath::Eaten,
        !v.alive ==> killed(v) == v,
{
}

/// Meals no larger than the child threshold keep the food eaten within
/// `[0, CHILD_THRESH]`.
pub proof fn lemma_meals_stay_below_threshold(eaten: int, value: int)
    requires
        0 <= eaten <= CHILD_THRESH,
        0 <= value <= CHILD_THRESH,
    ensures
        0 <= eaten_after_meal(eaten, value) <= CHILD_THRESH,
{
}

/// The right bound accepts the side of its line that the left bound rejects:
/// for every angle the right test is the mirror of the left one.
pub proof fn lemma_bounds_mirror(angle: int)
    ensures
        right_side_test(angle) == mirrored(left_side_test(angle)),
{
}

/// Which side a visible beast must be on, by the angle of the bound (in
/// `[0, 360)`): a bound pointing into the left half-plane (91..=269 degrees)
/// wants the beast above it on the left and on or below it on the right; a
/// bound pointing into the right half-plane (0..=89 or 271..=359) the other
/// way round; only the two vertical bounds, 90 and 270 degrees, compare
/// x coordinates.
pub proof fn lemma_side_tests_by_range(angle: int)
    requires
        0 <= angle < 360,
    ensures
        91 <= angle <= 269 ==> left_side_test(angle) == SideTest::Above && right_side_test(angle)
            == SideTest::OnOrBelow,
        (angle <= 89 || 271 <= angle) ==> left_side_test(angle) == SideTest::OnOrBelow
            && right_side_test(angle) == SideTest::Above,
        angle == 90 ==> left_side_test(angle) == SideTest::RightOf && right_side_test(angle)
            == SideTest::LeftOf,
        angle == 270 ==> left_side_test(angle) == SideTest::LeftOf && right_side_test(angle)
            == SideTest::RightOf,
        (left_side_test(angle) == SideTest::RightOf || left_side_test(angle) == SideTest::LeftOf)
            ==> (angle == 90 || angle == 270),
{
}

/// A meal neither creates nor loses food: what is eaten afterwards, plus the
/// threshold if a child came of it, is what was eaten before plus the meal;
/// and a child comes exactly when the total passes the threshold.
pub proof fn lemma_meal_conserves_food(eaten: int, value: int)
    ensures
        eaten_after_meal(eaten, value) + (if meal_spawns_child(eaten, value) {
            CHILD_THRESH as int
        } else {
            0
        }) == eaten + value,
        meal_spawns_child(eaten, value) == (eaten + value > CHILD_THRESH),
        meal_spawns_child(eaten, value) ==> eaten_after_meal(eaten, value) == eaten + value
            - CHILD_THRESH,
{
}

} // verus!
