use vstd::prelude::*;

verus! {

/// Frames per second of the simulation loop.
pub const FPS: i32 = 100;
/// Milliseconds slept between two ticks: `1000 / FPS`.
pub const DELAY: i32 = 10;
/// Side length of the square world.
pub const MAPSIZE: i32 = 500;
/// Distance kept between a beast and the border of the world.
pub const MARGIN: i32 = 5;
/// Field of view of a newly spawned herbivore, in degrees.
pub const FOV: i32 = 120;
/// Herbivores spawned at the start of an iteration.
pub const N_HERB: i32 = 5;
/// Chance in percent, per tick, that a new plant grows.
pub const PLANT_FREQ: i32 = 3;
/// Plants present at the start of an iteration.
pub const PLANT_START: i32 = 5;
/// Food a herbivore must have eaten before it spawns a child.
pub const CHILD_THRESH: i32 = 50;

/// Directions of the sensory rays of a beast, spread over a full circle.
pub const NN_RAYS: usize = 24;
/// Points sampled along each ray.
pub const NN_RAY_LEN: usize = 12;
/// Distance between two points of a ray.
pub const NN_RAY_DR: usize = 10;
/// Kinds of things a beast can sense: wall, plant, herbivore, carnivore.
pub const N_TYPES: usize = 4;
/// Actions a beast can take.
pub const ACTIONS: usize = 7;

/// Inputs of the plant network: one per point of the sensory grid.
pub const SIZE_FULL: usize = NN_RAYS * NN_RAY_LEN;
/// Width of the first hidden layer.
pub const SIZE_HALF: usize = SIZE_FULL / 2;
/// Width of the second and third hidden layers.
pub const SIZE_QTR: usize = SIZE_FULL / 4;

/// Sample files kept for training.
pub const MAX_FILES: usize = 25;

} // verus!
