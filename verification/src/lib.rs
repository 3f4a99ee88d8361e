//! The discrete core of an evolving predator/prey simulation: the state
//! machines of herbivores and plants, the sensory grid a beast fills before
//! it acts, the genome bookkeeping of the genetic algorithm, the ranking that
//! decides which sample and gene files survive, and the routing of the small
//! web server that shows the world. Continuous geometry (positions, speeds,
//! energy), neural networks and all I/O live outside this crate.
pub mod config;
pub mod beast;
pub mod herbivore;
pub mod plant;
pub mod signals;
pub mod gen_alg;
pub mod ranking;
pub mod server;
pub mod simulation;
pub mod grid;
pub mod text;
mod random;
