//! Bookkeeping of population-based optimizers (particle swarm, gravitational
//! search and its tiled variant), verified: memoized and counted evaluations,
//! personal and global bests, the per-iteration trajectory, the mass rule,
//! tile neighbourhoods, hyperparameter sets, grid-search schedules and the
//! experiment plans.
//!
//! Positions are handed over as the bit patterns of their coordinates, and
//! fitness values as order keys (`fitness::order_key`), so that every
//! decision here is made on integers.

pub mod best;
pub mod executers;
pub mod experiments;
pub mod fitness;
pub mod grid;
pub mod gsa;
pub mod iteration;
pub mod optimizer;
pub mod params;
pub mod plans;
pub mod problem;
pub mod tiles;
pub mod trajectory;
