//! Swarm coordination engine: per-tick state updates for particle swarm
//! optimization (PSO), the grey wolf optimizer (GWO) and ant colony
//! optimization (ACO), a formation-position generator, a neighbor/network
//! topology model and swarm-level metrics.
//!
//! All geometry is carried in fixed-point milli-units: one unit of world
//! space is 1000 milli. A scalar such as an inertia weight of 0.7 is the
//! integer 700. This keeps every update rule a total function on integers,
//! so the engine itself is verified end to end; callers convert to and from
//! their own floating-point coordinates at the boundary.

use vstd::prelude::*;

pub mod aco;
pub mod controller;
pub mod demo;
pub mod formation;
pub mod geom;
pub mod gwo;
pub mod metrics;
pub mod pso;
pub mod rng;
pub mod state;
pub mod topology;
pub mod trig;

verus! {

/// Number of milli-units in one world unit.
pub const SCALE: i64 = 1000;

/// Most agents one swarm instance manages.
pub const MAX_AGENTS: usize = 256;

/// Largest accepted formation spacing, in milli-units (100 units).
pub const MAX_SPACING: i64 = 100_000;

/// Largest accepted circle radius, in milli-units (200 units).
pub const MAX_RADIUS: i64 = 200_000;

/// Largest coordinate magnitude for a formation center (about 33,000 units).
pub const CENTER_LIMIT: i64 = 0x200_0000;

/// The world box: every agent position and target stays inside it.
pub const WORLD_LIMIT: i64 = 0x800_0000;

} // verus!
