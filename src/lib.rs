//! Simulation core of a single four-way road intersection: vehicle spawning
//! with collision checks, the per-tick movement state machine, in-lane
//! car following, and a demand-driven traffic-light controller.

pub mod roads;
pub mod car;
pub mod capacity;
pub mod traffic_light;
pub mod simulation;
