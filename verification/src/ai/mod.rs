//! The pipeline that ticks trees away from the simulation.

pub mod worker;
