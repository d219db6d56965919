//! Batch renderer core for animated 3-D surface sweeps.
//!
//! The library models every quantity in fixed-point thousandths (milli-units),
//! so that sampling, pitch scheduling, mesh construction and frame assembly
//! are exact and verified. Drawing backends and transcendental evaluation
//! live outside, behind plain-value interfaces.

pub mod assemble;
pub mod config;
pub mod domain;
pub mod field;
pub mod frame;
pub mod grid;
pub mod job;
pub mod num;
pub mod pitch;
pub mod rng;
