//! A discrete-time, tick-based simulation of point masses in the plane.
//!
//! A [`simulation::Simulation`] owns particles, each with a mass, a position,
//! a velocity and the fields attached to it. Forces, new particles and
//! removals are staged, by the caller or by the fields, and take effect when
//! the next tick is carried out.
//!
//! Numbers are IEEE 754 binary64 values, held as bit patterns and combined in
//! software, so that a run gives the same bits on every machine.
//!
//! - [`scalar`]: the numbers.
//! - [`physical_quantities`]: time, mass, and the vector quantities.
//! - [`utilities`]: distances.
//! - [`simulation_objects`]: particles, the `Field` trait, and the basic fields.
//! - [`contact_fields`]: fields for floors and for particles that stick.
//! - [`either_field`]: fields of several kinds in one simulation.
//! - [`snapshot`]: what a field sees, and which particles trigger it.
//! - [`simulation`]: the simulation and its tick.
//! - [`error`]: why a request can be refused.
//! - [`laws`]: what holds of every simulation.

pub mod contact_fields;
pub mod either_field;
pub mod error;
pub mod laws;
pub mod physical_quantities;
pub mod scalar;
pub mod simulation;
pub mod simulation_objects;
pub mod snapshot;
pub mod utilities;
