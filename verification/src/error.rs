//! The ways in which a request to a simulation can fail.

use crate::simulation_objects::ParticleId;
use vstd::prelude::*;

verus! {

/// Why a simulation refused a request.
#[derive(Clone, Copy, Debug, PartialEq, Eq, Structural)]
pub enum SimulationError {
    /// The tick duration handed to the constructor was zero or negative.
    TickDurationNotPositive,
    /// The simulation speed handed to the constructor was zero or negative.
    SimulationSpeedNotPositive,
    /// No live particle has this identifier.
    UnknownParticle(ParticleId),
    /// `step` was called while the simulation was running.
    NotPaused,
    /// A freshly drawn identifier was already in use.
    IdCollision(ParticleId),
}

impl SimulationError {
    /// The complaint in words.
    pub fn message(&self) -> (r: &'static str)
        ensures
            self is TickDurationNotPositive ==> r@ == "tick_duration must be positive"@,
            self is SimulationSpeedNotPositive ==> r@ == "simulation_speed must be positive"@,
            self is UnknownParticle ==> r@ == "the provided particle ID was not found"@,
            self is NotPaused ==> r@ == "The simulation must be paused to call step()."@,
            self is IdCollision ==> r@ == "Created a particle with an existing key."@,
    {
        match self {
            SimulationError::TickDurationNotPositive => "tick_duration must be positive",
            SimulationError::SimulationSpeedNotPositive => "simulation_speed must be positive",
            SimulationError::UnknownParticle(_) => "the provided particle ID was not found",
            SimulationError::NotPaused => "The simulation must be paused to call step().",
            SimulationError::IdCollision(_) => "Created a particle with an existing key.",
        }
    }
}

} // verus!
