//! State of the in-process simulation engine.

use vstd::prelude::*;
use vstd::string::StringExecFns;
use crate::simulation::mode::SimulationMode;

verus! {

/// The engine that moves drones with in-process kinematics. It holds only
/// whether it was initialized; the kinematics act on the drones themselves.
pub struct InternalSimulationEngine {
    initialized: bool,
}

impl InternalSimulationEngine {
    /// The engine is initialized and not shut down.
    pub closed spec fn is_initialized(&self) -> bool {
        self.initialized
    }

    /// A new engine, not yet initialized.
    pub fn new() -> (r: InternalSimulationEngine)
        ensures
            !r.is_initialized(),
    {
        InternalSimulationEngine { initialized: false }
    }

    /// Initializes the engine; this cannot fail.
    pub fn initialize(&mut self) -> (r: Result<(), String>)
        ensures
            r is Ok,
            final(self).is_initialized(),
    {
        self.initialized = true;
        Ok(())
    }

    /// Shuts the engine down; this cannot fail.
    pub fn shutdown(&mut self) -> (r: Result<(), String>)
        ensures
            r is Ok,
            !final(self).is_initialized(),
    {
        self.initialized = false;
        Ok(())
    }

    /// The engine counts as connected while it is initialized.
    pub fn is_connected(&self) -> (r: bool)
        ensures
            r == self.is_initialized(),
    {
        self.initialized
    }

    /// The mode this engine implements.
    pub fn mode(&self) -> (r: SimulationMode)
        ensures
            r == SimulationMode::Internal,
    {
        SimulationMode::Internal
    }
}

impl Default for InternalSimulationEngine {
    /// A new engine, not yet initialized.
    fn default() -> (r: InternalSimulationEngine)
        ensures
            !r.is_initialized(),
    {
        InternalSimulationEngine::new()
    }
}

} // verus!
