//! How the HTTP API validates a request before acting on it.

use vstd::prelude::*;
use vstd::string::StringExecFns;
use crate::api::error::ApiError;
use crate::formation::FormationType;
use crate::simulation::mode::SimulationMode;

verus! {

/// Accepts a formation name, or refuses it as an invalid formation.
pub fn validate_formation_request(name: &str) -> (r: Result<FormationType, ApiError>)
    ensures
        match FormationType::parse_spec(name@) {
            Some(f) => r == Ok::<FormationType, ApiError>(f),
            None => r matches Err(ApiError::InvalidFormation(m)) && m@ == "Invalid formation type: "@ + name@
                + ". Available: triangle, line, v_formation"@,
        },
{
    match FormationType::from_str(name) {
        Some(f) => Ok(f),
        None => {
            let mut m = String::from_str("Invalid formation type: ");
            m.append(name);
            m.append(". Available: triangle, line, v_formation");
            Err(ApiError::InvalidFormation(m))
        },
    }
}

/// Accepts a simulation mode name, or refuses it as a bad request.
pub fn validate_mode_request(name: &str) -> (r: Result<SimulationMode, ApiError>)
    ensures
        match SimulationMode::parse_spec(name@) {
            Some(m) => r == Ok::<SimulationMode, ApiError>(m),
            None => r matches Err(ApiError::BadRequest(m)) && m@ == "Invalid simulation mode: "@ + name@,
        },
{
    match SimulationMode::from_str(name) {
        Some(m) => Ok(m),
        None => {
            let mut m = String::from_str("Invalid simulation mode: ");
            m.append(name);
            Err(ApiError::BadRequest(m))
        },
    }
}

/// A start request is refused while the simulation is running.
pub fn validate_start(running: bool) -> (r: Result<(), ApiError>)
    ensures
        running ==> (r matches Err(ApiError::BadRequest(m)) && m@ == "Simulation is already running"@),
        !running ==> r is Ok,
{
    if running {
        Err(ApiError::BadRequest(String::from_str("Simulation is already running")))
    } else {
        Ok(())
    }
}

/// A stop request is refused while the simulation is not running.
pub fn validate_stop(running: bool) -> (r: Result<(), ApiError>)
    ensures
        !running ==> (r matches Err(ApiError::BadRequest(m)) && m@ == "Simulation is not running"@),
        running ==> r is Ok,
{
    if !running {
        Err(ApiError::BadRequest(String::from_str("Simulation is not running")))
    } else {
        Ok(())
    }
}

/// A mission needs at least one drone.
pub fn validate_mission_drones(drone_count: usize) -> (r: Result<(), ApiError>)
    ensures
        drone_count == 0 ==> (r matches Err(ApiError::ValidationError(m)) && m@ == "No drones available for mission"@),
        drone_count > 0 ==> r is Ok,
{
    if drone_count == 0 {
        Err(ApiError::ValidationError(String::from_str("No drones available for mission")))
    } else {
        Ok(())
    }
}

} // verus!
