//! Drone operating states.

use vstd::prelude::*;

verus! {

/// The state a drone is in.
#[derive(Debug, Clone)]
pub enum DroneStatus {
    /// Holding position with no target.
    Idle,
    /// Flying towards a target position.
    Navigating,
    /// Holding its slot in the formation.
    InFormation,
    /// Taking part in a mission.
    ExecutingMission,
    /// Stopped by a fault, with its description.
    Error(String),
}

} // verus!

verus! {

impl PartialEq for DroneStatus {
    fn eq(&self, other: &DroneStatus) -> (r: bool) {
        match (self, other) {
            (DroneStatus::Idle, DroneStatus::Idle) => true,
            (DroneStatus::Navigating, DroneStatus::Navigating) => true,
            (DroneStatus::InFormation, DroneStatus::InFormation) => true,
            (DroneStatus::ExecutingMission, DroneStatus::ExecutingMission) => true,
            (DroneStatus::Error(a), DroneStatus::Error(b)) => a.eq(b),
            _ => false,
        }
    }
}

impl vstd::std_specs::cmp::PartialEqSpecImpl for DroneStatus {
    open spec fn obeys_eq_spec() -> bool {
        true
    }

    /// Two states are equal when they are the same variant, errors also
    /// having the same description.
    open spec fn eq_spec(&self, other: &DroneStatus) -> bool {
        match (self, other) {
            (DroneStatus::Idle, DroneStatus::Idle) => true,
            (DroneStatus::Navigating, DroneStatus::Navigating) => true,
            (DroneStatus::InFormation, DroneStatus::InFormation) => true,
            (DroneStatus::ExecutingMission, DroneStatus::ExecutingMission) => true,
            (DroneStatus::Error(a), DroneStatus::Error(b)) => a@ == b@,
            _ => false,
        }
    }
}

} // verus!
