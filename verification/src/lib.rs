//! Verified core of a UAV swarm manager: simulation modes, formation types,
//! mission life cycles, configuration overrides and API error handling.

pub mod text;
pub mod drone;
pub mod formation;
pub mod mission;
pub mod simulation;
pub mod api;
pub mod swarm;
