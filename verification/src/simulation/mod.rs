pub mod mode;
pub mod config;
pub mod internal_engine;

pub use mode::SimulationMode;
pub use config::{GazeboConfig, Ros2Config};
pub use internal_engine::InternalSimulationEngine;
