use uav_swarm::simulation::config::{
    apply_env_overrides, default_bridge_url, default_ros2_bridge_url, default_timeout, EnvOverrides,
};
use uav_swarm::simulation::{GazeboConfig, Ros2Config, SimulationMode};
use uav_swarm::text::parse_u64;

fn no_env() -> EnvOverrides {
    EnvOverrides {
        simulation_mode: None,
        gazebo_bridge_url: None,
        gazebo_enabled: None,
        gazebo_auto_start: None,
        gazebo_timeout_ms: None,
    }
}

#[test]
fn bridge_defaults() {
    let g = GazeboConfig::default();
    assert_eq!(g.bridge_url, "http://localhost:8081");
    assert!(!g.enabled);
    assert!(!g.auto_start);
    assert_eq!(g.timeout_ms, 5000);
    let r = Ros2Config::default();
    assert_eq!(r.bridge_url, "http://localhost:8082");
    assert!(!r.enabled);
    assert_eq!(r.timeout_ms, 5000);
    assert_eq!(default_bridge_url(), "http://localhost:8081");
    assert_eq!(default_ros2_bridge_url(), "http://localhost:8082");
    assert_eq!(default_timeout(), 5000);
}

#[test]
fn no_overrides_change_nothing() {
    let mut mode = SimulationMode::Gazebo;
    let mut g = GazeboConfig::default();
    apply_env_overrides(&mut mode, &mut g, no_env());
    assert_eq!(mode, SimulationMode::Gazebo);
    assert_eq!(g.bridge_url, "http://localhost:8081");
    assert_eq!(g.timeout_ms, 5000);
    assert!(!g.enabled && !g.auto_start);
}

#[test]
fn overrides_replace_settings() {
    let mut mode = SimulationMode::Internal;
    let mut g = GazeboConfig::default();
    let env = EnvOverrides {
        simulation_mode: Some("GAZEBO".to_string()),
        gazebo_bridge_url: Some("http://sim:9000".to_string()),
        gazebo_enabled: Some("True".to_string()),
        gazebo_auto_start: Some("yes".to_string()),
        gazebo_timeout_ms: Some("1500".to_string()),
    };
    apply_env_overrides(&mut mode, &mut g, env);
    assert_eq!(mode, SimulationMode::Gazebo);
    assert_eq!(g.bridge_url, "http://sim:9000");
    assert!(g.enabled);
    assert!(!g.auto_start);
    assert_eq!(g.timeout_ms, 1500);
}

#[test]
fn invalid_overrides_are_ignored() {
    let mut mode = SimulationMode::Ros2;
    let mut g = GazeboConfig::default();
    g.enabled = true;
    let env = EnvOverrides {
        simulation_mode: Some("unity".to_string()),
        gazebo_bridge_url: None,
        gazebo_enabled: Some("1".to_string()),
        gazebo_auto_start: None,
        gazebo_timeout_ms: Some("-10".to_string()),
    };
    apply_env_overrides(&mut mode, &mut g, env);
    assert_eq!(mode, SimulationMode::Ros2);
    assert!(!g.enabled);
    assert_eq!(g.timeout_ms, 5000);
}

#[test]
fn parse_u64_matches_std() {
    for s in ["0", "42", "+42", "007", "18446744073709551615", "18446744073709551616", "", "+", "-1", "1 ", "4a", "+-1", "١"] {
        assert_eq!(parse_u64(s), s.parse::<u64>().ok(), "input {:?}", s);
    }
}
