use uav_swarm::simulation::SimulationMode;

#[test]
fn test_from_str() {
    assert_eq!(SimulationMode::from_str("internal"), Some(SimulationMode::Internal));
    assert_eq!(SimulationMode::from_str("INTERNAL"), Some(SimulationMode::Internal));
    assert_eq!(SimulationMode::from_str("gazebo"), Some(SimulationMode::Gazebo));
    assert_eq!(SimulationMode::from_str("GAZEBO"), Some(SimulationMode::Gazebo));
    assert_eq!(SimulationMode::from_str("invalid"), None);
}

#[test]
fn test_as_str() {
    assert_eq!(SimulationMode::Internal.as_str(), "internal");
    assert_eq!(SimulationMode::Gazebo.as_str(), "gazebo");
}

#[test]
fn test_default() {
    assert_eq!(SimulationMode::default(), SimulationMode::Internal);
}

#[test]
fn ros2_mode_parses_in_any_case() {
    assert_eq!(SimulationMode::from_str("ros2"), Some(SimulationMode::Ros2));
    assert_eq!(SimulationMode::from_str("RoS2"), Some(SimulationMode::Ros2));
    assert_eq!(SimulationMode::Ros2.as_str(), "ros2");
}

#[test]
fn mode_names_round_trip() {
    for m in [SimulationMode::Internal, SimulationMode::Gazebo, SimulationMode::Ros2] {
        assert_eq!(SimulationMode::from_str(m.as_str()), Some(m));
    }
}

#[test]
fn mode_parse_rejects_near_misses() {
    assert_eq!(SimulationMode::from_str(""), None);
    assert_eq!(SimulationMode::from_str(" internal"), None);
    assert_eq!(SimulationMode::from_str("internal "), None);
    assert_eq!(SimulationMode::from_str("gazeb"), None);
    assert_eq!(SimulationMode::from_str("İnternal"), None);
}
