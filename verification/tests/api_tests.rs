use uav_swarm::api::requests::{validate_formation_request, validate_mission_drones, validate_mode_request, validate_start, validate_stop};
use uav_swarm::api::models::{status_code, status_text, FormationListResponse, MissionResponse, ModeChangeResponse, SimulationModeResponse};
use uav_swarm::api::ApiError;
use uav_swarm::formation::FormationType;
use uav_swarm::mission::{Mission, MissionStatus};
use uav_swarm::simulation::SimulationMode;

#[test]
fn error_status_codes() {
    assert_eq!(ApiError::DroneNotFound("d".into()).status_code(), 404);
    assert_eq!(ApiError::MissionNotFound("m".into()).status_code(), 404);
    assert_eq!(ApiError::InvalidFormation("x".into()).status_code(), 400);
    assert_eq!(ApiError::BadRequest("x".into()).status_code(), 400);
    assert_eq!(ApiError::ValidationError("x".into()).status_code(), 400);
    assert_eq!(ApiError::Internal("x".into()).status_code(), 500);
    assert_eq!(ApiError::InternalError("x".into()).status_code(), 500);
}

#[test]
fn error_messages() {
    assert_eq!(ApiError::DroneNotFound("drone_7".into()).message(), "Drone not found: drone_7");
    assert_eq!(ApiError::MissionNotFound("mission_2".into()).message(), "Mission not found: mission_2");
    assert_eq!(ApiError::ValidationError("too far".into()).message(), "Validation error: too far");
    assert_eq!(ApiError::InternalError("boom".into()).message(), "Internal error: boom");
}

#[test]
fn formation_request_checks() {
    assert_eq!(validate_formation_request("Line").ok(), Some(FormationType::Line));
    match validate_formation_request("circle") {
        Err(ApiError::InvalidFormation(m)) => {
            assert_eq!(m, "Invalid formation type: circle. Available: triangle, line, v_formation")
        }
        _ => panic!("circle must be refused"),
    }
}

#[test]
fn mode_request_checks() {
    assert_eq!(validate_mode_request("ROS2").ok(), Some(SimulationMode::Ros2));
    match validate_mode_request("unity") {
        Err(ApiError::BadRequest(m)) => assert_eq!(m, "Invalid simulation mode: unity"),
        _ => panic!("unity must be refused"),
    }
}

#[test]
fn start_and_stop_checks() {
    assert!(validate_start(false).is_ok());
    match validate_start(true) {
        Err(ApiError::BadRequest(m)) => assert_eq!(m, "Simulation is already running"),
        _ => panic!("a running simulation cannot start"),
    }
    assert!(validate_stop(true).is_ok());
    match validate_stop(false) {
        Err(ApiError::BadRequest(m)) => assert_eq!(m, "Simulation is not running"),
        _ => panic!("a stopped simulation cannot stop"),
    }
    match validate_mission_drones(0) {
        Err(ApiError::ValidationError(m)) => assert_eq!(m, "No drones available for mission"),
        _ => panic!("a mission needs drones"),
    }
    assert!(validate_mission_drones(3).is_ok());
}

#[test]
fn mission_status_presentation() {
    assert_eq!(status_code(&MissionStatus::NotStarted), "not_started");
    assert_eq!(status_code(&MissionStatus::InProgress), "in_progress");
    assert_eq!(status_code(&MissionStatus::Completed), "completed");
    assert_eq!(status_code(&MissionStatus::Failed("x".into())), "failed");
    assert_eq!(status_text(&MissionStatus::InProgress), "in_progress");
    assert_eq!(status_text(&MissionStatus::Failed("Cancelled by user".into())), "failed: Cancelled by user");
}

#[test]
fn mission_response_from_mission() {
    let mut m: Mission<(), i64> = Mission::new("mission_4".to_string(), (), vec![1]);
    m.assign_drones(vec!["a".to_string(), "b".to_string()]);
    let r = MissionResponse::from_mission(&m, "MoveTo".to_string());
    assert_eq!(r.id, "mission_4");
    assert_eq!(r.mission_type, "MoveTo");
    assert_eq!(r.status, "not_started");
    assert_eq!(r.assigned_drones, vec!["a".to_string(), "b".to_string()]);
}

#[test]
fn small_responses() {
    assert_eq!(FormationListResponse::available().available_formations.len(), 3);
    assert_eq!(SimulationModeResponse::for_mode(SimulationMode::Gazebo).mode, "gazebo");
    let r = ModeChangeResponse::switched_to("gazebo");
    assert_eq!(r.message, "Successfully switched to gazebo mode");
    assert_eq!(r.new_mode, "gazebo");
}
