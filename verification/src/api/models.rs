//! Request and response bodies of the HTTP API, and how missions and modes
//! are presented in them.

use vstd::prelude::*;
use vstd::string::StringExecFns;
use crate::formation::{available_formation_names, available_formations};
use crate::mission::{Mission, MissionStatus};
use crate::simulation::mode::SimulationMode;
use crate::text::clone_strings;

verus! {

/// Asks for a formation by name.
pub struct SetFormationRequest {
    pub formation_type: String,
}

/// The formations a client may request.
pub struct FormationListResponse {
    pub available_formations: Vec<String>,
}

/// A mission as the API shows it.
pub struct MissionResponse {
    pub id: String,
    pub mission_type: String,
    pub status: String,
    pub assigned_drones: Vec<String>,
}

/// All missions.
pub struct MissionListResponse {
    pub missions: Vec<MissionResponse>,
}

/// The current simulation mode, by name.
pub struct SimulationModeResponse {
    pub mode: String,
}

/// Asks to switch to a simulation mode, by name.
pub struct SetSimulationModeRequest {
    pub mode: String,
}

/// Confirms a switch of simulation mode.
pub struct ModeChangeResponse {
    pub message: String,
    pub new_mode: String,
}

/// Asks to start the simulation, optionally for a while.
pub struct StartSimulationRequest {
    pub duration_seconds: Option<u64>,
}

/// A plain confirmation.
pub struct SuccessResponse {
    pub message: String,
}

/// The short name of a mission status.
pub open spec fn status_code_spec(s: MissionStatus) -> Seq<char> {
    match s {
        MissionStatus::NotStarted => "not_started"@,
        MissionStatus::InProgress => "in_progress"@,
        MissionStatus::Completed => "completed"@,
        MissionStatus::Failed(_) => "failed"@,
    }
}

/// A mission status as listed: the short name, and for a failure its reason.
pub open spec fn status_text_spec(s: MissionStatus) -> Seq<char> {
    match s {
        MissionStatus::Failed(reason) => "failed: "@ + reason@,
        _ => status_code_spec(s),
    }
}

/// The short name of a mission status.
pub fn status_code(s: &MissionStatus) -> (r: &'static str)
    ensures
        r@ == status_code_spec(*s),
{
    match s {
        MissionStatus::NotStarted => "not_started",
        MissionStatus::InProgress => "in_progress",
        MissionStatus::Completed => "completed",
        MissionStatus::Failed(_) => "failed",
    }
}

/// A mission status as listed: the short name, and for a failure its reason.
pub fn status_text(s: &MissionStatus) -> (r: String)
    ensures
        r@ == status_text_spec(*s),
{
    match s {
        MissionStatus::Failed(reason) => {
            let mut r = String::from_str("failed: ");
            r.append(reason.as_str());
            r
        },
        _ => String::from_str(status_code(s)),
    }
}

impl MissionResponse {
    /// Presents a mission whose description reads `mission_type`.
    pub fn from_mission<K, W>(m: &Mission<K, W>, mission_type: String) -> (r: MissionResponse)
        ensures
            r.id@ == m.id@,
            r.mission_type == mission_type,
            r.status@ == status_text_spec(m.status),
            r.assigned_drones@ == m.assigned_drones@,
    {
        MissionResponse {
            id: m.id.clone(),
            mission_type,
            status: status_text(&m.status),
            assigned_drones: clone_strings(&m.assigned_drones),
        }
    }
}

impl FormationListResponse {
    /// Lists the formation names a client may request.
    pub fn available() -> (r: FormationListResponse)
        ensures
            r.available_formations@.map_values(|s: String| s@) == available_formation_names(),
    {
        FormationListResponse { available_formations: available_formations() }
    }
}

impl SimulationModeResponse {
    /// Reports `mode` by its name.
    pub fn for_mode(mode: SimulationMode) -> (r: SimulationModeResponse)
        ensures
            r.mode@ == mode.name_spec(),
    {
        SimulationModeResponse { mode: String::from_str(mode.as_str()) }
    }
}

impl ModeChangeResponse {
    /// Confirms the switch to the mode the client asked for by `requested`.
    pub fn switched_to(requested: &str) -> (r: ModeChangeResponse)
        ensures
            r.message@ == "Successfully switched to "@ + requested@ + " mode"@,
            r.new_mode@ == requested@,
    {
        let mut message = String::from_str("Successfully switched to ");
        message.append(requested);
        message.append(" mode");
        ModeChangeResponse { message, new_mode: String::from_str(requested) }
    }
}

/// A status that is not a failure is listed by its short name, and the
/// short names are `not_started`, `in_progress` and `completed`.
pub proof fn lemma_status_text_is_code(s: MissionStatus)
    ensures
        !(s is Failed) ==> status_text_spec(s) == status_code_spec(s),
        status_text_spec(MissionStatus::NotStarted) == seq![
            'n', 'o', 't', '_', 's', 't', 'a', 'r', 't', 'e', 'd',
        ],
        status_text_spec(MissionStatus::InProgress) == seq![
            'i', 'n', '_', 'p', 'r', 'o', 'g', 'r', 'e', 's', 's',
        ],
        status_text_spec(MissionStatus::Completed) == seq!['c', 'o', 'm', 'p', 'l', 'e', 't', 'e', 'd'],
        status_code_spec(s) == (match s {
            MissionStatus::NotStarted => seq!['n', 'o', 't', '_', 's', 't', 'a', 'r', 't', 'e', 'd'],
            MissionStatus::InProgress => seq!['i', 'n', '_', 'p', 'r', 'o', 'g', 'r', 'e', 's', 's'],
            MissionStatus::Completed => seq!['c', 'o', 'm', 'p', 'l', 'e', 't', 'e', 'd'],
            MissionStatus::Failed(_) => seq!['f', 'a', 'i', 'l', 'e', 'd'],
        }),
{
    reveal_strlit("not_started");
    reveal_strlit("in_progress");
    reveal_strlit("completed");
    reveal_strlit("failed");
    assert("not_started"@ =~= seq!['n', 'o', 't', '_', 's', 't', 'a', 'r', 't', 'e', 'd']);
    assert("in_progress"@ =~= seq!['i', 'n', '_', 'p', 'r', 'o', 'g', 'r', 'e', 's', 's']);
    assert("completed"@ =~= seq!['c', 'o', 'm', 'p', 'l', 'e', 't', 'e', 'd']);
    assert("failed"@ =~= seq!['f', 'a', 'i', 'l', 'e', 'd']);
}

/// A failed mission is listed as `failed: ` followed by its reason.
pub proof fn lemma_failed_status_text(s: MissionStatus, reason: Seq<char>)
    requires
        s.is_failed_with(reason),
    ensures
        status_text_spec(s) == seq!['f', 'a', 'i', 'l', 'e', 'd', ':', ' '] + reason,
{
    reveal_strlit("failed: ");
    assert("failed: "@ =~= seq!['f', 'a', 'i', 'l', 'e', 'd', ':', ' ']);
}

} // verus!
