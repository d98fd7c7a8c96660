//! Missions and their execution: a mission leads its assigned drones through
//! a list of waypoints, one at a time, and ends completed or failed.
//!
//! The library is generic over the mission description `K` and the waypoint
//! type `W`; the geometry of waypoints plays no part in the life cycle.

use vstd::prelude::*;
use vstd::string::StringExecFns;
use crate::text::{
    all_digits, clone_strings, decimal, digits_value, push_decimal, str_equals, lemma_decimal_injective,
    lemma_decimal_reads_back,
};

verus! {

/// Where a mission stands.
#[derive(Debug, Clone)]
pub enum MissionStatus {
    /// Created, not yet started.
    NotStarted,
    /// Drones are flying the waypoints.
    InProgress,
    /// The last waypoint was reached.
    Completed,
    /// Stopped, with the reason.
    Failed(String),
}

impl MissionStatus {
    /// The status is `Failed` with a reason that reads `reason`.
    pub open spec fn is_failed_with(self, reason: Seq<char>) -> bool {
        self matches MissionStatus::Failed(r) && r@ == reason
    }
}

impl PartialEq for MissionStatus {
    fn eq(&self, other: &MissionStatus) -> (r: bool) {
        match (self, other) {
            (MissionStatus::NotStarted, MissionStatus::NotStarted) => true,
            (MissionStatus::InProgress, MissionStatus::InProgress) => true,
            (MissionStatus::Completed, MissionStatus::Completed) => true,
            (MissionStatus::Failed(a), MissionStatus::Failed(b)) => a.eq(b),
            _ => false,
        }
    }
}

impl vstd::std_specs::cmp::PartialEqSpecImpl for MissionStatus {
    open spec fn obeys_eq_spec() -> bool {
        true
    }

    open spec fn eq_spec(&self, other: &MissionStatus) -> bool {
        match (self, other) {
            (MissionStatus::NotStarted, MissionStatus::NotStarted) => true,
            (MissionStatus::InProgress, MissionStatus::InProgress) => true,
            (MissionStatus::Completed, MissionStatus::Completed) => true,
            (MissionStatus::Failed(a), MissionStatus::Failed(b)) => a@ == b@,
            _ => false,
        }
    }
}

/// Why a mission without drones or waypoints cannot start.
pub open spec fn no_drones_or_waypoints_reason() -> Seq<char> {
    "No drones assigned or no waypoints"@
}

/// Why a cancelled mission stopped.
pub open spec fn cancelled_reason() -> Seq<char> {
    "Cancelled by user"@
}

/// The error for an unknown mission id.
pub open spec fn not_found_error() -> Seq<char> {
    "Mission not found"@
}

/// The error for executing a mission that was never started.
pub open spec fn not_started_error() -> Seq<char> {
    "Mission not started"@
}

/// The id given to the `n`-th mission created: `mission_<n>`.
pub open spec fn mission_id(n: nat) -> Seq<char> {
    "mission_"@ + decimal(n)
}

/// What one step of executing a mission comes to.
pub enum StepOutcome<W> {
    /// Execution stops with this error.
    Fails(Seq<char>),
    /// Execution is over.
    Finishes,
    /// The drones fly to this waypoint.
    FliesTo(W),
}

/// A mission: a description, the drones that fly it, and its waypoints.
pub struct Mission<K, W> {
    pub id: String,
    pub mission_type: K,
    pub status: MissionStatus,
    pub assigned_drones: Vec<String>,
    pub waypoints: Vec<W>,
    /// Index of the waypoint being flown to.
    pub current_waypoint: usize,
}

impl<K, W> Mission<K, W> {
    /// The mission could start: it has drones and waypoints.
    pub open spec fn can_start(self) -> bool {
        self.assigned_drones@.len() > 0 && self.waypoints@.len() > 0
    }

    /// `new` is `self` with only its status and current waypoint possibly changed.
    pub open spec fn same_but_progress(self, new: Self) -> bool {
        &&& new.id == self.id
        &&& new.mission_type == self.mission_type
        &&& new.assigned_drones == self.assigned_drones
        &&& new.waypoints == self.waypoints
    }

    /// `new` is what starting `self` gives: in progress from the first waypoint
    /// when the mission has drones and waypoints, failed otherwise.
    pub open spec fn started_as(self, new: Self) -> bool {
        &&& self.same_but_progress(new)
        &&& if self.can_start() {
            new.status == MissionStatus::InProgress && new.current_waypoint == 0
        } else {
            new.status.is_failed_with(no_drones_or_waypoints_reason())
                && new.current_waypoint == self.current_waypoint
        }
    }

    /// `new` is `self` cancelled.
    pub open spec fn cancelled_as(self, new: Self) -> bool {
        &&& self.same_but_progress(new)
        &&& new.current_waypoint == self.current_waypoint
        &&& new.status.is_failed_with(cancelled_reason())
    }

    /// The waypoint being flown to, if the index is within the list.
    pub open spec fn target_spec(self) -> Option<W> {
        if self.current_waypoint < self.waypoints@.len() {
            Some(self.waypoints@[self.current_waypoint as int])
        } else {
            None
        }
    }

    /// What the next step of executing the mission comes to: a mission that
    /// was never started or that failed stops with an error, a completed one
    /// is over, and one in progress flies to its current waypoint, or is over
    /// when none is left.
    pub open spec fn step_outcome(self) -> StepOutcome<W> {
        match self.status {
            MissionStatus::NotStarted => StepOutcome::Fails(not_started_error()),
            MissionStatus::Completed => StepOutcome::Finishes,
            MissionStatus::Failed(reason) => StepOutcome::Fails(reason@),
            MissionStatus::InProgress => match self.target_spec() {
                Some(t) => StepOutcome::FliesTo(t),
                None => StepOutcome::Finishes,
            },
        }
    }

    /// The mission after reaching `k` waypoints in a row.
    pub open spec fn advanced_times(self, k: nat) -> Self
        decreases k,
    {
        if k == 0 {
            self
        } else {
            self.advanced().0.advanced_times((k - 1) as nat)
        }
    }

    /// The mission after its drones reached the current waypoint, and whether
    /// there is a further waypoint: move on to the next one, or, at the last,
    /// mark the mission completed.
    pub open spec fn advanced(self) -> (Self, bool) {
        if self.current_waypoint < self.waypoints@.len() - 1 {
            (Mission { current_waypoint: (self.current_waypoint + 1) as usize, ..self }, true)
        } else {
            (Mission { status: MissionStatus::Completed, ..self }, false)
        }
    }

    /// A new, not yet started mission with no drones assigned.
    pub fn new(id: String, mission_type: K, waypoints: Vec<W>) -> (m: Self)
        ensures
            m.id == id,
            m.mission_type == mission_type,
            m.status == MissionStatus::NotStarted,
            m.assigned_drones@.len() == 0,
            m.waypoints == waypoints,
            m.current_waypoint == 0,
    {
        Mission {
            id,
            mission_type,
            status: MissionStatus::NotStarted,
            assigned_drones: Vec::new(),
            waypoints,
            current_waypoint: 0,
        }
    }

    /// Replaces the drones assigned to the mission.
    pub fn assign_drones(&mut self, drone_ids: Vec<String>)
        ensures
            *final(self) == (Mission { assigned_drones: drone_ids, ..*old(self) }),
    {
        self.assigned_drones = drone_ids;
    }

    /// Starts the mission at its first waypoint, or fails it when it has no
    /// drones or no waypoints.
    pub fn start(&mut self)
        ensures
            old(self).started_as(*final(self)),
    {
        if self.assigned_drones.len() > 0 && self.waypoints.len() > 0 {
            self.status = MissionStatus::InProgress;
            self.current_waypoint = 0;
        } else {
            self.status = MissionStatus::Failed(
                String::from_str("No drones assigned or no waypoints"),
            );
        }
    }

    /// Moves on after the current waypoint was reached. Returns whether there
    /// is a further waypoint; at the last one the mission is completed.
    pub fn advance_waypoint(&mut self) -> (more: bool)
        requires
            old(self).waypoints@.len() > 0,
        ensures
            (*final(self), more) == old(self).advanced(),
    {
        if self.current_waypoint < self.waypoints.len() - 1 {
            self.current_waypoint = self.current_waypoint + 1;
            true
        } else {
            self.status = MissionStatus::Completed;
            false
        }
    }
}

impl<K, W: Copy> Mission<K, W> {
    /// The waypoint being flown to, if any.
    pub fn get_current_target(&self) -> (r: Option<W>)
        ensures
            r == self.target_spec(),
    {
        if self.current_waypoint < self.waypoints.len() {
            Some(self.waypoints[self.current_waypoint])
        } else {
            None
        }
    }
}

/// What the drones should do next for a mission being executed.
pub enum MissionStep<W> {
    /// The mission is over; nothing more to fly.
    Finished,
    /// Fly the listed drones to `target` and report back when all arrived.
    FlyTo { target: W, drones: Vec<String> },
}

/// Creates missions, numbering them, and drives them through their life cycle.
pub struct MissionExecutor<K, W> {
    missions: Vec<Mission<K, W>>,
    mission_counter: u32,
}

impl<K, W> MissionExecutor<K, W> {
    /// The missions, in the order they were created.
    pub closed spec fn missions(&self) -> Seq<Mission<K, W>> {
        self.missions@
    }

    /// How many missions were created so far.
    pub closed spec fn counter(&self) -> nat {
        self.mission_counter as nat
    }

    /// Well-formed: the `i`-th mission created carries the id `mission_<i+1>`,
    /// and the counter is the number of missions.
    pub closed spec fn wf(&self) -> bool {
        &&& self.missions@.len() == self.mission_counter
        &&& forall|i: int|
            0 <= i < self.missions@.len() ==> (#[trigger] self.missions@[i]).id@ == mission_id(
                (i + 1) as nat,
            )
    }

    /// The position of the mission with id `id`, if there is one.
    pub open spec fn index_of(&self, id: Seq<char>) -> Option<int> {
        if exists|i: int| 0 <= i < self.missions().len() && (#[trigger] self.missions()[i]).id@ == id {
            Some(
                choose|i: int| 0 <= i < self.missions().len() && (#[trigger] self.missions()[i]).id@ == id,
            )
        } else {
            None
        }
    }

    /// In a well-formed executor ids are unique: a mission with id `id` is
    /// found at exactly one position.
    pub proof fn lemma_index_unique(&self, id: Seq<char>, i: int)
        requires
            self.wf(),
            0 <= i < self.missions().len(),
            self.missions()[i].id@ == id,
        ensures
            self.index_of(id) == Some(i),
    {
        assert(0 <= i < self.missions().len() && self.missions()[i].id@ == id);
        let j = self.index_of(id).unwrap();
        assert(0 <= j < self.missions().len() && self.missions()[j].id@ == id);
        let a = mission_id((i + 1) as nat);
        let b = mission_id((j + 1) as nat);
        assert(self.missions@[i].id@ == a);
        assert(self.missions@[j].id@ == b);
        assert(a == b);
        reveal_strlit("mission_");
        assert(decimal((i + 1) as nat) =~= a.subrange(8, a.len() as int));
        assert(decimal((j + 1) as nat) =~= b.subrange(8, b.len() as int));
        lemma_decimal_injective((i + 1) as nat, (j + 1) as nat);
    }

    /// Two well-formed executors with the same number of missions find every
    /// id at the same position.
    pub proof fn lemma_same_len_same_index(&self, other: &Self, id: Seq<char>)
        requires
            self.wf(),
            other.wf(),
            self.missions().len() == other.missions().len(),
        ensures
            self.index_of(id) == other.index_of(id),
    {
        if let Some(i) = self.index_of(id) {
            assert(other.missions@[i].id@ == mission_id((i + 1) as nat));
            other.lemma_index_unique(id, i);
        } else if let Some(i) = other.index_of(id) {
            assert(self.missions@[i].id@ == mission_id((i + 1) as nat));
            self.lemma_index_unique(id, i);
        }
    }

    /// The id `mission_<n>` belongs to the `n`-th mission created, and to none
    /// when fewer than `n` missions were created.
    pub proof fn lemma_index_of_mission_id(&self, n: nat)
        requires
            self.wf(),
            n >= 1,
        ensures
            self.index_of(mission_id(n)) == if n <= self.missions().len() {
                Some(n - 1)
            } else {
                None::<int>
            },
    {
        if n <= self.missions().len() {
            self.lemma_index_unique(mission_id(n), n - 1);
        } else if let Some(j) = self.index_of(mission_id(n)) {
            let a = mission_id(n);
            let b = mission_id((j + 1) as nat);
            assert(self.missions@[j].id@ == b);
            reveal_strlit("mission_");
            assert(decimal(n) =~= a.subrange(8, a.len() as int));
            assert(decimal((j + 1) as nat) =~= b.subrange(8, b.len() as int));
            lemma_decimal_injective(n, (j + 1) as nat);
        }
    }

    /// An executor with no missions.
    pub fn new() -> (r: Self)
        ensures
            r.wf(),
            r.missions().len() == 0,
            r.counter() == 0,
    {
        MissionExecutor { missions: Vec::new(), mission_counter: 0 }
    }

    /// Finds the position of the mission with id `id`.
    fn find(&self, id: &str) -> (r: Option<usize>)
        requires
            self.wf(),
        ensures
            match r {
                Some(i) => self.index_of(id@) == Some(i as int),
                None => self.index_of(id@) is None,
            },
    {
        let mut i: usize = 0;
        while i < self.missions.len()
            invariant
                self.wf(),
                i <= self.missions@.len(),
                forall|j: int| 0 <= j < i ==> (#[trigger] self.missions@[j]).id@ != id@,
            decreases self.missions@.len() - i,
        {
            if str_equals(self.missions[i].id.as_str(), id) {
                proof {
                    self.lemma_index_unique(id@, i as int);
                }
                return Some(i);
            }
            i = i + 1;
        }
        None
    }

    /// Creates a mission over `waypoints` for the given drones, named
    /// `mission_<n>` where `n` counts the missions created so far. The
    /// mission is not started.
    pub fn create_mission(&mut self, mission_type: K, waypoints: Vec<W>, drone_ids: Vec<String>) -> (id: String)
        requires
            old(self).wf(),
            old(self).counter() < u32::MAX,
        ensures
            final(self).wf(),
            id@ == mission_id(old(self).counter() + 1),
            old(self).index_of(id@) is None,
            final(self).index_of(id@) == Some(old(self).missions().len() as int),
            final(self).counter() == old(self).counter() + 1,
            final(self).missions() == old(self).missions().push(
                Mission {
                    id,
                    mission_type,
                    status: MissionStatus::NotStarted,
                    assigned_drones: drone_ids,
                    waypoints,
                    current_waypoint: 0,
                },
            ),
    {
        self.mission_counter = self.mission_counter + 1;
        let mut id = String::from_str("mission_");
        push_decimal(&mut id, self.mission_counter);
        let mut mission = Mission::new(id.clone(), mission_type, waypoints);
        mission.assign_drones(drone_ids);
        self.missions.push(mission);
        proof {
            old(self).lemma_index_of_mission_id(self.mission_counter as nat);
            self.lemma_index_of_mission_id(self.mission_counter as nat);
        }
        id
    }

    /// Starts the mission with id `id`; fails with `Mission not found` when
    /// there is none.
    pub fn start_mission(&mut self, mission_id: &str) -> (r: Result<(), String>)
        requires
            old(self).wf(),
        ensures
            final(self).wf(),
            final(self).counter() == old(self).counter(),
            match old(self).index_of(mission_id@) {
                None => r matches Err(e) && e@ == not_found_error() && *final(self) == *old(self),
                Some(i) => {
                    &&& r is Ok
                    &&& final(self).missions().len() == old(self).missions().len()
                    &&& old(self).missions()[i].started_as(final(self).missions()[i])
                    &&& forall|j: int| 0 <= j < old(self).missions().len() && j != i
                        ==> final(self).missions()[j] == old(self).missions()[j]
                },
            },
    {
        match self.find(mission_id) {
            Some(i) => {
                self.missions[i].start();
                Ok(())
            },
            None => Err(String::from_str("Mission not found")),
        }
    }
}


impl<K, W> MissionExecutor<K, W> {
    /// Cancels the mission with id `id`: it fails with `Cancelled by user`.
    /// Fails with `Mission not found` when there is none.
    pub fn cancel_mission(&mut self, mission_id: &str) -> (r: Result<(), String>)
        requires
            old(self).wf(),
        ensures
            final(self).wf(),
            final(self).counter() == old(self).counter(),
            match old(self).index_of(mission_id@) {
                None => r matches Err(e) && e@ == not_found_error() && *final(self) == *old(self),
                Some(i) => {
                    &&& r is Ok
                    &&& final(self).missions().len() == old(self).missions().len()
                    &&& old(self).missions()[i].cancelled_as(final(self).missions()[i])
                    &&& forall|j: int| 0 <= j < old(self).missions().len() && j != i
                        ==> final(self).missions()[j] == old(self).missions()[j]
                },
            },
    {
        match self.find(mission_id) {
            Some(i) => {
                self.missions[i].status = MissionStatus::Failed(String::from_str("Cancelled by user"));
                Ok(())
            },
            None => Err(String::from_str("Mission not found")),
        }
    }

    /// The status of the mission with id `id`, if there is one.
    pub fn get_mission_status(&self, mission_id: &str) -> (r: Option<&MissionStatus>)
        requires
            self.wf(),
        ensures
            match self.index_of(mission_id@) {
                None => r is None,
                Some(i) => r == Some(&self.missions()[i].status),
            },
    {
        match self.find(mission_id) {
            Some(i) => Some(&self.missions[i].status),
            None => None,
        }
    }

    /// The mission with id `id`, if there is one.
    pub fn get_mission(&self, mission_id: &str) -> (r: Option<&Mission<K, W>>)
        requires
            self.wf(),
        ensures
            match self.index_of(mission_id@) {
                None => r is None,
                Some(i) => r == Some(&self.missions()[i]),
            },
    {
        match self.find(mission_id) {
            Some(i) => Some(&self.missions[i]),
            None => None,
        }
    }

    /// The missions, in the order they were created.
    pub fn all_missions(&self) -> (r: &Vec<Mission<K, W>>)
        ensures
            r@ == self.missions(),
    {
        &self.missions
    }

    /// The ids of all missions, in the order they were created.
    pub fn list_active_missions(&self) -> (r: Vec<String>)
        ensures
            r@.map_values(|s: String| s@) == self.missions().map_values(|m: Mission<K, W>| m.id@),
    {
        let mut r: Vec<String> = Vec::new();
        let mut i: usize = 0;
        while i < self.missions.len()
            invariant
                i <= self.missions@.len(),
                r@.len() == i,
                forall|j: int| 0 <= j < i ==> (#[trigger] r@[j])@ == self.missions@[j].id@,
            decreases self.missions@.len() - i,
        {
            r.push(self.missions[i].id.clone());
            i = i + 1;
        }
        assert(r@.map_values(|s: String| s@) =~= self.missions().map_values(|m: Mission<K, W>| m.id@));
        r
    }

    /// Records that the drones of the mission with id `id` reached its
    /// current waypoint: the mission moves on to its next waypoint, or
    /// completes after the last. Returns whether execution goes on (an
    /// unknown id leaves everything as it is and goes on).
    pub fn waypoint_reached(&mut self, mission_id: &str) -> (more: bool)
        requires
            old(self).wf(),
            old(self).index_of(mission_id@) matches Some(i) ==> old(self).missions()[i].waypoints@.len() > 0,
        ensures
            final(self).wf(),
            final(self).counter() == old(self).counter(),
            match old(self).index_of(mission_id@) {
                None => more && *final(self) == *old(self),
                Some(i) => {
                    &&& final(self).missions() == old(self).missions().update(i, old(self).missions()[i].advanced().0)
                    &&& more == old(self).missions()[i].advanced().1
                },
            },
    {
        match self.find(mission_id) {
            Some(i) => {
                let more = self.missions[i].advance_waypoint();
                proof {
                    assert(final(self).missions() =~= old(self).missions().update(i as int, old(self).missions()[i as int].advanced().0));
                }
                more
            },
            None => true,
        }
    }
}

impl<K, W: Copy> MissionExecutor<K, W> {
    /// Decides the next step of executing the mission with id `id`:
    /// unknown or not started missions are an error, a failed mission reports
    /// its reason, a completed one is finished, and a mission in progress
    /// sends its drones to the current waypoint, or completes when there is
    /// none left.
    pub fn next_step(&mut self, mission_id: &str) -> (r: Result<MissionStep<W>, String>)
        requires
            old(self).wf(),
        ensures
            final(self).wf(),
            final(self).counter() == old(self).counter(),
            match old(self).index_of(mission_id@) {
                None => r matches Err(e) && e@ == not_found_error() && *final(self) == *old(self),
                Some(i) => {
                    let m = old(self).missions()[i];
                    &&& match m.step_outcome() {
                        StepOutcome::Fails(e) => r matches Err(x) && x@ == e,
                        StepOutcome::Finishes => r matches Ok(MissionStep::Finished),
                        StepOutcome::FliesTo(t) => r matches Ok(MissionStep::FlyTo { target, drones })
                            && target == t && drones@ == m.assigned_drones@,
                    }
                    &&& if m.status == MissionStatus::InProgress && m.target_spec() is None {
                        final(self).missions() == old(self).missions().update(
                            i,
                            Mission { status: MissionStatus::Completed, ..m },
                        )
                    } else {
                        *final(self) == *old(self)
                    }
                },
            },
    {
        match self.find(mission_id) {
            None => Err(String::from_str("Mission not found")),
            Some(i) => {
                match &self.missions[i].status {
                    MissionStatus::NotStarted => {
                        return Err(String::from_str("Mission not started"));
                    },
                    MissionStatus::Completed => {
                        return Ok(MissionStep::Finished);
                    },
                    MissionStatus::Failed(reason) => {
                        return Err(reason.clone());
                    },
                    MissionStatus::InProgress => {},
                }
                match self.missions[i].get_current_target() {
                    Some(target) => {
                        let drones = clone_strings(&self.missions[i].assigned_drones);
                        Ok(MissionStep::FlyTo { target, drones })
                    },
                    None => {
                        self.missions[i].status = MissionStatus::Completed;
                        proof {
                            assert(final(self).missions() =~= old(self).missions().update(
                                i as int,
                                Mission { status: MissionStatus::Completed, ..old(self).missions()[i as int] },
                            ));
                        }
                        Ok(MissionStep::Finished)
                    },
                }
            },
        }
    }
}

/// Reaching waypoints one after another from waypoint `c` moves the mission
/// forward one waypoint at a time while it stays in progress.
proof fn lemma_advance_from<K, W>(m: Mission<K, W>, k: nat)
    requires
        m.status == MissionStatus::InProgress,
        m.current_waypoint + k < m.waypoints@.len(),
    ensures
        m.advanced_times(k).current_waypoint == m.current_waypoint + k,
        m.advanced_times(k).status == MissionStatus::InProgress,
        m.same_but_progress(m.advanced_times(k)),
    decreases k,
{
    if k > 0 {
        let n = m.advanced().0;
        assert(m.waypoints.len() == m.waypoints@.len());
        assert(m.current_waypoint < m.waypoints@.len() - 1);
        lemma_advance_from(n, (k - 1) as nat);
    }
}

/// A started mission flies its waypoints in order: after reaching `k`
/// waypoints it heads for waypoint `k`, reaching it leads on to the next
/// one, and reaching the last one completes the mission and ends execution.
pub proof fn lemma_waypoints_flown_in_order<K, W>(m: Mission<K, W>, k: nat)
    requires
        m.status == MissionStatus::InProgress,
        m.current_waypoint == 0,
        k < m.waypoints@.len(),
    ensures
        m.advanced_times(k).step_outcome() == StepOutcome::FliesTo(m.waypoints@[k as int]),
        k + 1 < m.waypoints@.len() ==> m.advanced_times(k).advanced().1,
        k + 1 == m.waypoints@.len() ==> {
            &&& !m.advanced_times(k).advanced().1
            &&& m.advanced_times(k).advanced().0.status == MissionStatus::Completed
            &&& m.advanced_times(k).advanced().0.step_outcome() == StepOutcome::<W>::Finishes
        },
{
    lemma_advance_from(m, k);
}

/// Starting a mission either sets it flying to its first waypoint or makes
/// every later execution step fail with the reason it could not start.
pub proof fn lemma_start_then_step<K, W>(m: Mission<K, W>, started: Mission<K, W>)
    requires
        m.started_as(started),
    ensures
        m.can_start() ==> started.step_outcome() == StepOutcome::FliesTo(m.waypoints@[0]),
        !m.can_start() ==> started.step_outcome() == StepOutcome::<W>::Fails(no_drones_or_waypoints_reason()),
{
}

/// A cancelled mission stops: its next execution step fails with
/// `Cancelled by user`.
pub proof fn lemma_cancel_stops_execution<K, W>(m: Mission<K, W>, cancelled: Mission<K, W>)
    requires
        m.cancelled_as(cancelled),
    ensures
        cancelled.step_outcome() == StepOutcome::<W>::Fails(cancelled_reason()),
{
}

/// A mission that was created but never started cannot be executed.
pub proof fn lemma_unstarted_mission_fails<K, W>(m: Mission<K, W>)
    requires
        m.status == MissionStatus::NotStarted,
    ensures
        m.step_outcome() == StepOutcome::<W>::Fails(not_started_error()),
{
}

/// The id of the `n`-th mission is `mission_` followed by the usual decimal
/// digits of `n`: ASCII digits, without a leading zero, that read back as `n`.
pub proof fn lemma_mission_id_reads_back(n: nat)
    requires
        n >= 1,
    ensures
        mission_id(n).subrange(0, 8) == seq!['m', 'i', 's', 's', 'i', 'o', 'n', '_'],
        mission_id(n).len() > 8,
        all_digits(mission_id(n).subrange(8, mission_id(n).len() as int)),
        digits_value(mission_id(n).subrange(8, mission_id(n).len() as int)) == n,
        mission_id(n)[8] != '0',
{
    reveal_strlit("mission_");
    lemma_decimal_reads_back(n);
    let a = mission_id(n);
    assert(a.subrange(0, 8) =~= seq!['m', 'i', 's', 's', 'i', 'o', 'n', '_']);
    assert(a.subrange(8, a.len() as int) =~= decimal(n));
    assert(a[8] == decimal(n)[0]);
}

} // verus!
