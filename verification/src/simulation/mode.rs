//! The simulation back-end that drives drone state.

use vstd::prelude::*;
use crate::text::{lowercase_equals, lower_seq};

verus! {

/// Which engine moves the drones.
#[derive(Debug, Clone, Copy, PartialEq, Eq, Structural)]
pub enum SimulationMode {
    /// Kinematics computed in-process.
    Internal,
    /// An external Gazebo simulation reached over an HTTP bridge.
    Gazebo,
    /// A ROS2 node reached over an HTTP bridge.
    Ros2,
}

} // verus!

verus! {

impl SimulationMode {
    /// The mode named by `s` (ASCII case is ignored), if any.
    pub open spec fn parse_spec(s: Seq<char>) -> Option<SimulationMode> {
        let l = lower_seq(s);
        if l == "internal"@ {
            Some(SimulationMode::Internal)
        } else if l == "gazebo"@ {
            Some(SimulationMode::Gazebo)
        } else if l == "ros2"@ {
            Some(SimulationMode::Ros2)
        } else {
            None
        }
    }

    /// The lower-case name of the mode.
    pub open spec fn name_spec(self) -> Seq<char> {
        match self {
            SimulationMode::Internal => "internal"@,
            SimulationMode::Gazebo => "gazebo"@,
            SimulationMode::Ros2 => "ros2"@,
        }
    }

    /// Parses a mode name, ignoring case: `internal`, `gazebo` or `ros2`.
    pub fn from_str(s: &str) -> (r: Option<SimulationMode>)
        ensures
            r == SimulationMode::parse_spec(s@),
    {
        proof {
            reveal_strlit("internal");
            reveal_strlit("gazebo");
            reveal_strlit("ros2");
        }
        if lowercase_equals(s, "internal") {
            Some(SimulationMode::Internal)
        } else if lowercase_equals(s, "gazebo") {
            Some(SimulationMode::Gazebo)
        } else if lowercase_equals(s, "ros2") {
            Some(SimulationMode::Ros2)
        } else {
            None
        }
    }

    /// The lower-case name of the mode.
    pub fn as_str(&self) -> (r: &'static str)
        ensures
            r@ == self.name_spec(),
    {
        match self {
            SimulationMode::Internal => "internal",
            SimulationMode::Gazebo => "gazebo",
            SimulationMode::Ros2 => "ros2",
        }
    }
}

impl Default for SimulationMode {
    /// The in-process engine.
    fn default() -> (r: SimulationMode)
        ensures
            r == SimulationMode::Internal,
    {
        SimulationMode::Internal
    }
}

/// Parsing the name of a mode gives the mode back.
pub proof fn lemma_mode_name_round_trip(m: SimulationMode)
    ensures
        SimulationMode::parse_spec(m.name_spec()) == Some(m),
{
    reveal_strlit("internal");
    reveal_strlit("gazebo");
    reveal_strlit("ros2");
    assert(lower_seq("internal"@) =~= "internal"@);
    assert(lower_seq("gazebo"@) =~= "gazebo"@);
    assert(lower_seq("ros2"@) =~= "ros2"@);
}

/// Parsing ignores ASCII case: two names that fold to the same lower-case
/// form name the same mode.
pub proof fn lemma_mode_parse_ignores_case(s: Seq<char>, t: Seq<char>)
    requires
        lower_seq(s) == lower_seq(t),
    ensures
        SimulationMode::parse_spec(s) == SimulationMode::parse_spec(t),
{
}

} // verus!
