//! Bridge settings for the external simulators, their defaults, and the
//! environment variables that override them.

use vstd::prelude::*;
use vstd::string::StringExecFns;
use crate::simulation::mode::SimulationMode;
use crate::text::{decimal, lemma_parse_decimal_round_trip, lower_seq, lowercase_equals, parse_u64, parse_u64_spec};
use crate::simulation::mode::lemma_mode_name_round_trip;

verus! {

/// The Gazebo bridge URL used when none is configured.
pub open spec fn default_bridge_url_spec() -> Seq<char> {
    "http://localhost:8081"@
}

/// The ROS2 bridge URL used when none is configured.
pub open spec fn default_ros2_bridge_url_spec() -> Seq<char> {
    "http://localhost:8082"@
}

/// The Gazebo bridge URL used when none is configured.
pub fn default_bridge_url() -> (r: String)
    ensures
        r@ == default_bridge_url_spec(),
{
    String::from_str("http://localhost:8081")
}

/// The ROS2 bridge URL used when none is configured.
pub fn default_ros2_bridge_url() -> (r: String)
    ensures
        r@ == default_ros2_bridge_url_spec(),
{
    String::from_str("http://localhost:8082")
}

/// The bridge request timeout, in milliseconds, used when none is configured.
pub fn default_timeout() -> (r: u64)
    ensures
        r == 5000,
{
    5000
}

/// How to reach the Gazebo HTTP bridge.
#[derive(Debug, Clone)]
pub struct GazeboConfig {
    pub bridge_url: String,
    pub enabled: bool,
    pub auto_start: bool,
    pub timeout_ms: u64,
}

/// How to reach the ROS2 HTTP bridge.
#[derive(Debug, Clone)]
pub struct Ros2Config {
    pub bridge_url: String,
    pub enabled: bool,
    pub timeout_ms: u64,
}

impl Default for GazeboConfig {
    /// The local bridge, disabled, with the default timeout.
    fn default() -> (r: GazeboConfig)
        ensures
            r.bridge_url@ == default_bridge_url_spec(),
            !r.enabled,
            !r.auto_start,
            r.timeout_ms == 5000,
    {
        GazeboConfig {
            bridge_url: default_bridge_url(),
            enabled: false,
            auto_start: false,
            timeout_ms: default_timeout(),
        }
    }
}

impl Default for Ros2Config {
    /// The local bridge, disabled, with the default timeout.
    fn default() -> (r: Ros2Config)
        ensures
            r.bridge_url@ == default_ros2_bridge_url_spec(),
            !r.enabled,
            r.timeout_ms == 5000,
    {
        Ros2Config { bridge_url: default_ros2_bridge_url(), enabled: false, timeout_ms: default_timeout() }
    }
}

/// The values of the overriding environment variables, each `None` when the
/// variable is unset.
pub struct EnvOverrides {
    /// `UAV_SIMULATION_MODE`
    pub simulation_mode: Option<String>,
    /// `UAV_GAZEBO_BRIDGE_URL`
    pub gazebo_bridge_url: Option<String>,
    /// `UAV_GAZEBO_ENABLED`
    pub gazebo_enabled: Option<String>,
    /// `UAV_GAZEBO_AUTO_START`
    pub gazebo_auto_start: Option<String>,
    /// `UAV_GAZEBO_TIMEOUT_MS`
    pub gazebo_timeout_ms: Option<String>,
}

/// A flag variable is set when it reads `true`, in any case.
pub open spec fn flag_value(v: Seq<char>) -> bool {
    lower_seq(v) == "true"@
}

/// The simulation mode after the override: a recognised mode name replaces
/// it, anything else leaves it.
pub open spec fn mode_after(mode: SimulationMode, v: Option<String>) -> SimulationMode {
    match v {
        Some(s) => match SimulationMode::parse_spec(s@) {
            Some(m) => m,
            None => mode,
        },
        None => mode,
    }
}

/// A flag after the override.
pub open spec fn flag_after(flag: bool, v: Option<String>) -> bool {
    match v {
        Some(s) => flag_value(s@),
        None => flag,
    }
}

/// The timeout after the override: a valid `u64` replaces it, anything else
/// leaves it.
pub open spec fn timeout_after(t: u64, v: Option<String>) -> u64 {
    match v {
        Some(s) => match parse_u64_spec(s@) {
            Some(n) => n,
            None => t,
        },
        None => t,
    }
}

/// The bridge URL after the override.
pub open spec fn url_after(url: String, v: Option<String>) -> String {
    match v {
        Some(u) => u,
        None => url,
    }
}

/// Applies the environment overrides to the simulation mode and the Gazebo
/// settings.
pub fn apply_env_overrides(mode: &mut SimulationMode, gazebo: &mut GazeboConfig, env: EnvOverrides)
    ensures
        *final(mode) == mode_after(*old(mode), env.simulation_mode),
        final(gazebo).bridge_url == url_after(old(gazebo).bridge_url, env.gazebo_bridge_url),
        final(gazebo).enabled == flag_after(old(gazebo).enabled, env.gazebo_enabled),
        final(gazebo).auto_start == flag_after(old(gazebo).auto_start, env.gazebo_auto_start),
        final(gazebo).timeout_ms == timeout_after(old(gazebo).timeout_ms, env.gazebo_timeout_ms),
{
    proof {
        reveal_strlit("true");
    }
    if let Some(mode_str) = &env.simulation_mode {
        if let Some(m) = SimulationMode::from_str(mode_str.as_str()) {
            *mode = m;
        }
    }
    if let Some(url) = env.gazebo_bridge_url {
        gazebo.bridge_url = url;
    }
    if let Some(enabled) = &env.gazebo_enabled {
        gazebo.enabled = lowercase_equals(enabled.as_str(), "true");
    }
    if let Some(auto_start) = &env.gazebo_auto_start {
        gazebo.auto_start = lowercase_equals(auto_start.as_str(), "true");
    }
    if let Some(timeout) = &env.gazebo_timeout_ms {
        if let Some(t) = parse_u64(timeout.as_str()) {
            gazebo.timeout_ms = t;
        }
    }
}

/// With no variable set, the overrides change nothing.
pub proof fn lemma_no_overrides_change_nothing(mode: SimulationMode, gazebo: GazeboConfig)
    ensures
        mode_after(mode, None) == mode,
        url_after(gazebo.bridge_url, None) == gazebo.bridge_url,
        flag_after(gazebo.enabled, None) == gazebo.enabled,
        flag_after(gazebo.auto_start, None) == gazebo.auto_start,
        timeout_after(gazebo.timeout_ms, None) == gazebo.timeout_ms,
{
}

/// A flag variable reads as set exactly for `true` in any mix of cases.
pub proof fn lemma_flag_true_any_case(v: Seq<char>, w: Seq<char>)
    requires
        lower_seq(v) == lower_seq(w),
    ensures
        flag_value(v) == flag_value(w),
{
}

/// A variable naming a mode selects that mode, whatever the mode was before.
pub proof fn lemma_named_mode_selected(mode: SimulationMode, s: String, m: SimulationMode)
    requires
        SimulationMode::parse_spec(s@) == Some(m),
    ensures
        mode_after(mode, Some(s)) == m,
{
}

/// Setting the mode variable to the name of a mode selects that mode, from
/// any previous mode.
pub proof fn lemma_mode_name_selects_mode(mode: SimulationMode, s: String, m: SimulationMode)
    requires
        s@ == m.name_spec(),
    ensures
        mode_after(mode, Some(s)) == m,
{
    lemma_mode_name_round_trip(m);
}

/// A timeout variable holding a valid `u64` sets the timeout to that number,
/// whatever the timeout was before.
pub proof fn lemma_parsed_timeout_replaces(t: u64, v: String, n: u64)
    requires
        parse_u64_spec(v@) == Some(n),
    ensures
        timeout_after(t, Some(v)) == n,
{
}

/// Setting the timeout variable to the decimal digits of `n` sets the
/// timeout to `n`, longer or shorter than before.
pub proof fn lemma_decimal_timeout_replaces(t: u64, v: String, n: u64)
    requires
        v@ == decimal(n as nat),
    ensures
        timeout_after(t, Some(v)) == n,
{
    lemma_parse_decimal_round_trip(n);
}

} // verus!
