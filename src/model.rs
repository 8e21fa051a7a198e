//! Value types: fan profiles, capability sets, telemetry and the policy.
use vstd::prelude::*;

verus! {

/// Relies on `std::time::Instant` as an opaque value: a telemetry capture
/// carries the moment it was taken, which no check here reads.
#[verifier::external_type_specification]
#[verifier::external_body]
pub struct ExInstant(std::time::Instant);

/// Relies on `Instant::now`: it reads the monotonic clock, so nothing is
/// promised of the value it returns.
pub assume_specification[ std::time::Instant::now ]() -> std::time::Instant;

/// Logical fan profile identifier, whitelisted by each backend.
pub type ProfileId = u32;

/// One selectable fan profile.
#[derive(Debug, Clone, PartialEq, Eq)]
pub struct FanProfile {
    /// Identifier passed to the driver.
    pub id: ProfileId,
    /// Human-friendly name (e.g. "Extreme (Max)", "Balanced").
    pub name: String,
    /// Whether this profile is meant for maximum cooling.
    pub is_maximum: bool,
}

/// What a backend exposes: whether profiles can be switched at all, and which.
#[derive(Debug, Clone, PartialEq, Eq)]
pub struct FanCapabilities {
    pub supported: bool,
    pub profiles: Vec<FanProfile>,
}

impl FanCapabilities {
    /// An unsupported capability set has no profiles.
    pub open spec fn wf(&self) -> bool {
        !self.supported ==> self.profiles@.len() == 0
    }

    /// The capability set of a platform without fan control.
    pub fn unsupported() -> (r: Self)
        ensures
            !r.supported,
            r.profiles@.len() == 0,
            r.wf(),
    {
        FanCapabilities { supported: false, profiles: Vec::new() }
    }
}

/// `i` is the earliest position in `s` of a profile marked maximum.
pub open spec fn is_first_maximum(s: Seq<FanProfile>, i: int) -> bool {
    &&& 0 <= i < s.len()
    &&& s[i].is_maximum
    &&& forall|j: int| 0 <= j < i ==> !(#[trigger] s[j]).is_maximum
}

/// Some profile of `s` is marked maximum.
pub open spec fn has_maximum(s: Seq<FanProfile>) -> bool {
    exists|i: int| 0 <= i < s.len() && (#[trigger] s[i]).is_maximum
}

/// The profile that a switch to maximum cooling applies: the first one marked
/// maximum in a supported capability set, and none otherwise.
pub open spec fn max_profile_id(caps: FanCapabilities) -> Option<ProfileId> {
    if caps.supported && has_maximum(caps.profiles@) {
        Some(caps.profiles@[choose|i: int| is_first_maximum(caps.profiles@, i)].id)
    } else {
        None
    }
}

/// At most one position is the first maximum.
pub proof fn lemma_first_maximum_unique(s: Seq<FanProfile>, i: int, k: int)
    requires
        is_first_maximum(s, i),
        is_first_maximum(s, k),
    ensures
        i == k,
{
    if i < k {
        assert(!s[i].is_maximum);
    } else if k < i {
        assert(!s[k].is_maximum);
    }
}

/// Where `i` is the first maximum of a supported capability set, the
/// switch to maximum cooling selects the profile at `i`.
pub proof fn lemma_max_profile_id_at(caps: FanCapabilities, i: int)
    requires
        caps.supported,
        is_first_maximum(caps.profiles@, i),
    ensures
        max_profile_id(caps) == Some(caps.profiles@[i].id),
{
    let k = choose|k: int| is_first_maximum(caps.profiles@, k);
    lemma_first_maximum_unique(caps.profiles@, i, k);
}

/// A temperature, held in thousandths of a degree Celsius.
#[derive(Debug, Clone, Copy, PartialEq, Eq, Structural)]
pub struct Celsius {
    pub millis: i64,
}

impl Celsius {
    /// A whole number of degrees.
    pub fn from_degrees(degrees: i32) -> (r: Celsius)
        ensures
            r.millis == degrees as int * 1000,
    {
        Celsius { millis: degrees as i64 * 1000 }
    }

    /// A number of thousandths of a degree.
    pub fn from_millis(millis: i64) -> (r: Celsius)
        ensures
            r.millis == millis,
    {
        Celsius { millis }
    }
}

/// A point-in-time sensor snapshot; a field is absent where the backend
/// has no such sensor.
#[derive(Debug, Clone, Copy, PartialEq)]
pub struct FanTelemetry {
    pub rpm: Option<u32>,
    pub temperature_c: Option<Celsius>,
    pub timestamp: std::time::Instant,
}

/// Default settle time after a profile switch, in milliseconds.
pub const DEFAULT_SETTLE_TIMEOUT_MS: u64 = 1500;

/// Default minimum expected increase of the fan speed, in RPM.
pub const DEFAULT_MIN_RPM_DELTA: u32 = 500;

/// Default safety ceiling, in whole degrees Celsius.
pub const DEFAULT_MAX_SAFE_TEMP_C: i32 = 95;

/// Default measurement slack allowed by the ramp check, in RPM.
pub const DEFAULT_RPM_SLACK: u32 = 5;

/// How a switch to the maximum profile is verified.
#[derive(Debug, Clone)]
pub struct MaxFanPolicy {
    /// How long to wait after the switch before measuring again, in milliseconds.
    pub settle_timeout_ms: u64,
    /// Minimum expected RPM increase for the switch to count as effective.
    pub min_rpm_delta: Option<u32>,
    /// Highest temperature accepted after the switch.
    pub max_safe_temp_c: Option<Celsius>,
    /// Measurement slack tolerated by the ramp check, in RPM.
    pub rpm_slack: u32,
}

impl Default for MaxFanPolicy {
    fn default() -> (r: Self)
        ensures
            r.settle_timeout_ms == DEFAULT_SETTLE_TIMEOUT_MS,
            r.min_rpm_delta == Some(DEFAULT_MIN_RPM_DELTA),
            r.max_safe_temp_c is Some,
            r.max_safe_temp_c->Some_0.millis == DEFAULT_MAX_SAFE_TEMP_C * 1000,
            r.rpm_slack == DEFAULT_RPM_SLACK,
    {
        MaxFanPolicy {
            settle_timeout_ms: DEFAULT_SETTLE_TIMEOUT_MS,
            min_rpm_delta: Some(DEFAULT_MIN_RPM_DELTA),
            max_safe_temp_c: Some(Celsius::from_degrees(DEFAULT_MAX_SAFE_TEMP_C)),
            rpm_slack: DEFAULT_RPM_SLACK,
        }
    }
}

} // verus!
