//! Fallback backend for systems without direct thermal control: fan profiles
//! stand for the operating system's power plans.
use vstd::prelude::*;

use crate::driver::{DriverError, FanDriver};
use crate::model::{is_first_maximum, lemma_max_profile_id_at, FanCapabilities, FanProfile, FanTelemetry, ProfileId};

verus! {

/// Power scheme of the Balanced plan.
pub const BALANCED_SCHEME: &'static str = "381b4222-f694-41f0-9685-ff5bb260df2e";

/// Power scheme of the High Performance plan.
pub const HIGH_PERFORMANCE_SCHEME: &'static str = "8c5e7fda-e8bf-4a96-9a85-a6e23a8c635c";

/// Power scheme of the Power Saver plan.
pub const POWER_SAVER_SCHEME: &'static str = "a1841308-3541-4fab-bc81-f71556f20b4a";

/// Activates power schemes. Running the system's power configuration tool
/// happens outside this library.
pub trait PowerSchemeControl {
    /// Makes the scheme with identifier `guid` the active one.
    fn set_active_scheme(&self, guid: &str) -> Result<(), DriverError>;
}

/// The power scheme that stands for `profile`: 0 is Balanced, 1 High
/// Performance, 2 Power Saver; other profiles are unknown.
pub fn scheme_for_profile(profile: ProfileId) -> (r: Option<&'static str>)
    ensures
        profile == 0 ==> r == Some(BALANCED_SCHEME),
        profile == 1 ==> r == Some(HIGH_PERFORMANCE_SCHEME),
        profile == 2 ==> r == Some(POWER_SAVER_SCHEME),
        r is None <==> profile > 2,
{
    match profile {
        0 => Some(BALANCED_SCHEME),
        1 => Some(HIGH_PERFORMANCE_SCHEME),
        2 => Some(POWER_SAVER_SCHEME),
        _ => None,
    }
}

/// The outcome of one run of the power configuration tool: success where it
/// exited successfully, else an `Internal` error carrying what it reported.
pub fn scheme_switch_outcome(succeeded: bool, report: String) -> (r: Result<(), DriverError>)
    ensures
        r is Ok <==> succeeded,
        r matches Err(e) ==> e == DriverError::Internal(report),
{
    if succeeded {
        Ok(())
    } else {
        Err(DriverError::Internal(report))
    }
}

/// Driver that maps fan profiles to power plans: Balanced (default), High
/// Performance (maximum) and Power Saver (quiet).
pub struct WindowsPowerPlanDriver<P: PowerSchemeControl> {
    schemes: P,
}

impl<P: PowerSchemeControl> WindowsPowerPlanDriver<P> {
    /// The control this driver activates schemes through.
    pub closed spec fn schemes_spec(&self) -> P {
        self.schemes
    }

    pub fn new(schemes: P) -> (r: Self)
        ensures
            r.schemes_spec() == schemes,
    {
        WindowsPowerPlanDriver { schemes }
    }
}

impl<P: PowerSchemeControl> FanDriver for WindowsPowerPlanDriver<P> {
    open spec fn fixed_max_profile(&self) -> Option<Option<ProfileId>> {
        Some(Some(1))
    }

    fn capabilities(&self) -> (r: Result<FanCapabilities, DriverError>)
        ensures
            r is Ok,
            r->Ok_0.supported,
            r->Ok_0.profiles@.len() == 3,
            r->Ok_0.profiles@[0].id == 0,
            r->Ok_0.profiles@[0].name@ == "Balanced (Default)"@,
            !r->Ok_0.profiles@[0].is_maximum,
            r->Ok_0.profiles@[1].id == 1,
            r->Ok_0.profiles@[1].name@ == "High Performance (Max)"@,
            r->Ok_0.profiles@[1].is_maximum,
            r->Ok_0.profiles@[2].id == 2,
            r->Ok_0.profiles@[2].name@ == "Power Saver (Quiet)"@,
            !r->Ok_0.profiles@[2].is_maximum,
    {
        proof {
            reveal_strlit("Balanced (Default)");
            reveal_strlit("High Performance (Max)");
            reveal_strlit("Power Saver (Quiet)");
        }
        let caps = FanCapabilities {
            supported: true,
            profiles: vec![
                FanProfile { id: 0, name: "Balanced (Default)".to_owned(), is_maximum: false },
                FanProfile { id: 1, name: "High Performance (Max)".to_owned(), is_maximum: true },
                FanProfile { id: 2, name: "Power Saver (Quiet)".to_owned(), is_maximum: false },
            ],
        };
        proof {
            assert(is_first_maximum(caps.profiles@, 1));
            lemma_max_profile_id_at(caps, 1);
        }
        Ok(caps)
    }

    fn current_profile(&self) -> (r: Result<Option<ProfileId>, DriverError>)
        ensures
            r == Ok::<Option<ProfileId>, DriverError>(None),
    {
        Ok(None)
    }

    fn set_profile(&self, profile: ProfileId) -> (r: Result<(), DriverError>)
        ensures
            profile > 2 ==> r is Err && r->Err_0 is Unsupported,
            profile == 0 ==> call_ensures(P::set_active_scheme, (&self.schemes_spec(), BALANCED_SCHEME), r),
            profile == 1 ==> call_ensures(P::set_active_scheme, (&self.schemes_spec(), HIGH_PERFORMANCE_SCHEME), r),
            profile == 2 ==> call_ensures(P::set_active_scheme, (&self.schemes_spec(), POWER_SAVER_SCHEME), r),
    {
        assert(self.schemes_spec() == self.schemes);
        match scheme_for_profile(profile) {
            Some(guid) => self.schemes.set_active_scheme(guid),
            None => Err(DriverError::Unsupported("unknown power plan profile".to_owned())),
        }
    }

    fn telemetry(&self) -> (r: Result<FanTelemetry, DriverError>)
        ensures
            r is Err,
            r->Err_0 is Unsupported,
    {
        Err(DriverError::Unsupported("telemetry not available via power plans".to_owned()))
    }
}

} // verus!
