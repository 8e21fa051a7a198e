//! The driver boundary: what every fan-control backend offers.
use vstd::prelude::*;

use crate::model::{max_profile_id, FanCapabilities, FanTelemetry, ProfileId};

verus! {

/// Errors surfaced by the driver boundary.
#[derive(Debug, Clone, PartialEq, Eq)]
pub enum DriverError {
    /// The backend is not initialised, or a platform prerequisite is missing.
    NotReady(String),
    /// The operation, or this input to it, is not offered.
    Unsupported(String),
    /// Transport failure talking to the underlying mechanism.
    Io(String),
    /// The mechanism answered, but with a failure or an unsafe outcome.
    Internal(String),
}

/// What every fan-control backend offers.
pub trait FanDriver {
    /// Where the driver always declares the same capabilities, the profile
    /// that a switch to maximum cooling selects from them (`Some(None)`
    /// where none is selected); `None` where the driver promises nothing.
    open spec fn fixed_max_profile(&self) -> Option<Option<ProfileId>> {
        None
    }

    /// The fan capabilities of the current platform; does not change device state.
    fn capabilities(&self) -> (r: Result<FanCapabilities, DriverError>)
        ensures
            self.fixed_max_profile() matches Some(choice) ==> r is Ok && max_profile_id(r->Ok_0) == choice,
    ;

    /// The active profile, or `None` where the backend cannot read it back.
    fn current_profile(&self) -> Result<Option<ProfileId>, DriverError>;

    /// Requests a switch to `profile`; an id the backend does not know is
    /// refused with `Unsupported`.
    fn set_profile(&self, profile: ProfileId) -> Result<(), DriverError>;

    /// A sensor snapshot; `Unsupported` where the backend has no sensor path.
    fn telemetry(&self) -> Result<FanTelemetry, DriverError>;
}

/// A no-op driver for platforms without support; allows graceful degradation.
pub struct UnsupportedDriver;

impl FanDriver for UnsupportedDriver {
    open spec fn fixed_max_profile(&self) -> Option<Option<ProfileId>> {
        Some(None)
    }

    fn capabilities(&self) -> (r: Result<FanCapabilities, DriverError>)
        ensures
            r is Ok,
            !r->Ok_0.supported,
            r->Ok_0.profiles@.len() == 0,
    {
        Ok(FanCapabilities::unsupported())
    }

    fn current_profile(&self) -> (r: Result<Option<ProfileId>, DriverError>)
        ensures
            r == Ok::<Option<ProfileId>, DriverError>(None),
    {
        Ok(None)
    }

    fn set_profile(&self, _profile: ProfileId) -> (r: Result<(), DriverError>)
        ensures
            r is Err,
            r->Err_0 is Unsupported,
    {
        Err(DriverError::Unsupported("fan profiles not exposed".to_owned()))
    }

    fn telemetry(&self) -> (r: Result<FanTelemetry, DriverError>)
        ensures
            r is Err,
            r->Err_0 is Unsupported,
    {
        Err(DriverError::Unsupported("telemetry not exposed".to_owned()))
    }
}

/// The no-op driver declares, as a fixed property of its capabilities,
/// that they never yield a profile to switch to.
pub proof fn law_unsupported_driver_selects_nothing(d: UnsupportedDriver)
    ensures
        d.fixed_max_profile() == Some(None::<ProfileId>),
{
}

} // verus!
