//! The orchestration core: pick the maximum-cooling profile, apply it, and
//! check the outcome against the policy with before/after telemetry.
use vstd::prelude::*;

use crate::driver::{DriverError, FanDriver};
use crate::model::{
    has_maximum, is_first_maximum, lemma_max_profile_id_at, max_profile_id, FanCapabilities, FanProfile,
    FanTelemetry, MaxFanPolicy, ProfileId, DEFAULT_RPM_SLACK,
};

verus! {

/// The ramp check fails: the policy asks for a minimum RPM increase, both
/// captures have a reading, and the fan did not speed up by that much, up to
/// the policy's slack.
pub open spec fn ramp_failed(policy: MaxFanPolicy, before: FanTelemetry, after: FanTelemetry) -> bool {
    match (policy.min_rpm_delta, before.rpm, after.rpm) {
        (Some(delta), Some(rpm_before), Some(rpm_after)) =>
            rpm_after + policy.rpm_slack < rpm_before + delta,
        _ => false,
    }
}

/// The temperature check fails: the policy has a ceiling and the capture
/// after the switch reports a temperature above it.
pub open spec fn overheated(policy: MaxFanPolicy, after: FanTelemetry) -> bool {
    match (policy.max_safe_temp_c, after.temperature_c) {
        (Some(limit), Some(t)) => t.millis > limit.millis,
        _ => false,
    }
}

/// The outcome of a switch is accepted: verification runs only where both
/// captures succeeded, and then neither check fails.
pub open spec fn settle_accepted(
    policy: MaxFanPolicy,
    before: Option<FanTelemetry>,
    after: Option<FanTelemetry>,
) -> bool {
    match (before, after) {
        (Some(b), Some(a)) => !ramp_failed(policy, b, a) && !overheated(policy, a),
        _ => true,
    }
}

/// The first profile marked maximum, in declared order.
pub fn select_max_profile(caps: &FanCapabilities) -> (r: Option<&FanProfile>)
    ensures
        r is None <==> !has_maximum(caps.profiles@),
        r matches Some(p) ==> exists|i: int| is_first_maximum(caps.profiles@, i) && *p == caps.profiles@[i],
{
    let mut i: usize = 0;
    while i < caps.profiles.len()
        invariant
            i <= caps.profiles@.len(),
            forall|j: int| 0 <= j < i ==> !(#[trigger] caps.profiles@[j]).is_maximum,
        decreases caps.profiles@.len() - i,
    {
        if caps.profiles[i].is_maximum {
            assert(is_first_maximum(caps.profiles@, i as int));
            return Some(&caps.profiles[i]);
        }
        i = i + 1;
    }
    None
}

/// The profile a switch to maximum cooling applies: the capability set must
/// be supported and declare a maximum profile; the first one is chosen.
pub fn choose_max_profile(caps: &FanCapabilities) -> (r: Result<ProfileId, DriverError>)
    ensures
        r is Ok <==> max_profile_id(*caps) is Some,
        r matches Ok(id) ==> max_profile_id(*caps) == Some(id),
        r matches Err(e) ==> e is Unsupported,
{
    if !caps.supported {
        return Err(DriverError::Unsupported("fan profiles not supported on this platform".to_owned()));
    }
    match select_max_profile(caps) {
        None => Err(DriverError::Unsupported("no maximum profile declared".to_owned())),
        Some(profile) => {
            proof {
                let i = choose|i: int| is_first_maximum(caps.profiles@, i) && *profile == caps.profiles@[i];
                lemma_max_profile_id_at(*caps, i);
            }
            Ok(profile.id)
        }
    }
}

/// Checks the captures taken around a switch against the policy.
/// Verification runs only where both captures succeeded; a failed check is
/// an `Internal` error, as the switch itself was already requested.
pub fn verify_settled(
    policy: &MaxFanPolicy,
    before: &Option<FanTelemetry>,
    after: &Option<FanTelemetry>,
) -> (r: Result<(), DriverError>)
    ensures
        r is Ok <==> settle_accepted(*policy, *before, *after),
        r matches Err(e) ==> e is Internal,
{
    if let (Some(before), Some(after)) = (before, after) {
        if let Some(min_delta) = policy.min_rpm_delta {
            if let (Some(rpm_before), Some(rpm_after)) = (before.rpm, after.rpm) {
                if (rpm_after as u64) + (policy.rpm_slack as u64) < (rpm_before as u64) + (min_delta as u64) {
                    return Err(DriverError::Internal("fan did not ramp to expected max".to_owned()));
                }
            }
        }
        if let Some(max_temp) = policy.max_safe_temp_c {
            if let Some(temp) = after.temperature_c {
                if temp.millis > max_temp.millis {
                    return Err(DriverError::Internal(
                        "temperature exceeded safety threshold after profile change".to_owned(),
                    ));
                }
            }
        }
    }
    Ok(())
}

/// Orchestrates a switch to maximum cooling on one driver, under one policy.
pub struct FanManager<D: FanDriver> {
    driver: D,
    policy: MaxFanPolicy,
}

impl<D: FanDriver> FanManager<D> {
    /// The driver that this manager owns.
    pub closed spec fn driver_spec(&self) -> D {
        self.driver
    }

    /// The policy that this manager applies.
    pub closed spec fn policy_spec(&self) -> MaxFanPolicy {
        self.policy
    }

    pub fn new(driver: D, policy: MaxFanPolicy) -> (r: Self)
        ensures
            r.driver_spec() == driver,
            r.policy_spec() == policy,
    {
        FanManager { driver, policy }
    }

    /// Switches to the first profile marked maximum and returns its id.
    ///
    /// The capabilities must be supported and declare a maximum profile,
    /// else the call fails with `Unsupported` before any telemetry read or
    /// profile request. Telemetry is captured before the switch and again
    /// after `settle` has waited for the policy's settle time; both reads
    /// are best effort. An error of the driver's capabilities or of the
    /// switch is returned unchanged; a failed check of the two captures is
    /// `Internal`.
    pub fn set_max_profile<W: Fn(u64)>(&self, settle: &W) -> (r: Result<ProfileId, DriverError>)
        requires
            settle.requires((self.policy_spec().settle_timeout_ms,)),
        ensures
            r matches Ok(id) ==> {
                &&& exists|caps: FanCapabilities|
                    #[trigger] call_ensures(D::capabilities, (&self.driver_spec(),), Ok::<FanCapabilities, DriverError>(caps))
                        && max_profile_id(caps) == Some(id)
                &&& call_ensures(D::set_profile, (&self.driver_spec(), id), Ok::<(), DriverError>(()))
                &&& exists|before: Option<FanTelemetry>, after: Option<FanTelemetry>|
                    possible_capture(self.driver_spec(), before) && possible_capture(self.driver_spec(), after)
                        && #[trigger] settle_accepted(self.policy_spec(), before, after)
            },
            r matches Err(e) ==> {
                ||| e is Unsupported
                ||| e is Internal
                ||| call_ensures(D::capabilities, (&self.driver_spec(),), Err::<FanCapabilities, DriverError>(e))
                ||| exists|id: ProfileId|
                    #[trigger] call_ensures(D::set_profile, (&self.driver_spec(), id), Err::<(), DriverError>(e))
            },
            forall|e0: DriverError|
                capabilities_always(self.driver_spec(), Err::<FanCapabilities, DriverError>(e0))
                    ==> r == Err::<ProfileId, DriverError>(e0),
            forall|id0: ProfileId, e0: DriverError|
                selects_always(self.driver_spec(), id0)
                    && switch_always(self.driver_spec(), id0, Err::<(), DriverError>(e0))
                    ==> r == Err::<ProfileId, DriverError>(e0),
            forall|id0: ProfileId|
                selects_always(self.driver_spec(), id0)
                    && switch_always(self.driver_spec(), id0, Ok::<(), DriverError>(()))
                    && captures_accepted(self.driver_spec(), self.policy_spec())
                    ==> r == Ok::<ProfileId, DriverError>(id0),
            forall|id0: ProfileId|
                selects_always(self.driver_spec(), id0)
                    && switch_always(self.driver_spec(), id0, Ok::<(), DriverError>(()))
                    && captures_refused(self.driver_spec(), self.policy_spec())
                    ==> r is Err && r->Err_0 is Internal,
            self.driver_spec().fixed_max_profile() matches Some(choice) ==> {
                &&& choice is None ==> r is Err && r->Err_0 is Unsupported
                &&& r matches Ok(id) ==> choice == Some(id)
            },
    {
        let queried = self.driver.capabilities();
        let caps = match queried {
            Ok(caps) => caps,
            Err(e) => return Err(e),
        };
        assert(call_ensures(D::capabilities, (&self.driver,), Ok::<FanCapabilities, DriverError>(caps)));
        let id = match choose_max_profile(&caps) {
            Ok(id) => id,
            Err(e) => return Err(e),
        };
        let before = match self.driver.telemetry() {
            Ok(t) => Some(t),
            Err(e) => None,
        };
        assert(possible_capture(self.driver, before));
        let switched = self.driver.set_profile(id);
        assert(call_ensures(D::set_profile, (&self.driver, id), switched));
        match switched {
            Ok(()) => {
                assert(switched->Ok_0 == ());
                assert(switched == Ok::<(), DriverError>(()));
            },
            Err(e) => return Err(e),
        }
        assert(call_ensures(D::set_profile, (&self.driver, id), Ok::<(), DriverError>(())));
        settle(self.policy.settle_timeout_ms);
        let after = match self.driver.telemetry() {
            Ok(t) => Some(t),
            Err(e) => None,
        };
        assert(possible_capture(self.driver, after));
        match verify_settled(&self.policy, &before, &after) {
            Ok(()) => {
                assert(settle_accepted(self.policy, before, after));
                Ok(id)
            },
            Err(e) => Err(e),
        }
    }

    /// The driver's capabilities, unchanged.
    pub fn capabilities(&self) -> (r: Result<FanCapabilities, DriverError>)
        ensures
            call_ensures(D::capabilities, (&self.driver_spec(),), r),
            self.driver_spec().fixed_max_profile() matches Some(choice) ==> r is Ok && max_profile_id(r->Ok_0)
                == choice,
    {
        self.driver.capabilities()
    }

    /// The driver's telemetry, unchanged.
    pub fn telemetry(&self) -> (r: Result<FanTelemetry, DriverError>)
        ensures
            call_ensures(D::telemetry, (&self.driver_spec(),), r),
    {
        self.driver.telemetry()
    }
}

/// `t` is what one capture through `driver` can give: a snapshot the driver
/// can return, or nothing where its telemetry can fail.
pub open spec fn possible_capture<D: FanDriver>(driver: D, t: Option<FanTelemetry>) -> bool {
    match t {
        Some(x) => call_ensures(D::telemetry, (&driver,), Ok::<FanTelemetry, DriverError>(x)),
        None => exists|e: DriverError| call_ensures(D::telemetry, (&driver,), Err::<FanTelemetry, DriverError>(e)),
    }
}

/// Every capabilities query of `driver` gives `c`.
pub open spec fn capabilities_always<D: FanDriver>(driver: D, c: Result<FanCapabilities, DriverError>) -> bool {
    forall|x: Result<FanCapabilities, DriverError>| #[trigger] call_ensures(D::capabilities, (&driver,), x) ==> x == c
}

/// Every capabilities query of `driver` succeeds, and the switch to maximum
/// cooling selects `id` from what it gives.
pub open spec fn selects_always<D: FanDriver>(driver: D, id: ProfileId) -> bool {
    forall|x: Result<FanCapabilities, DriverError>|
        #[trigger] call_ensures(D::capabilities, (&driver,), x) ==> x is Ok && max_profile_id(x->Ok_0) == Some(id)
}

/// Every request of `driver` to switch to `id` gives `s`.
pub open spec fn switch_always<D: FanDriver>(driver: D, id: ProfileId, s: Result<(), DriverError>) -> bool {
    forall|x: Result<(), DriverError>| #[trigger] call_ensures(D::set_profile, (&driver, id), x) ==> x == s
}

/// Whatever two captures `driver` gives, the outcome is accepted under `policy`.
pub open spec fn captures_accepted<D: FanDriver>(driver: D, policy: MaxFanPolicy) -> bool {
    forall|before: Option<FanTelemetry>, after: Option<FanTelemetry>|
        possible_capture(driver, before) && possible_capture(driver, after) ==> #[trigger] settle_accepted(
            policy,
            before,
            after,
        )
}

/// Whatever two captures `driver` gives, the outcome is refused under `policy`.
pub open spec fn captures_refused<D: FanDriver>(driver: D, policy: MaxFanPolicy) -> bool {
    forall|before: Option<FanTelemetry>, after: Option<FanTelemetry>|
        possible_capture(driver, before) && possible_capture(driver, after) ==> !#[trigger] settle_accepted(
            policy,
            before,
            after,
        )
}

/// The telemetry of `driver` never fails.
pub open spec fn always_senses<D: FanDriver>(driver: D) -> bool {
    forall|x: Result<FanTelemetry, DriverError>| #[trigger] call_ensures(D::telemetry, (&driver,), x) ==> x is Ok
}

/// A capability set that declares no maximum profile never yields a profile
/// to apply, so no switch is requested from it.
pub proof fn law_no_maximum_selects_nothing(caps: FanCapabilities)
    requires
        forall|i: int| 0 <= i < caps.profiles@.len() ==> !(#[trigger] caps.profiles@[i]).is_maximum,
    ensures
        max_profile_id(caps) is None,
{
}

/// An unsupported capability set never yields a profile to apply, whatever
/// profiles it lists.
pub proof fn law_unsupported_selects_nothing(caps: FanCapabilities)
    requires
        !caps.supported,
    ensures
        max_profile_id(caps) is None,
{
}

/// Where both captures succeed and report RPM readings, and the speed after
/// the switch falls short of the speed before plus the required increase by
/// more than the slack, the outcome is refused.
pub proof fn law_missing_ramp_is_refused(
    policy: MaxFanPolicy,
    before: FanTelemetry,
    after: FanTelemetry,
    delta: u32,
    rpm_before: u32,
    rpm_after: u32,
)
    requires
        policy.min_rpm_delta == Some(delta),
        before.rpm == Some(rpm_before),
        after.rpm == Some(rpm_after),
        rpm_after + policy.rpm_slack < rpm_before + delta,
    ensures
        !settle_accepted(policy, Some(before), Some(after)),
{
}

/// Where either capture failed, the outcome is accepted: verification is
/// optional.
pub proof fn law_missing_telemetry_is_accepted(
    policy: MaxFanPolicy,
    before: Option<FanTelemetry>,
    after: Option<FanTelemetry>,
)
    requires
        before is None || after is None,
    ensures
        settle_accepted(policy, before, after),
{
}

/// Where the capture after the switch reports a temperature above the
/// policy's ceiling, the outcome is refused, whatever the RPM readings.
pub proof fn law_overheating_is_refused(policy: MaxFanPolicy, before: FanTelemetry, after: FanTelemetry)
    requires
        policy.max_safe_temp_c is Some,
        after.temperature_c is Some,
        after.temperature_c->Some_0.millis > policy.max_safe_temp_c->Some_0.millis,
    ensures
        !settle_accepted(policy, Some(before), Some(after)),
{
}

/// A driver whose captures always report RPM readings, where the speed of
/// any capture falls short of that of any other plus the required increase
/// by more than the default slack of five RPM, has every switch refused:
/// with a profile selected and its switch accepted, `set_max_profile` fails
/// with `Internal`.
pub proof fn law_driver_without_ramp_is_refused<D: FanDriver>(driver: D, policy: MaxFanPolicy, delta: u32)
    requires
        always_senses(driver),
        policy.min_rpm_delta == Some(delta),
        policy.rpm_slack == DEFAULT_RPM_SLACK,
        forall|b: FanTelemetry, a: FanTelemetry|
            #![trigger call_ensures(D::telemetry, (&driver,), Ok::<FanTelemetry, DriverError>(b)), call_ensures(D::telemetry, (&driver,), Ok::<FanTelemetry, DriverError>(a))]
            call_ensures(D::telemetry, (&driver,), Ok::<FanTelemetry, DriverError>(b)) && call_ensures(
                D::telemetry,
                (&driver,),
                Ok::<FanTelemetry, DriverError>(a),
            ) ==> b.rpm is Some && a.rpm is Some && a.rpm->Some_0 + 5 < b.rpm->Some_0 + delta,
    ensures
        captures_refused(driver, policy),
{
    assert forall|before: Option<FanTelemetry>, after: Option<FanTelemetry>|
        possible_capture(driver, before) && possible_capture(driver, after) implies !#[trigger] settle_accepted(
            policy,
            before,
            after,
        ) by {
        if before is None {
            let e = choose|e: DriverError| call_ensures(D::telemetry, (&driver,), Err::<FanTelemetry, DriverError>(e));
            assert(call_ensures(D::telemetry, (&driver,), Err::<FanTelemetry, DriverError>(e)));
        }
        if after is None {
            let e = choose|e: DriverError| call_ensures(D::telemetry, (&driver,), Err::<FanTelemetry, DriverError>(e));
            assert(call_ensures(D::telemetry, (&driver,), Err::<FanTelemetry, DriverError>(e)));
        }
    }
}

/// A driver whose telemetry always fails has every switch accepted:
/// verification is optional, so with a profile selected and its switch
/// accepted, `set_max_profile` returns that profile.
pub proof fn law_driver_without_telemetry_is_accepted<D: FanDriver>(driver: D, policy: MaxFanPolicy)
    requires
        forall|x: Result<FanTelemetry, DriverError>| #[trigger] call_ensures(D::telemetry, (&driver,), x) ==> x is Err,
    ensures
        captures_accepted(driver, policy),
{
    assert forall|before: Option<FanTelemetry>, after: Option<FanTelemetry>|
        possible_capture(driver, before) && possible_capture(driver, after) implies #[trigger] settle_accepted(
            policy,
            before,
            after,
        ) by {
        if let Some(b) = before {
            assert(call_ensures(D::telemetry, (&driver,), Ok::<FanTelemetry, DriverError>(b)));
        }
    }
}

/// A driver whose captures always succeed and report a temperature above
/// the policy's ceiling has every switch refused, whatever its RPM
/// readings: with a profile selected and its switch accepted,
/// `set_max_profile` fails with `Internal`.
pub proof fn law_overheating_driver_is_refused<D: FanDriver>(driver: D, policy: MaxFanPolicy)
    requires
        always_senses(driver),
        policy.max_safe_temp_c is Some,
        forall|a: FanTelemetry|
            #[trigger] call_ensures(D::telemetry, (&driver,), Ok::<FanTelemetry, DriverError>(a))
                ==> a.temperature_c is Some && a.temperature_c->Some_0.millis > policy.max_safe_temp_c->Some_0.millis,
    ensures
        captures_refused(driver, policy),
{
    assert forall|before: Option<FanTelemetry>, after: Option<FanTelemetry>|
        possible_capture(driver, before) && possible_capture(driver, after) implies !#[trigger] settle_accepted(
            policy,
            before,
            after,
        ) by {
        if before is None {
            let e = choose|e: DriverError| call_ensures(D::telemetry, (&driver,), Err::<FanTelemetry, DriverError>(e));
            assert(call_ensures(D::telemetry, (&driver,), Err::<FanTelemetry, DriverError>(e)));
        }
        if after is None {
            let e = choose|e: DriverError| call_ensures(D::telemetry, (&driver,), Err::<FanTelemetry, DriverError>(e));
            assert(call_ensures(D::telemetry, (&driver,), Err::<FanTelemetry, DriverError>(e)));
        }
    }
}

} // verus!
