//! Backend selection: try each backend's constructor in a fixed preference
//! order and keep the first that succeeds.
use vstd::prelude::*;

use crate::driver::{DriverError, FanDriver};
use crate::manager::FanManager;
use crate::model::MaxFanPolicy;

verus! {

/// The kinds of fan-control backend, richest first.
#[derive(Debug, Clone, Copy, PartialEq, Eq, Structural)]
pub enum Backend {
    /// Vendor RPC through a dynamically loaded library.
    VendorRpc,
    /// Vendor BIOS calls through WMI.
    VendorBios,
    /// The operating system's power plans.
    PowerPlan,
}

/// The fixed preference order of the backends.
pub open spec fn preference_order() -> Seq<Backend> {
    seq![Backend::VendorRpc, Backend::VendorBios, Backend::PowerPlan]
}

/// The backends in preference order.
pub fn backends_in_order() -> (r: Vec<Backend>)
    ensures
        r@ == preference_order(),
{
    let r = vec![Backend::VendorRpc, Backend::VendorBios, Backend::PowerPlan];
    assert(r@ =~= preference_order());
    r
}

/// The constructor of `b` can fail.
pub open spec fn may_fail<D, F: Fn(Backend) -> Result<D, DriverError>>(construct: F, b: Backend) -> bool {
    exists|e: DriverError| construct.ensures((b,), Err::<D, DriverError>(e))
}

/// The constructor of `b` never builds a driver.
pub open spec fn never_builds<D, F: Fn(Backend) -> Result<D, DriverError>>(construct: F, b: Backend) -> bool {
    forall|x: Result<D, DriverError>| #[trigger] construct.ensures((b,), x) ==> x is Err
}

/// The constructor of `b` always builds a driver.
pub open spec fn always_builds<D, F: Fn(Backend) -> Result<D, DriverError>>(construct: F, b: Backend) -> bool {
    forall|x: Result<D, DriverError>| #[trigger] construct.ensures((b,), x) ==> x is Ok
}

/// Tries the constructor of each backend in preference order and wraps the
/// first driver built in a manager with `policy`. A constructor is called
/// only after all earlier ones failed. Where every one fails, the last
/// error is returned.
pub fn select_backend<D: FanDriver, F: Fn(Backend) -> Result<D, DriverError>>(
    construct: &F,
    policy: MaxFanPolicy,
) -> (r: Result<(Backend, FanManager<D>), DriverError>)
    requires
        forall|b: Backend| construct.requires((b,)),
    ensures
        r matches Ok((b, m)) ==> {
            &&& m.policy_spec() == policy
            &&& construct.ensures((b,), Ok::<D, DriverError>(m.driver_spec()))
            &&& exists|k: int|
                0 <= k < preference_order().len() && preference_order()[k] == b && forall|j: int|
                    0 <= j < k ==> may_fail(*construct, #[trigger] preference_order()[j])
        },
        r matches Err(e) ==> {
            &&& construct.ensures((Backend::PowerPlan,), Err::<D, DriverError>(e))
            &&& forall|j: int| 0 <= j < preference_order().len() ==> may_fail(*construct, #[trigger] preference_order()[j])
        },
        forall|k: int|
            0 <= k < preference_order().len() && (forall|j: int|
                0 <= j < k ==> never_builds(*construct, #[trigger] preference_order()[j])) && always_builds(
                *construct,
                #[trigger] preference_order()[k],
            ) ==> r is Ok && r->Ok_0.0 == preference_order()[k],
{
    let order = backends_in_order();
    let mut last: Option<DriverError> = None;
    let mut i: usize = 0;
    while i < order.len()
        invariant
            order@ == preference_order(),
            i <= order@.len(),
            forall|b: Backend| construct.requires((b,)),
            forall|j: int| 0 <= j < i ==> may_fail(*construct, #[trigger] order@[j]),
            i > 0 ==> last is Some && construct.ensures((order@[i - 1],), Err::<D, DriverError>(last->Some_0)),
        decreases order@.len() - i,
    {
        let b = order[i];
        match construct(b) {
            Ok(driver) => {
                let m = FanManager::new(driver, policy);
                assert(preference_order()[i as int] == b);
                assert forall|k: int|
                    0 <= k < preference_order().len() && (forall|j: int|
                        0 <= j < k ==> never_builds(*construct, #[trigger] preference_order()[j])) && always_builds(
                        *construct,
                        #[trigger] preference_order()[k],
                    ) implies k == i by {
                    if k < i {
                        assert(may_fail(*construct, order@[k]));
                        let e = choose|e: DriverError| construct.ensures((order@[k],), Err::<D, DriverError>(e));
                        assert(construct.ensures((order@[k],), Err::<D, DriverError>(e)));
                    } else if k > i {
                        assert(never_builds(*construct, preference_order()[i as int]));
                    }
                }
                return Ok((b, m));
            },
            Err(e) => {
                assert(construct.ensures((b,), Err::<D, DriverError>(e)));
                last = Some(e);
            },
        }
        i = i + 1;
    }
    assert forall|k: int| 0 <= k < preference_order().len() implies !always_builds(
        *construct,
        #[trigger] preference_order()[k],
    ) by {
        assert(may_fail(*construct, order@[k]));
        let e = choose|e: DriverError| construct.ensures((order@[k],), Err::<D, DriverError>(e));
        assert(construct.ensures((order@[k],), Err::<D, DriverError>(e)));
    }
    match last {
        Some(e) => Err(e),
        None => Err(DriverError::NotReady("no backend to try".to_owned())),
    }
}

} // verus!
