use std::cell::RefCell;

use edge_optimizer::driver::{DriverError, UnsupportedDriver};
use edge_optimizer::selection::{backends_in_order, select_backend, Backend};
use edge_optimizer::model::MaxFanPolicy;

#[test]
fn fallback_reaches_third_backend() {
    let tried = RefCell::new(Vec::new());
    let r = select_backend(
        &|b: Backend| {
            tried.borrow_mut().push(b);
            match b {
                Backend::PowerPlan => Ok(UnsupportedDriver),
                _ => Err(DriverError::NotReady(format!("{:?} missing", b))),
            }
        },
        MaxFanPolicy::default(),
    );
    let (chosen, _manager) = r.ok().unwrap();
    assert_eq!(chosen, Backend::PowerPlan);
    assert_eq!(*tried.borrow(), vec![Backend::VendorRpc, Backend::VendorBios, Backend::PowerPlan]);
}

#[test]
fn fallback_stops_at_first_success() {
    let tried = RefCell::new(Vec::new());
    let r = select_backend(
        &|b: Backend| -> Result<UnsupportedDriver, DriverError> {
            tried.borrow_mut().push(b);
            Ok(UnsupportedDriver)
        },
        MaxFanPolicy::default(),
    );
    assert_eq!(r.ok().unwrap().0, Backend::VendorRpc);
    assert_eq!(*tried.borrow(), vec![Backend::VendorRpc]);
}

#[test]
fn fallback_surfaces_last_error() {
    let r = select_backend(
        &|b: Backend| -> Result<UnsupportedDriver, DriverError> {
            Err(DriverError::NotReady(format!("{:?} missing", b)))
        },
        MaxFanPolicy::default(),
    );
    assert_eq!(r.err().unwrap(), DriverError::NotReady("PowerPlan missing".to_string()));
}

#[test]
fn preference_order_is_fixed() {
    assert_eq!(backends_in_order(), vec![Backend::VendorRpc, Backend::VendorBios, Backend::PowerPlan]);
}

