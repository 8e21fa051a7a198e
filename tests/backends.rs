use std::cell::RefCell;
use std::rc::Rc;

use edge_optimizer::driver::{DriverError, FanDriver};
use edge_optimizer::hp::{
    get_profile_symbols, library_paths, rpc_status, set_profile_symbols, telemetry_from, HpDriverError,
    HpOmenDriver, HpThermalProfile, NativeRpcLibrary,
};
use edge_optimizer::hp_wmi::{fan_control_data, BiosChannel, HpWmiDriver, HP_FAN_CONTROL_COMMAND_TYPE};
use edge_optimizer::manager::FanManager;
use edge_optimizer::model::{Celsius, MaxFanPolicy};
use edge_optimizer::windows_power::{
    scheme_for_profile, scheme_switch_outcome, PowerSchemeControl, WindowsPowerPlanDriver, BALANCED_SCHEME,
    HIGH_PERFORMANCE_SCHEME, POWER_SAVER_SCHEME,
};

struct FakeLibrary {
    exports: Vec<(&'static str, i32)>,
    calls: Rc<RefCell<Vec<(String, Option<u32>)>>>,
}

impl FakeLibrary {
    fn new(exports: Vec<(&'static str, i32)>) -> Self {
        FakeLibrary { exports, calls: Rc::new(RefCell::new(Vec::new())) }
    }

    fn answer(&self, symbol: &str) -> Option<i32> {
        self.exports.iter().find(|(name, _)| *name == symbol).map(|(_, v)| *v)
    }
}

impl NativeRpcLibrary for FakeLibrary {
    fn call_with_u32(&self, symbol: &str, arg: u32) -> Option<i32> {
        let r = self.answer(symbol);
        if r.is_some() {
            self.calls.borrow_mut().push((symbol.to_string(), Some(arg)));
        }
        r
    }

    fn call(&self, symbol: &str) -> Option<i32> {
        let r = self.answer(symbol);
        if r.is_some() {
            self.calls.borrow_mut().push((symbol.to_string(), None));
        }
        r
    }
}

type CallLog = Rc<RefCell<Vec<(String, Option<u32>)>>>;

fn omen(exports: Vec<(&'static str, i32)>) -> (HpOmenDriver<FakeLibrary>, CallLog) {
    let fake = FakeLibrary::new(exports);
    let log = fake.calls.clone();
    let lib = RefCell::new(Some(fake));
    let d = HpOmenDriver::new(&|_p: &'static str| lib.borrow_mut().take()).ok().unwrap();
    (d, log)
}

#[test]
fn hp_profile_ids_and_names() {
    let all = HpThermalProfile::all_profiles();
    let expected = [
        (0, "Default", false),
        (1, "Performance", false),
        (2, "Cool", false),
        (3, "Quiet", false),
        (4, "Extreme (Max)", true),
    ];
    assert_eq!(all.len(), 5);
    for (p, (id, name, max)) in all.iter().zip(expected.iter()) {
        assert_eq!(p.id, *id);
        assert_eq!(p.name, *name);
        assert_eq!(p.is_maximum, *max);
    }
    assert_eq!(HpThermalProfile::Extreme.to_profile_id(), 4);
    assert_eq!(HpThermalProfile::Quiet.to_fan_profile().name, "Quiet");
    assert_eq!(HpThermalProfile::from_profile_id(2), Some(HpThermalProfile::Cool));
    assert_eq!(HpThermalProfile::from_profile_id(5), None);
}

#[test]
fn hp_error_maps_to_driver_error() {
    assert_eq!(DriverError::from(HpDriverError::DllNotFound("a".to_string())), DriverError::NotReady("a".to_string()));
    assert_eq!(
        DriverError::from(HpDriverError::FunctionNotFound("b".to_string())),
        DriverError::Unsupported("b".to_string())
    );
    assert_eq!(DriverError::from(HpDriverError::RpcFailed("c".to_string())), DriverError::Internal("c".to_string()));
}

#[test]
fn hp_library_paths_tried_in_order() {
    let tried = RefCell::new(Vec::new());
    let r = HpOmenDriver::new(&|p: &'static str| {
        tried.borrow_mut().push(p);
        if tried.borrow().len() == 3 {
            Some(FakeLibrary::new(vec![]))
        } else {
            None
        }
    });
    assert!(r.is_ok());
    let paths = library_paths();
    assert_eq!(*tried.borrow(), paths[..3].to_vec());
    assert_eq!(paths[0], "NativeRpcClient.dll");
}

#[test]
fn hp_library_missing_is_dll_not_found() {
    let tried = RefCell::new(0);
    let r = HpOmenDriver::<FakeLibrary>::new(&|_p: &'static str| {
        *tried.borrow_mut() += 1;
        None
    });
    assert!(matches!(r, Err(HpDriverError::DllNotFound(_))));
    assert_eq!(*tried.borrow(), 4);
}

#[test]
fn hp_capabilities_list_all_profiles() {
    let caps = omen(vec![]).0.capabilities().unwrap();
    assert!(caps.supported);
    assert_eq!(caps.profiles, HpThermalProfile::all_profiles());
}

#[test]
fn hp_set_profile_uses_first_available_export() {
    let (d, log) = omen(vec![("SetFanProfile", 0), ("OMEN_SetThermalProfile", 9)]);
    assert_eq!(d.set_profile(4), Ok(()));
    assert_eq!(*log.borrow(), vec![("SetFanProfile".to_string(), Some(4))]);
    assert_eq!(set_profile_symbols()[2], "SetFanProfile");
}

#[test]
fn hp_set_profile_failure_code_is_internal() {
    let (d, _log) = omen(vec![("HP_SetThermalProfile", 3)]);
    assert_eq!(d.set_profile(1), Err(DriverError::Internal("return code: 3".to_string())));
}

#[test]
fn hp_set_profile_without_export_is_unsupported() {
    let (d, _log) = omen(vec![("GetFanSpeed", 1000)]);
    assert!(matches!(d.set_profile(1), Err(DriverError::Unsupported(_))));
}

#[test]
fn hp_set_profile_rejects_unknown_id_without_call() {
    let (d, log) = omen(vec![("SetThermalProfile", 0)]);
    assert!(matches!(d.set_profile(7), Err(DriverError::Unsupported(_))));
    assert!(log.borrow().is_empty());
}

#[test]
fn hp_rpc_status_codes() {
    assert_eq!(rpc_status(0), Ok(()));
    assert_eq!(rpc_status(-2), Err(HpDriverError::RpcFailed("return code: -2".to_string())));
}

#[test]
fn hp_current_profile_skips_negative_answers() {
    let (d, _log) = omen(vec![("GetThermalProfile", -1), ("HP_GetThermalProfile", 2)]);
    assert_eq!(d.current_profile(), Ok(Some(2)));
    let (none, _log) = omen(vec![("GetThermalProfile", -1)]);
    assert_eq!(none.current_profile(), Ok(None));
    assert_eq!(get_profile_symbols().len(), 3);
}

#[test]
fn hp_telemetry_reads_both_sensors() {
    let (d, _log) = omen(vec![("GetFanSpeed", 4200), ("GetSystemTemperature", 71)]);
    let t = d.telemetry().unwrap();
    assert_eq!(t.rpm, Some(4200));
    assert_eq!(t.temperature_c, Some(Celsius::from_millis(71_000)));
}

#[test]
fn hp_telemetry_without_sensor_exports_is_unsupported() {
    let (d, _log) = omen(vec![("SetThermalProfile", 0)]);
    assert!(matches!(d.telemetry(), Err(DriverError::Unsupported(_))));
}

#[test]
fn telemetry_from_drops_negative_readings() {
    let now = std::time::Instant::now();
    let t = telemetry_from(Some(-1), Some(40), now).unwrap();
    assert_eq!(t.rpm, None);
    assert_eq!(t.temperature_c, Some(Celsius::from_degrees(40)));
    assert_eq!(t.timestamp, now);
    let t = telemetry_from(Some(900), None, now).unwrap();
    assert_eq!(t.rpm, Some(900));
    assert_eq!(t.temperature_c, None);
    assert!(matches!(telemetry_from(None, None, now), Err(DriverError::Unsupported(_))));
}

#[test]
fn hp_manager_switches_to_extreme() {
    let (d, log) = omen(vec![("SetThermalProfile", 0)]);
    let m = FanManager::new(d, MaxFanPolicy::default());
    assert_eq!(m.set_max_profile(&|_ms: u64| {}), Ok(4));
    assert_eq!(*log.borrow(), vec![("SetThermalProfile".to_string(), Some(4))]);
}

struct FakeBios {
    sent: RefCell<Vec<(u32, u8)>>,
}

impl BiosChannel for FakeBios {
    fn send_bios_command(&self, command_type: u32, data: u8) -> Result<(), DriverError> {
        self.sent.borrow_mut().push((command_type, data));
        Ok(())
    }
}

#[test]
fn wmi_capabilities_and_commands() {
    let d = HpWmiDriver::new(FakeBios { sent: RefCell::new(Vec::new()) });
    let caps = d.capabilities().unwrap();
    assert!(caps.supported);
    assert_eq!(caps.profiles.len(), 2);
    assert_eq!((caps.profiles[0].id, caps.profiles[0].name.as_str(), caps.profiles[0].is_maximum), (0, "Default", false));
    assert_eq!((caps.profiles[1].id, caps.profiles[1].name.as_str(), caps.profiles[1].is_maximum), (1, "Max Fan", true));
    assert_eq!(d.current_profile(), Ok(None));
    assert!(matches!(d.telemetry(), Err(DriverError::Unsupported(_))));
    assert!(matches!(d.set_profile(3), Err(DriverError::Unsupported(_))));
    let m = FanManager::new(d, MaxFanPolicy::default());
    assert_eq!(m.set_max_profile(&|_ms: u64| {}), Ok(1));
}

#[test]
fn wmi_fan_control_data_bytes() {
    assert_eq!(fan_control_data(1), Some(1));
    assert_eq!(fan_control_data(0), Some(0));
    assert_eq!(fan_control_data(2), None);
    assert_eq!(HP_FAN_CONTROL_COMMAND_TYPE, 0x27);
}

#[test]
fn wmi_set_profile_sends_fan_command() {
    let d = HpWmiDriver::new(FakeBios { sent: RefCell::new(Vec::new()) });
    assert_eq!(d.set_profile(1), Ok(()));
    assert_eq!(d.set_profile(0), Ok(()));
}

struct FakeSchemes {
    activated: Rc<RefCell<Vec<String>>>,
}

impl PowerSchemeControl for FakeSchemes {
    fn set_active_scheme(&self, guid: &str) -> Result<(), DriverError> {
        self.activated.borrow_mut().push(guid.to_string());
        Ok(())
    }
}

#[test]
fn power_plan_profiles_map_to_schemes() {
    assert_eq!(scheme_for_profile(0), Some(BALANCED_SCHEME));
    assert_eq!(scheme_for_profile(1), Some(HIGH_PERFORMANCE_SCHEME));
    assert_eq!(scheme_for_profile(2), Some(POWER_SAVER_SCHEME));
    assert_eq!(scheme_for_profile(3), None);
    assert_eq!(HIGH_PERFORMANCE_SCHEME, "8c5e7fda-e8bf-4a96-9a85-a6e23a8c635c");
}

#[test]
fn power_plan_driver_activates_high_performance() {
    let activated = Rc::new(RefCell::new(Vec::new()));
    let d = WindowsPowerPlanDriver::new(FakeSchemes { activated: activated.clone() });
    let caps = d.capabilities().unwrap();
    assert_eq!(caps.profiles.len(), 3);
    assert_eq!(caps.profiles[1].name, "High Performance (Max)");
    assert!(matches!(d.set_profile(9), Err(DriverError::Unsupported(_))));
    assert!(matches!(d.telemetry(), Err(DriverError::Unsupported(_))));
    let m = FanManager::new(d, MaxFanPolicy::default());
    assert_eq!(m.set_max_profile(&|_ms: u64| {}), Ok(1));
    assert_eq!(*activated.borrow(), vec![HIGH_PERFORMANCE_SCHEME.to_string()]);
}

#[test]
fn power_plan_switch_outcome() {
    assert_eq!(scheme_switch_outcome(true, String::new()), Ok(()));
    assert_eq!(
        scheme_switch_outcome(false, "access denied".to_string()),
        Err(DriverError::Internal("access denied".to_string()))
    );
}


#[test]
fn hp_export_names_in_order() {
    assert_eq!(
        set_profile_symbols(),
        vec!["SetThermalProfile", "HP_SetThermalProfile", "SetFanProfile", "OMEN_SetThermalProfile"]
    );
    assert_eq!(get_profile_symbols(), vec!["GetThermalProfile", "HP_GetThermalProfile", "GetFanProfile"]);
}

#[test]
fn hp_first_switch_export_decides_even_on_failure() {
    let (d, log) = omen(vec![("HP_SetThermalProfile", 7), ("SetFanProfile", 0)]);
    assert_eq!(d.set_profile(2), Err(DriverError::Internal("return code: 7".to_string())));
    assert_eq!(*log.borrow(), vec![("HP_SetThermalProfile".to_string(), Some(2))]);
}
