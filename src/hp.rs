//! HP OMEN backend: thermal profiles switched through the vendor's native
//! RPC library.
use vstd::prelude::*;

use crate::driver::{DriverError, FanDriver};
use crate::model::{
    is_first_maximum, lemma_max_profile_id_at, Celsius, FanCapabilities, FanProfile, FanTelemetry, ProfileId,
};

verus! {

/// HP thermal policy profiles, as exposed by the vendor's native API.
#[derive(Debug, Clone, Copy, PartialEq, Eq, Structural)]
pub enum HpThermalProfile {
    Default,
    Performance,
    Cool,
    Quiet,
    /// Maximum fan speed.
    Extreme,
}

impl HpThermalProfile {
    /// The identifier the vendor API uses for this profile.
    pub open spec fn id_spec(self) -> ProfileId {
        match self {
            HpThermalProfile::Default => 0,
            HpThermalProfile::Performance => 1,
            HpThermalProfile::Cool => 2,
            HpThermalProfile::Quiet => 3,
            HpThermalProfile::Extreme => 4,
        }
    }

    /// The display name of this profile.
    pub open spec fn name_spec(self) -> Seq<char> {
        match self {
            HpThermalProfile::Default => "Default"@,
            HpThermalProfile::Performance => "Performance"@,
            HpThermalProfile::Cool => "Cool"@,
            HpThermalProfile::Quiet => "Quiet"@,
            HpThermalProfile::Extreme => "Extreme (Max)"@,
        }
    }

    /// The profiles in the order the driver lists them.
    pub open spec fn listed() -> Seq<HpThermalProfile> {
        seq![
            HpThermalProfile::Default,
            HpThermalProfile::Performance,
            HpThermalProfile::Cool,
            HpThermalProfile::Quiet,
            HpThermalProfile::Extreme,
        ]
    }

    /// `p` describes this profile.
    pub open spec fn describes(self, p: FanProfile) -> bool {
        &&& p.id == self.id_spec()
        &&& p.name@ == self.name_spec()
        &&& p.is_maximum == (self == HpThermalProfile::Extreme)
    }

    pub fn to_profile_id(self) -> (r: ProfileId)
        ensures
            r == self.id_spec(),
    {
        match self {
            HpThermalProfile::Default => 0,
            HpThermalProfile::Performance => 1,
            HpThermalProfile::Cool => 2,
            HpThermalProfile::Quiet => 3,
            HpThermalProfile::Extreme => 4,
        }
    }

    /// The profile with identifier `id`, if the vendor API defines one.
    pub fn from_profile_id(id: ProfileId) -> (r: Option<HpThermalProfile>)
        ensures
            r matches Some(p) ==> p.id_spec() == id,
            r is None <==> id > 4,
    {
        match id {
            0 => Some(HpThermalProfile::Default),
            1 => Some(HpThermalProfile::Performance),
            2 => Some(HpThermalProfile::Cool),
            3 => Some(HpThermalProfile::Quiet),
            4 => Some(HpThermalProfile::Extreme),
            _ => None,
        }
    }

    pub fn to_fan_profile(self) -> (r: FanProfile)
        ensures
            self.describes(r),
    {
        let name = match self {
            HpThermalProfile::Default => "Default",
            HpThermalProfile::Performance => "Performance",
            HpThermalProfile::Cool => "Cool",
            HpThermalProfile::Quiet => "Quiet",
            HpThermalProfile::Extreme => "Extreme (Max)",
        };
        proof {
            reveal_strlit("Default");
            reveal_strlit("Performance");
            reveal_strlit("Cool");
            reveal_strlit("Quiet");
            reveal_strlit("Extreme (Max)");
        }
        FanProfile {
            id: self.to_profile_id(),
            name: name.to_owned(),
            is_maximum: self == HpThermalProfile::Extreme,
        }
    }

    /// Every profile, in listing order.
    pub fn all_profiles() -> (r: Vec<FanProfile>)
        ensures
            r@.len() == Self::listed().len(),
            forall|i: int| 0 <= i < r@.len() ==> Self::listed()[i].describes(#[trigger] r@[i]),
    {
        let r = vec![
            HpThermalProfile::Default.to_fan_profile(),
            HpThermalProfile::Performance.to_fan_profile(),
            HpThermalProfile::Cool.to_fan_profile(),
            HpThermalProfile::Quiet.to_fan_profile(),
            HpThermalProfile::Extreme.to_fan_profile(),
        ];
        r
    }
}

/// Failures of the vendor library path.
#[derive(Debug, Clone, PartialEq, Eq)]
pub enum HpDriverError {
    /// The library could not be found or loaded.
    DllNotFound(String),
    /// The library lacks every export tried for an operation.
    FunctionNotFound(String),
    /// The export answered with a failure code.
    RpcFailed(String),
}

impl From<HpDriverError> for DriverError {
    fn from(e: HpDriverError) -> (r: DriverError) {
        match e {
            HpDriverError::DllNotFound(msg) => DriverError::NotReady(msg),
            HpDriverError::FunctionNotFound(msg) => DriverError::Unsupported(msg),
            HpDriverError::RpcFailed(msg) => DriverError::Internal(msg),
        }
    }
}

impl vstd::std_specs::convert::FromSpecImpl<HpDriverError> for DriverError {
    open spec fn obeys_from_spec() -> bool {
        true
    }

    open spec fn from_spec(e: HpDriverError) -> DriverError {
        match e {
            HpDriverError::DllNotFound(msg) => DriverError::NotReady(msg),
            HpDriverError::FunctionNotFound(msg) => DriverError::Unsupported(msg),
            HpDriverError::RpcFailed(msg) => DriverError::Internal(msg),
        }
    }
}

/// Access to the vendor's native RPC library once it is loaded. Loading
/// and calling native code happens outside this library.
pub trait NativeRpcLibrary {
    /// Calls the export named `symbol`, which takes one `u32`; `None` where
    /// the library has no such export.
    fn call_with_u32(&self, symbol: &str, arg: u32) -> Option<i32>;

    /// Calls the export named `symbol`, which takes no argument; `None` where
    /// the library has no such export.
    fn call(&self, symbol: &str) -> Option<i32>;
}

/// Where the vendor library is looked for, in order.
pub open spec fn library_path_list() -> Seq<&'static str> {
    seq![
        "NativeRpcClient.dll",
        "C:\\Program Files\\HP\\OMEN\\NativeRpcClient.dll",
        "C:\\Program Files (x86)\\HP\\OMEN\\NativeRpcClient.dll",
        "C:\\Program Files\\OMEN\\NativeRpcClient.dll",
    ]
}

/// Where the vendor library is looked for, in order.
pub fn library_paths() -> (r: Vec<&'static str>)
    ensures
        r@ == library_path_list(),
{
    let r = vec![
        "NativeRpcClient.dll",
        "C:\\Program Files\\HP\\OMEN\\NativeRpcClient.dll",
        "C:\\Program Files (x86)\\HP\\OMEN\\NativeRpcClient.dll",
        "C:\\Program Files\\OMEN\\NativeRpcClient.dll",
    ];
    assert(r@ =~= library_path_list());
    r
}

/// Names under which the library may export the profile switch, in the
/// order they are tried.
pub open spec fn set_profile_symbol_list() -> Seq<&'static str> {
    seq!["SetThermalProfile", "HP_SetThermalProfile", "SetFanProfile", "OMEN_SetThermalProfile"]
}

/// Names under which the library may export the profile read-back, in the
/// order they are tried.
pub open spec fn get_profile_symbol_list() -> Seq<&'static str> {
    seq!["GetThermalProfile", "HP_GetThermalProfile", "GetFanProfile"]
}

/// Names under which the library may export the profile switch, in the
/// order they are tried.
pub fn set_profile_symbols() -> (r: Vec<&'static str>)
    ensures
        r@ == set_profile_symbol_list(),
{
    let r = vec!["SetThermalProfile", "HP_SetThermalProfile", "SetFanProfile", "OMEN_SetThermalProfile"];
    assert(r@ =~= set_profile_symbol_list());
    r
}

/// Names under which the library may export the profile read-back, in the
/// order they are tried.
pub fn get_profile_symbols() -> (r: Vec<&'static str>)
    ensures
        r@ == get_profile_symbol_list(),
{
    let r = vec!["GetThermalProfile", "HP_GetThermalProfile", "GetFanProfile"];
    assert(r@ =~= get_profile_symbol_list());
    r
}

/// The `k`-th switch export of `library` can answer `a` when asked to
/// switch to `profile` (`None`: the library has no such export).
pub open spec fn switch_answer<L: NativeRpcLibrary>(library: L, k: int, profile: u32, a: Option<i32>) -> bool {
    call_ensures(L::call_with_u32, (&library, set_profile_symbol_list()[k], profile), a)
}

/// The switch to `profile` is decided by the `k`-th switch export: every
/// earlier one can be missing, and this one answers `code`.
pub open spec fn switch_decided_by<L: NativeRpcLibrary>(library: L, k: int, profile: u32, code: i32) -> bool {
    &&& 0 <= k < set_profile_symbol_list().len()
    &&& switch_answer(library, k, profile, Some(code))
    &&& forall|j: int| 0 <= j < k ==> #[trigger] switch_answer(library, j, profile, None)
}

/// The `k`-th read-back export of `library` can answer `a` (`None`: the
/// library has no such export).
pub open spec fn readback_answer<L: NativeRpcLibrary>(library: L, k: int, a: Option<i32>) -> bool {
    call_ensures(L::call, (&library, get_profile_symbol_list()[k]), a)
}

/// The `k`-th read-back export can give no valid answer: it is missing or
/// answers a negative value.
pub open spec fn readback_invalid<L: NativeRpcLibrary>(library: L, k: int) -> bool {
    exists|a: Option<i32>| #[trigger] readback_answer(library, k, a) && (a is None || a->Some_0 < 0)
}

/// The read-back is decided by the `k`-th export: every earlier one can
/// give no valid answer, and this one answers `v`, which is non-negative.
pub open spec fn readback_decided_by<L: NativeRpcLibrary>(library: L, k: int, v: i32) -> bool {
    &&& 0 <= k < get_profile_symbol_list().len()
    &&& v >= 0
    &&& readback_answer(library, k, Some(v))
    &&& forall|j: int| 0 <= j < k ==> #[trigger] readback_invalid(library, j)
}

/// Export that reads the fan speed.
pub const FAN_SPEED_SYMBOL: &'static str = "GetFanSpeed";

/// Export that reads the system temperature.
pub const TEMPERATURE_SYMBOL: &'static str = "GetSystemTemperature";

/// Relies on `format!` with `i32`'s `Display`: a text that names the code.
#[verifier::external_body]
fn return_code_message(code: i32) -> String {
    format!("return code: {}", code)
}

/// What a profile switch returned: zero is success, anything else a failure.
pub fn rpc_status(code: i32) -> (r: Result<(), HpDriverError>)
    ensures
        r is Ok <==> code == 0,
        r matches Err(e) ==> e is RpcFailed,
{
    if code == 0 {
        Ok(())
    } else {
        Err(HpDriverError::RpcFailed(return_code_message(code)))
    }
}

/// A sensor reading: a negative value means no reading.
pub open spec fn sensor_reading(v: Option<i32>) -> Option<i32> {
    match v {
        Some(x) => if x >= 0 { Some(x) } else { None },
        None => None,
    }
}

/// `r` is the outcome of a capture whose fan-speed and temperature exports
/// answered `speed` and `temperature` (`None`: no such export), up to the
/// capture's moment.
pub open spec fn sensed_from(
    speed: Option<i32>,
    temperature: Option<i32>,
    r: Result<FanTelemetry, DriverError>,
) -> bool {
    &&& r is Err <==> speed is None && temperature is None
    &&& r matches Err(e) ==> e is Unsupported
    &&& r matches Ok(t) ==> {
        &&& t.rpm is Some <==> sensor_reading(speed) is Some
        &&& t.rpm matches Some(rpm) ==> rpm == sensor_reading(speed)->Some_0
        &&& t.temperature_c is Some <==> sensor_reading(temperature) is Some
        &&& t.temperature_c matches Some(c) ==> c.millis == sensor_reading(temperature)->Some_0 * 1000
    }
}

/// The telemetry built from the answers of the two sensor exports (`None`
/// where the export is missing). Without either export there is no sensor
/// path, which is `Unsupported`; a negative value is an absent reading.
pub fn telemetry_from(
    speed: Option<i32>,
    temperature: Option<i32>,
    timestamp: std::time::Instant,
) -> (r: Result<FanTelemetry, DriverError>)
    ensures
        sensed_from(speed, temperature, r),
        r matches Ok(t) ==> t.timestamp == timestamp,
{
    if speed.is_none() && temperature.is_none() {
        return Err(DriverError::Unsupported("no fan or temperature sensor export".to_owned()));
    }
    let rpm = match speed {
        Some(v) => if v >= 0 { Some(v as u32) } else { None },
        None => None,
    };
    let temperature_c = match temperature {
        Some(v) => if v >= 0 { Some(Celsius::from_degrees(v)) } else { None },
        None => None,
    };
    Ok(FanTelemetry { rpm, temperature_c, timestamp })
}

/// `open` can fail to load the `k`-th library path.
pub open spec fn failed_to_load<L, F: Fn(&'static str) -> Option<L>>(open: F, k: int) -> bool {
    open.ensures((library_path_list()[k],), None::<L>)
}

/// `open` can load `library` from the `k`-th library path, after failing on
/// every earlier one.
pub open spec fn loaded_from<L, F: Fn(&'static str) -> Option<L>>(open: F, k: int, library: L) -> bool {
    &&& open.ensures((library_path_list()[k],), Some(library))
    &&& forall|j: int| 0 <= j < k ==> #[trigger] failed_to_load(open, j)
}

/// HP driver that switches thermal profiles through the vendor's native
/// RPC library. It owns the loaded library for its whole life.
pub struct HpOmenDriver<L: NativeRpcLibrary> {
    library: L,
}

impl<L: NativeRpcLibrary> HpOmenDriver<L> {
    /// The loaded library this driver calls.
    pub closed spec fn library_spec(&self) -> L {
        self.library
    }

    /// Loads the vendor library with `open`, trying each of `library_paths`
    /// in order and keeping the first that loads; fails with `DllNotFound`
    /// where none does. A path is tried only after every earlier one failed.
    pub fn new<F: Fn(&'static str) -> Option<L>>(open: &F) -> (r: Result<Self, HpDriverError>)
        requires
            forall|p: &'static str| open.requires((p,)),
        ensures
            r is Ok ==> exists|k: int|
                0 <= k < library_path_list().len() && #[trigger] loaded_from(*open, k, r->Ok_0.library_spec()),
            r is Err ==> r->Err_0 is DllNotFound && forall|k: int|
                0 <= k < library_path_list().len() ==> #[trigger] failed_to_load(*open, k),
    {
        let paths = library_paths();
        let mut i: usize = 0;
        while i < paths.len()
            invariant
                i <= paths@.len(),
                paths@ == library_path_list(),
                forall|p: &'static str| open.requires((p,)),
                forall|j: int| 0 <= j < i ==> #[trigger] failed_to_load(*open, j),
            decreases paths@.len() - i,
        {
            let path = paths[i];
            match open(path) {
                Some(library) => {
                    let d = HpOmenDriver { library };
                    let r = Ok(d);
                    assert(0 <= i < library_path_list().len());
                    assert(loaded_from(*open, i as int, r->Ok_0.library_spec()));
                    return r;
                },
                None => {
                    assert(failed_to_load(*open, i as int));
                },
            }
            i = i + 1;
        }
        Err(HpDriverError::DllNotFound(
            "NativeRpcClient.dll not found in known HP OMEN paths; is HP OMEN Command Center installed?".to_owned(),
        ))
    }

    /// Issues the profile switch through the first switch export the
    /// library has.
    fn call_set_thermal_profile(&self, profile: u32) -> (r: Result<(), HpDriverError>)
        ensures
            r is Ok ==> exists|k: int| #[trigger] switch_decided_by(self.library, k, profile, 0),
            r matches Err(e) ==> e is FunctionNotFound || e is RpcFailed,
            r matches Err(e) && e is RpcFailed ==> exists|k: int, code: i32|
                code != 0 && #[trigger] switch_decided_by(self.library, k, profile, code),
            r matches Err(e) && e is FunctionNotFound ==> forall|k: int|
                0 <= k < set_profile_symbol_list().len() ==> #[trigger] switch_answer(self.library, k, profile, None),
    {
        let names = set_profile_symbols();
        let mut i: usize = 0;
        while i < names.len()
            invariant
                i <= names@.len(),
                names@ == set_profile_symbol_list(),
                forall|j: int| 0 <= j < i ==> #[trigger] switch_answer(self.library, j, profile, None),
            decreases names@.len() - i,
        {
            let answer = self.library.call_with_u32(names[i], profile);
            assert(switch_answer(self.library, i as int, profile, answer));
            match answer {
                Some(code) => {
                    assert(switch_decided_by(self.library, i as int, profile, code));
                    return rpc_status(code);
                },
                None => {},
            }
            i = i + 1;
        }
        Err(HpDriverError::FunctionNotFound(
            "SetThermalProfile or similar not found in NativeRpcClient.dll".to_owned(),
        ))
    }

    /// Reads the active profile through the first read-back export that
    /// answers with a valid (non-negative) value.
    fn call_get_thermal_profile(&self) -> (r: Result<i32, HpDriverError>)
        ensures
            r matches Ok(v) ==> exists|k: int| #[trigger] readback_decided_by(self.library, k, v),
            r matches Err(e) ==> e is FunctionNotFound && forall|k: int|
                0 <= k < get_profile_symbol_list().len() ==> #[trigger] readback_invalid(self.library, k),
    {
        let names = get_profile_symbols();
        let mut i: usize = 0;
        while i < names.len()
            invariant
                i <= names@.len(),
                names@ == get_profile_symbol_list(),
                forall|j: int| 0 <= j < i ==> #[trigger] readback_invalid(self.library, j),
            decreases names@.len() - i,
        {
            let answer = self.library.call(names[i]);
            assert(readback_answer(self.library, i as int, answer));
            match answer {
                Some(v) => if v >= 0 {
                    assert(readback_decided_by(self.library, i as int, v));
                    let r: Result<i32, HpDriverError> = Ok(v);
                    assert(r->Ok_0 == v);
                    assert(readback_decided_by(self.library, i as int, r->Ok_0));
                    return r;
                },
                None => {},
            }
            assert(readback_invalid(self.library, i as int));
            i = i + 1;
        }
        Err(HpDriverError::FunctionNotFound("GetThermalProfile or similar not found".to_owned()))
    }
}

impl<L: NativeRpcLibrary> FanDriver for HpOmenDriver<L> {
    open spec fn fixed_max_profile(&self) -> Option<Option<ProfileId>> {
        Some(Some(4))
    }

    fn capabilities(&self) -> (r: Result<FanCapabilities, DriverError>)
        ensures
            r is Ok,
            r->Ok_0.supported,
            r->Ok_0.profiles@.len() == HpThermalProfile::listed().len(),
            forall|i: int|
                0 <= i < r->Ok_0.profiles@.len() ==> HpThermalProfile::listed()[i].describes(
                    #[trigger] r->Ok_0.profiles@[i],
                ),
    {
        let caps = FanCapabilities { supported: true, profiles: HpThermalProfile::all_profiles() };
        proof {
            let s = caps.profiles@;
            assert(HpThermalProfile::listed()[4].describes(s[4]));
            assert forall|j: int| 0 <= j < 4 implies !(#[trigger] s[j]).is_maximum by {
                assert(HpThermalProfile::listed()[j].describes(s[j]));
            }
            assert(is_first_maximum(s, 4));
            lemma_max_profile_id_at(caps, 4);
        }
        Ok(caps)
    }

    fn current_profile(&self) -> (r: Result<Option<ProfileId>, DriverError>)
        ensures
            r is Ok,
            r->Ok_0 matches Some(id) ==> exists|k: int, v: i32|
                #[trigger] readback_decided_by(self.library_spec(), k, v) && id == v as u32,
            r->Ok_0 is None ==> forall|k: int|
                0 <= k < get_profile_symbol_list().len() ==> #[trigger] readback_invalid(self.library_spec(), k),
    {
        assert(self.library_spec() == self.library);
        match self.call_get_thermal_profile() {
            Ok(v) => {
                proof {
                    let k = choose|k: int| readback_decided_by(self.library, k, v);
                    assert(readback_decided_by(self.library_spec(), k, v));
                }
                Ok(Some(v as u32))
            },
            Err(_) => Ok(None),
        }
    }

    fn set_profile(&self, profile: ProfileId) -> (r: Result<(), DriverError>)
        ensures
            profile > 4 ==> r is Err && r->Err_0 is Unsupported,
            r is Ok ==> exists|k: int| #[trigger] switch_decided_by(self.library_spec(), k, profile, 0),
            r matches Err(e) ==> e is Unsupported || e is Internal,
            r matches Err(e) && e is Internal ==> exists|k: int, code: i32|
                code != 0 && #[trigger] switch_decided_by(self.library_spec(), k, profile, code),
            r matches Err(e) && e is Unsupported && profile <= 4 ==> forall|k: int|
                0 <= k < set_profile_symbol_list().len() ==> #[trigger] switch_answer(
                    self.library_spec(),
                    k,
                    profile,
                    None,
                ),
    {
        if HpThermalProfile::from_profile_id(profile).is_none() {
            return Err(DriverError::Unsupported("unknown HP thermal profile".to_owned()));
        }
        assert(self.library_spec() == self.library);
        let status = self.call_set_thermal_profile(profile);
        match status {
            Ok(()) => {
                proof {
                    let k = choose|k: int| switch_decided_by(self.library, k, profile, 0);
                    assert(switch_decided_by(self.library_spec(), k, profile, 0));
                }
                Ok(())
            },
            Err(e) => {
                proof {
                    if e is RpcFailed {
                        let (k, code) = choose|k: int, code: i32|
                            code != 0 && switch_decided_by(self.library, k, profile, code);
                        assert(switch_decided_by(self.library_spec(), k, profile, code));
                    }
                }
                Err(DriverError::from(e))
            },
        }
    }

    fn telemetry(&self) -> (r: Result<FanTelemetry, DriverError>)
        ensures
            exists|speed: Option<i32>, temperature: Option<i32>|
                #[trigger] call_ensures(L::call, (&self.library_spec(), FAN_SPEED_SYMBOL), speed)
                    && #[trigger] call_ensures(L::call, (&self.library_spec(), TEMPERATURE_SYMBOL), temperature)
                    && sensed_from(speed, temperature, r),
    {
        assert(self.library_spec() == self.library);
        let speed = self.library.call(FAN_SPEED_SYMBOL);
        let temperature = self.library.call(TEMPERATURE_SYMBOL);
        let r = telemetry_from(speed, temperature, std::time::Instant::now());
        assert(call_ensures(L::call, (&self.library_spec(), FAN_SPEED_SYMBOL), speed));
        assert(call_ensures(L::call, (&self.library_spec(), TEMPERATURE_SYMBOL), temperature));
        r
    }
}

} // verus!
