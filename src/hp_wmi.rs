//! HP WMI BIOS backend for HP Victus and OMEN systems: fan profiles switched
//! by BIOS commands sent through the `hpqBIntM` WMI class.
use vstd::prelude::*;

use crate::driver::{DriverError, FanDriver};
use crate::model::{is_first_maximum, lemma_max_profile_id_at, FanCapabilities, FanProfile, FanTelemetry, ProfileId};

verus! {

/// WMI namespace of the HP BIOS interface.
pub const HP_WMI_NAMESPACE: &'static str = "root\\wmi";

/// BIOS command number of the HP BIOS interface.
pub const HP_BIOS_COMMAND: u32 = 0x20008;

/// BIOS command type that controls the fans.
pub const HP_FAN_CONTROL_COMMAND_TYPE: u32 = 0x27;

/// Profile id of the default fan behaviour.
pub const WMI_DEFAULT_PROFILE: ProfileId = 0;

/// Profile id of maximum fan speed.
pub const WMI_MAX_FAN_PROFILE: ProfileId = 1;

/// Sends BIOS commands to the HP BIOS interface. Talking to WMI happens
/// outside this library.
pub trait BiosChannel {
    /// Sends `data` as a BIOS command of type `command_type`.
    fn send_bios_command(&self, command_type: u32, data: u8) -> Result<(), DriverError>;
}

/// The data byte of the fan-control command for `profile`: one turns
/// maximum fan speed on, zero turns it off; other profiles are unknown.
pub fn fan_control_data(profile: ProfileId) -> (r: Option<u8>)
    ensures
        profile == WMI_MAX_FAN_PROFILE ==> r == Some(1u8),
        profile == WMI_DEFAULT_PROFILE ==> r == Some(0u8),
        r is None <==> profile != WMI_MAX_FAN_PROFILE && profile != WMI_DEFAULT_PROFILE,
{
    if profile == WMI_MAX_FAN_PROFILE {
        Some(1)
    } else if profile == WMI_DEFAULT_PROFILE {
        Some(0)
    } else {
        None
    }
}

/// HP driver that switches fan profiles through WMI BIOS commands.
pub struct HpWmiDriver<B: BiosChannel> {
    bios: B,
}

impl<B: BiosChannel> HpWmiDriver<B> {
    /// The channel this driver sends commands through.
    pub closed spec fn bios_spec(&self) -> B {
        self.bios
    }

    pub fn new(bios: B) -> (r: Self)
        ensures
            r.bios_spec() == bios,
    {
        HpWmiDriver { bios }
    }
}

impl<B: BiosChannel> FanDriver for HpWmiDriver<B> {
    open spec fn fixed_max_profile(&self) -> Option<Option<ProfileId>> {
        Some(Some(1))
    }

    fn capabilities(&self) -> (r: Result<FanCapabilities, DriverError>)
        ensures
            r is Ok,
            r->Ok_0.supported,
            r->Ok_0.profiles@.len() == 2,
            r->Ok_0.profiles@[0].id == WMI_DEFAULT_PROFILE,
            r->Ok_0.profiles@[0].name@ == "Default"@,
            !r->Ok_0.profiles@[0].is_maximum,
            r->Ok_0.profiles@[1].id == WMI_MAX_FAN_PROFILE,
            r->Ok_0.profiles@[1].name@ == "Max Fan"@,
            r->Ok_0.profiles@[1].is_maximum,
    {
        proof {
            reveal_strlit("Default");
            reveal_strlit("Max Fan");
        }
        let caps = FanCapabilities {
            supported: true,
            profiles: vec![
                FanProfile { id: WMI_DEFAULT_PROFILE, name: "Default".to_owned(), is_maximum: false },
                FanProfile { id: WMI_MAX_FAN_PROFILE, name: "Max Fan".to_owned(), is_maximum: true },
            ],
        };
        proof {
            assert(is_first_maximum(caps.profiles@, 1));
            lemma_max_profile_id_at(caps, 1);
        }
        Ok(caps)
    }

    fn current_profile(&self) -> (r: Result<Option<ProfileId>, DriverError>)
        ensures
            r == Ok::<Option<ProfileId>, DriverError>(None),
    {
        Ok(None)
    }

    fn set_profile(&self, profile: ProfileId) -> (r: Result<(), DriverError>)
        ensures
            profile != WMI_MAX_FAN_PROFILE && profile != WMI_DEFAULT_PROFILE ==> r is Err && r->Err_0 is Unsupported,
            profile == WMI_MAX_FAN_PROFILE ==> call_ensures(
                B::send_bios_command,
                (&self.bios_spec(), HP_FAN_CONTROL_COMMAND_TYPE, 1u8),
                r,
            ),
            profile == WMI_DEFAULT_PROFILE ==> call_ensures(
                B::send_bios_command,
                (&self.bios_spec(), HP_FAN_CONTROL_COMMAND_TYPE, 0u8),
                r,
            ),
    {
        assert(self.bios_spec() == self.bios);
        match fan_control_data(profile) {
            Some(data) => self.bios.send_bios_command(HP_FAN_CONTROL_COMMAND_TYPE, data),
            None => Err(DriverError::Unsupported("unknown WMI fan profile".to_owned())),
        }
    }

    fn telemetry(&self) -> (r: Result<FanTelemetry, DriverError>)
        ensures
            r is Err,
            r->Err_0 is Unsupported,
    {
        Err(DriverError::Unsupported("telemetry not available via WMI BIOS".to_owned()))
    }
}

} // verus!
