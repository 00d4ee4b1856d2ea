//! The profile cache and the synchronization manager.
//!
//! The cache mirrors every settings domain of the device. Each mutation
//! follows a read-modify-write discipline: the manager merges requested
//! overrides into the cached values, builds the Set command, and after
//! the exchange stores what the device's response decodes to — the
//! device-confirmed values, never the locally assumed ones. Transport
//! is a collaborator: the manager produces fully checksummed command
//! buffers and consumes response buffers, and the caller performs the
//! exchange.

use vstd::prelude::*;

use crate::command::{header_is, Command};
use crate::checksum::{checksum_of, pair_complement};
use crate::download_data::{spec_mouse_status_from, GetWirelessMouseOnline, MouseStatus};
use crate::dpi::{group_at, spec_color_encode, spec_dpi_encodable, spec_dpi_encode,
    spec_pair_color_address, spec_pair_dpi_address, spec_preset_from_index, spec_preset_index,
    spec_preset_pair, spec_preset_slot, spec_slot_offset, Color, Dpi, Gear, Pair, Preset, Slot};
use crate::dpi_led::{spec_dpi_led_config, spec_led_breathing_rate_code, spec_led_brightness_code,
    spec_led_effect_mode_code, DpiLedSettings, LedBreathingRate, LedBrightnessLevel,
    LedEffectMode};
use crate::dpi_profiles::{spec_color_pair_config, spec_dpi_pair_config, ColorPairSetting,
    DpiPairSetting};
use crate::far_distance::FarDistanceMode;
use crate::ids::{spec_command_id_code, spec_eeprom_address_code, CommandId, EEPROMAddress};
use crate::mouse_info::{spec_mouse_info_config, spec_polling_rate_code, MouseInfo};
use crate::performance::{spec_bool_byte, spec_mouse_perf_matches, spec_sensor_perf_matches,
    MousePerfSettings, SensorPerfSettings};
use crate::silent_height::{spec_silent_height_code, spec_silent_height_from, SilentHeight,
    SilentHeightMode};
use crate::types::{Decaseconds, Duration, Milliseconds};
use crate::Error;

verus! {

/// The host-side aggregate mirroring all current device settings.
#[derive(Clone, Copy, Debug)]
pub struct Profile {
    pub dpi_pair1: DpiPairSetting,
    pub dpi_pair2: DpiPairSetting,
    pub dpi_pair3: DpiPairSetting,
    pub dpi_pair4: DpiPairSetting,
    pub color_pair1: ColorPairSetting,
    pub color_pair2: ColorPairSetting,
    pub color_pair3: ColorPairSetting,
    pub color_pair4: ColorPairSetting,
    pub dpi_led: DpiLedSettings,
    pub far_distance: FarDistanceMode,
    pub mouse_info: MouseInfo,
    pub mouse_perf: MousePerfSettings,
    pub sensor_perf: SensorPerfSettings,
    pub silent_mode: SilentHeight,
}

/// The DPI pair setting cached for a hardware pair.
pub open spec fn spec_profile_dpi_pair(p: Profile, pair: Pair) -> DpiPairSetting {
    match pair {
        Pair::Pair1 => p.dpi_pair1,
        Pair::Pair2 => p.dpi_pair2,
        Pair::Pair3 => p.dpi_pair3,
        Pair::Pair4 => p.dpi_pair4,
    }
}

/// The color pair setting cached for a hardware pair.
pub open spec fn spec_profile_color_pair(p: Profile, pair: Pair) -> ColorPairSetting {
    match pair {
        Pair::Pair1 => p.color_pair1,
        Pair::Pair2 => p.color_pair2,
        Pair::Pair3 => p.color_pair3,
        Pair::Pair4 => p.color_pair4,
    }
}

impl Default for Profile {
    fn default() -> (r: Self)
        ensures
            r.mouse_info.num_profile == 0,
            r.mouse_info.active_profile == 0,
    {
        Profile {
            dpi_pair1: DpiPairSetting::default(),
            dpi_pair2: DpiPairSetting::default(),
            dpi_pair3: DpiPairSetting::default(),
            dpi_pair4: DpiPairSetting::default(),
            color_pair1: ColorPairSetting::default(),
            color_pair2: ColorPairSetting::default(),
            color_pair3: ColorPairSetting::default(),
            color_pair4: ColorPairSetting::default(),
            dpi_led: DpiLedSettings::default(),
            far_distance: FarDistanceMode::default(),
            mouse_info: MouseInfo::default(),
            mouse_perf: MousePerfSettings::default(),
            sensor_perf: SensorPerfSettings::default(),
            silent_mode: SilentHeight::default(),
        }
    }
}

impl Profile {
    pub fn dpi_led_settings(&self) -> (r: &DpiLedSettings)
        ensures
            r == self.dpi_led,
    {
        &self.dpi_led
    }

    pub fn far_distance_mode(&self) -> (r: &FarDistanceMode)
        ensures
            r == self.far_distance,
    {
        &self.far_distance
    }

    pub fn mouse_info(&self) -> (r: &MouseInfo)
        ensures
            r == self.mouse_info,
    {
        &self.mouse_info
    }

    pub fn mouse_performance_settings(&self) -> (r: &MousePerfSettings)
        ensures
            r == self.mouse_perf,
    {
        &self.mouse_perf
    }

    pub fn sensor_performance_settings(&self) -> (r: &SensorPerfSettings)
        ensures
            r == self.sensor_perf,
    {
        &self.sensor_perf
    }

    pub fn silent_height(&self) -> (r: &SilentHeight)
        ensures
            r == self.silent_mode,
    {
        &self.silent_mode
    }

    pub fn dpi_pair_setting(&self, pair: Pair) -> (r: &DpiPairSetting)
        ensures
            r == spec_profile_dpi_pair(*self, pair),
    {
        match pair {
            Pair::Pair1 => &self.dpi_pair1,
            Pair::Pair2 => &self.dpi_pair2,
            Pair::Pair3 => &self.dpi_pair3,
            Pair::Pair4 => &self.dpi_pair4,
        }
    }

    pub fn color_pair_setting(&self, pair: Pair) -> (r: &ColorPairSetting)
        ensures
            r == spec_profile_color_pair(*self, pair),
    {
        match pair {
            Pair::Pair1 => &self.color_pair1,
            Pair::Pair2 => &self.color_pair2,
            Pair::Pair3 => &self.color_pair3,
            Pair::Pair4 => &self.color_pair4,
        }
    }

    /// The two gears of a hardware pair, DPI and color side by side.
    pub fn dpi_profile(&self, pair: Pair) -> (r: (Gear, Gear))
        ensures
            r.0 == (Gear {
                dpi: spec_profile_dpi_pair(*self, pair).dpi_first,
                color: spec_profile_color_pair(*self, pair).color_first,
            }),
            r.1 == (Gear {
                dpi: spec_profile_dpi_pair(*self, pair).dpi_second,
                color: spec_profile_color_pair(*self, pair).color_second,
            }),
    {
        let dpi = self.dpi_pair_setting(pair);
        let color = self.color_pair_setting(pair);
        (
            Gear::new(dpi.dpi(Slot::First), color.color(Slot::First)),
            Gear::new(dpi.dpi(Slot::Second), color.color(Slot::Second)),
        )
    }
}

/// The phases of the startup query pass that populates the cache, in
/// the order the queries go out.
#[derive(Clone, Copy, Debug, PartialEq, Eq, Structural)]
pub enum LoadPhase {
    MousePerf,
    SensorPerf,
    FarDistance,
    Info,
    Dpi1,
    Dpi2,
    Dpi3,
    Dpi4,
    Color1,
    Color2,
    Color3,
    Color4,
    Silent,
    Led,
    Done,
}

/// The phase that follows a successfully applied response.
pub open spec fn spec_load_next(phase: LoadPhase) -> LoadPhase {
    match phase {
        LoadPhase::MousePerf => LoadPhase::SensorPerf,
        LoadPhase::SensorPerf => LoadPhase::FarDistance,
        LoadPhase::FarDistance => LoadPhase::Info,
        LoadPhase::Info => LoadPhase::Dpi1,
        LoadPhase::Dpi1 => LoadPhase::Dpi2,
        LoadPhase::Dpi2 => LoadPhase::Dpi3,
        LoadPhase::Dpi3 => LoadPhase::Dpi4,
        LoadPhase::Dpi4 => LoadPhase::Color1,
        LoadPhase::Color1 => LoadPhase::Color2,
        LoadPhase::Color2 => LoadPhase::Color3,
        LoadPhase::Color3 => LoadPhase::Color4,
        LoadPhase::Color4 => LoadPhase::Silent,
        LoadPhase::Silent => LoadPhase::Led,
        LoadPhase::Led => LoadPhase::Done,
        LoadPhase::Done => LoadPhase::Done,
    }
}

/// The command id, EEPROM address code and valid data length of the
/// query a load phase issues; `None` once the pass is done.
pub open spec fn spec_load_target(phase: LoadPhase) -> Option<(CommandId, u16, u8)> {
    match phase {
        LoadPhase::MousePerf => Some(
            (
                CommandId::GetEEPROM,
                spec_eeprom_address_code(EEPROMAddress::StabilizationTime),
                0xau8,
            ),
        ),
        LoadPhase::SensorPerf => Some(
            (CommandId::GetEEPROM, spec_eeprom_address_code(EEPROMAddress::MoveCloseLights), 0xau8),
        ),
        LoadPhase::FarDistance => Some((CommandId::GetFarDistanceMode, 0u16, 0u8)),
        LoadPhase::Info => Some(
            (CommandId::GetEEPROM, spec_eeprom_address_code(EEPROMAddress::ReportRate), 0x6u8),
        ),
        LoadPhase::Dpi1 => Some(
            (
                CommandId::GetEEPROM,
                spec_eeprom_address_code(spec_pair_dpi_address(Pair::Pair1)),
                0x8u8,
            ),
        ),
        LoadPhase::Dpi2 => Some(
            (
                CommandId::GetEEPROM,
                spec_eeprom_address_code(spec_pair_dpi_address(Pair::Pair2)),
                0x8u8,
            ),
        ),
        LoadPhase::Dpi3 => Some(
            (
                CommandId::GetEEPROM,
                spec_eeprom_address_code(spec_pair_dpi_address(Pair::Pair3)),
                0x8u8,
            ),
        ),
        LoadPhase::Dpi4 => Some(
            (
                CommandId::GetEEPROM,
                spec_eeprom_address_code(spec_pair_dpi_address(Pair::Pair4)),
                0x8u8,
            ),
        ),
        LoadPhase::Color1 => Some(
            (
                CommandId::GetEEPROM,
                spec_eeprom_address_code(spec_pair_color_address(Pair::Pair1)),
                0x8u8,
            ),
        ),
        LoadPhase::Color2 => Some(
            (
                CommandId::GetEEPROM,
                spec_eeprom_address_code(spec_pair_color_address(Pair::Pair2)),
                0x8u8,
            ),
        ),
        LoadPhase::Color3 => Some(
            (
                CommandId::GetEEPROM,
                spec_eeprom_address_code(spec_pair_color_address(Pair::Pair3)),
                0x8u8,
            ),
        ),
        LoadPhase::Color4 => Some(
            (
                CommandId::GetEEPROM,
                spec_eeprom_address_code(spec_pair_color_address(Pair::Pair4)),
                0x8u8,
            ),
        ),
        LoadPhase::Silent => Some(
            (CommandId::GetEEPROM, spec_eeprom_address_code(EEPROMAddress::SilentHeight), 0x2u8),
        ),
        LoadPhase::Led => Some(
            (
                CommandId::GetEEPROM,
                spec_eeprom_address_code(EEPROMAddress::DpiRgbLightingEffects),
                0x8u8,
            ),
        ),
        LoadPhase::Done => None,
    }
}

/// The single-writer manager: the cache, and the last reported wake
/// state of the mouse.
pub struct MouseManager {
    pub profile: Profile,
    pub status: MouseStatus,
}

impl MouseManager {
    /// The device has last reported itself awake; every Set/Get command
    /// producer requires this.
    pub open spec fn online(&self) -> bool {
        self.status == MouseStatus::Active
    }

    /// A fresh manager: empty cache, mouse assumed dormant until a poll
    /// says otherwise.
    pub fn new() -> (r: Self)
        ensures
            r.status == MouseStatus::Dormant,
            r.profile.mouse_info.num_profile == 0,
    {
        MouseManager { profile: Profile::default(), status: MouseStatus::Dormant }
    }

    pub fn profile(&self) -> (r: &Profile)
        ensures
            r == self.profile,
    {
        &self.profile
    }

    /// Record the wake state reported by an online poll response. This
    /// is the one exchange permitted while the mouse is dormant.
    pub fn handle_online_response(&mut self, resp: &Command<GetWirelessMouseOnline>) -> (r:
        MouseStatus)
        requires
            resp.wf(),
        ensures
            r == spec_mouse_status_from(resp@[0x5]),
            final(self).status == r,
            final(self).profile == old(self).profile,
    {
        let status = resp.mouse_status();
        self.status = status;
        status
    }

    /// One round of the blocking online busy-poll: record the reported
    /// state; the wait is over exactly when the mouse reports active.
    pub fn wait_step(&mut self, resp: &Command<GetWirelessMouseOnline>) -> (done: bool)
        requires
            resp.wf(),
        ensures
            final(self).status == spec_mouse_status_from(resp@[0x5]),
            final(self).profile == old(self).profile,
            done == final(self).online(),
    {
        let status = self.handle_online_response(resp);
        match status {
            MouseStatus::Active => true,
            MouseStatus::Dormant => false,
        }
    }

    /// The bytes of the query that a load phase issues, exact to the
    /// checksum; `None` once the pass is done.
    pub fn load_query(phase: LoadPhase) -> (r: Option<Vec<u8>>)
        ensures
            r is Some <==> spec_load_target(phase) is Some,
            r is Some ==> ({
                let (id, addr, dlen) = spec_load_target(phase)->Some_0;
                let s = r->Some_0@;
                &&& s.len() == 0x10
                &&& s[0x0] == spec_command_id_code(id)
                &&& s[0x1] == 0u8
                &&& s[0x2] == addr / 0x100
                &&& s[0x3] == addr % 0x100
                &&& s[0x4] == dlen
                &&& forall|i: int| 0x5 <= i < 0xf ==> s[i] == 0
                &&& s[0xf] == checksum_of(0x8, s.take(0xf))
            }),
    {
        match phase {
            LoadPhase::MousePerf => Some(vstd::slice::slice_to_vec(Command::<MousePerfSettings>::query().as_bytes())),
            LoadPhase::SensorPerf => Some(vstd::slice::slice_to_vec(Command::<SensorPerfSettings>::query().as_bytes())),
            LoadPhase::FarDistance => Some(vstd::slice::slice_to_vec(Command::<FarDistanceMode>::query().as_bytes())),
            LoadPhase::Info => Some(vstd::slice::slice_to_vec(Command::<MouseInfo>::query().as_bytes())),
            LoadPhase::Dpi1 => Some(vstd::slice::slice_to_vec(Command::<DpiPairSetting>::query(Pair::Pair1).as_bytes())),
            LoadPhase::Dpi2 => Some(vstd::slice::slice_to_vec(Command::<DpiPairSetting>::query(Pair::Pair2).as_bytes())),
            LoadPhase::Dpi3 => Some(vstd::slice::slice_to_vec(Command::<DpiPairSetting>::query(Pair::Pair3).as_bytes())),
            LoadPhase::Dpi4 => Some(vstd::slice::slice_to_vec(Command::<DpiPairSetting>::query(Pair::Pair4).as_bytes())),
            LoadPhase::Color1 => Some(vstd::slice::slice_to_vec(Command::<ColorPairSetting>::query(Pair::Pair1).as_bytes())),
            LoadPhase::Color2 => Some(vstd::slice::slice_to_vec(Command::<ColorPairSetting>::query(Pair::Pair2).as_bytes())),
            LoadPhase::Color3 => Some(vstd::slice::slice_to_vec(Command::<ColorPairSetting>::query(Pair::Pair3).as_bytes())),
            LoadPhase::Color4 => Some(vstd::slice::slice_to_vec(Command::<ColorPairSetting>::query(Pair::Pair4).as_bytes())),
            LoadPhase::Silent => Some(vstd::slice::slice_to_vec(Command::<SilentHeight>::query().as_bytes())),
            LoadPhase::Led => Some(vstd::slice::slice_to_vec(Command::<DpiLedSettings>::query().as_bytes())),
            LoadPhase::Done => None,
        }
    }
}

/// The mouse performance domain of `new_p` was replaced by what `s`
/// decodes to; every other domain kept its `old_p` value.
pub open spec fn spec_applied_mouse_perf(old_p: Profile, new_p: Profile, s: Seq<u8>) -> bool {
    &&& spec_mouse_perf_matches(new_p.mouse_perf, s)
    &&& new_p == (Profile { mouse_perf: new_p.mouse_perf, ..old_p })
}

/// The sensor performance domain of `new_p` was replaced by what `s`
/// decodes to; every other domain kept its `old_p` value.
pub open spec fn spec_applied_sensor_perf(old_p: Profile, new_p: Profile, s: Seq<u8>) -> bool {
    &&& spec_sensor_perf_matches(new_p.sensor_perf, s)
    &&& new_p == (Profile { sensor_perf: new_p.sensor_perf, ..old_p })
}

/// The far-distance flag of `new_p` was replaced by what `s` decodes
/// to; every other domain kept its `old_p` value.
pub open spec fn spec_applied_far_distance(old_p: Profile, new_p: Profile, s: Seq<u8>) -> bool {
    &&& new_p.far_distance == FarDistanceMode(s[0x5] == 1u8)
    &&& new_p == (Profile { far_distance: new_p.far_distance, ..old_p })
}

/// The silent height of `new_p` was replaced by what `s` decodes to;
/// every other domain kept its `old_p` value.
pub open spec fn spec_applied_silent_height(old_p: Profile, new_p: Profile, s: Seq<u8>) -> bool {
    &&& new_p.silent_mode.mode == spec_silent_height_from(s[0x5])
    &&& new_p == (Profile { silent_mode: new_p.silent_mode, ..old_p })
}

/// The mouse information of `new_p` was replaced by what `s` decodes
/// to; every other domain kept its `old_p` value.
pub open spec fn spec_applied_mouse_info(old_p: Profile, new_p: Profile, s: Seq<u8>) -> bool {
    &&& Some(new_p.mouse_info) == spec_mouse_info_config(s)
    &&& new_p == (Profile { mouse_info: new_p.mouse_info, ..old_p })
}

/// The LED settings of `new_p` were replaced by what `s` decodes to;
/// every other domain kept its `old_p` value.
pub open spec fn spec_applied_dpi_led(old_p: Profile, new_p: Profile, s: Seq<u8>) -> bool {
    &&& Some(new_p.dpi_led) == spec_dpi_led_config(s)
    &&& new_p == (Profile { dpi_led: new_p.dpi_led, ..old_p })
}

/// The DPI pair named by the response's address was replaced in
/// `new_p` by what `s` decodes to; the other pairs and every other
/// domain kept their `old_p` values.
pub open spec fn spec_applied_dpi_pair(old_p: Profile, new_p: Profile, s: Seq<u8>) -> bool {
    let x = spec_dpi_pair_config(s)->Some_0;
    &&& spec_profile_dpi_pair(new_p, x.pair) == x
    &&& forall|p: Pair| #![auto]
        p != x.pair ==> spec_profile_dpi_pair(new_p, p) == spec_profile_dpi_pair(old_p, p)
    &&& new_p == (Profile {
        dpi_pair1: new_p.dpi_pair1,
        dpi_pair2: new_p.dpi_pair2,
        dpi_pair3: new_p.dpi_pair3,
        dpi_pair4: new_p.dpi_pair4,
        ..old_p
    })
}

/// The color pair named by the response's address was replaced in
/// `new_p` by what `s` decodes to; the other pairs and every other
/// domain kept their `old_p` values.
pub open spec fn spec_applied_color_pair(old_p: Profile, new_p: Profile, s: Seq<u8>) -> bool {
    let x = spec_color_pair_config(s)->Some_0;
    &&& spec_profile_color_pair(new_p, x.pair) == x
    &&& forall|p: Pair| #![auto]
        p != x.pair ==> spec_profile_color_pair(new_p, p) == spec_profile_color_pair(old_p, p)
    &&& new_p == (Profile {
        color_pair1: new_p.color_pair1,
        color_pair2: new_p.color_pair2,
        color_pair3: new_p.color_pair3,
        color_pair4: new_p.color_pair4,
        ..old_p
    })
}

impl MouseManager {
    /// Store a decoded mouse performance response: the cache takes the
    /// device-confirmed values, as one atomic replacement.
    pub fn apply_mouse_perf_response(&mut self, resp: Command<MousePerfSettings>)
        requires
            resp.wf(),
        ensures
            final(self).status == old(self).status,
            spec_applied_mouse_perf(old(self).profile, final(self).profile, resp@),
    {
        self.profile.mouse_perf = resp.config();
    }

    /// Store a decoded sensor performance response.
    pub fn apply_sensor_perf_response(&mut self, resp: Command<SensorPerfSettings>)
        requires
            resp.wf(),
        ensures
            final(self).status == old(self).status,
            spec_applied_sensor_perf(old(self).profile, final(self).profile, resp@),
    {
        self.profile.sensor_perf = resp.config();
    }

    /// Store a decoded far-distance response.
    pub fn apply_far_distance_response(&mut self, resp: Command<FarDistanceMode>)
        requires
            resp.wf(),
        ensures
            final(self).status == old(self).status,
            spec_applied_far_distance(old(self).profile, final(self).profile, resp@),
    {
        self.profile.far_distance = resp.config();
    }

    /// Store a decoded silent height response.
    pub fn apply_silent_height_response(&mut self, resp: Command<SilentHeight>)
        requires
            resp.wf(),
        ensures
            final(self).status == old(self).status,
            spec_applied_silent_height(old(self).profile, final(self).profile, resp@),
    {
        self.profile.silent_mode = resp.config();
    }

    /// Store a decoded mouse information response; a failed decode
    /// leaves the cache at its last known-good value.
    pub fn apply_mouse_info_response(&mut self, resp: Command<MouseInfo>) -> (r: Result<(), Error>)
        requires
            resp.wf(),
        ensures
            final(self).status == old(self).status,
            r is Ok <==> spec_mouse_info_config(resp@) is Some,
            r is Ok ==> spec_applied_mouse_info(old(self).profile, final(self).profile, resp@),
            r is Err ==> *final(self) == *old(self) && r->Err_0 == Error::InvalidEnumValue,
    {
        match resp.config() {
            Ok(info) => {
                self.profile.mouse_info = info;
                Ok(())
            },
            Err(e) => Err(e),
        }
    }

    /// Store a decoded LED settings response; a failed decode leaves
    /// the cache at its last known-good value.
    pub fn apply_dpi_led_response(&mut self, resp: Command<DpiLedSettings>) -> (r: Result<
        (),
        Error,
    >)
        requires
            resp.wf(),
        ensures
            final(self).status == old(self).status,
            r is Ok <==> spec_dpi_led_config(resp@) is Some,
            r is Ok ==> spec_applied_dpi_led(old(self).profile, final(self).profile, resp@),
            r is Err ==> *final(self) == *old(self) && r->Err_0 == Error::InvalidEnumValue,
    {
        match resp.config() {
            Ok(v) => {
                self.profile.dpi_led = v;
                Ok(())
            },
            Err(e) => Err(e),
        }
    }

    /// Store a decoded DPI pair response in the pair its address names;
    /// a failed decode leaves the cache at its last known-good value.
    pub fn apply_dpi_pair_response(&mut self, resp: Command<DpiPairSetting>) -> (r: Result<
        (),
        Error,
    >)
        requires
            resp.wf(),
        ensures
            final(self).status == old(self).status,
            r is Ok <==> spec_dpi_pair_config(resp@) is Some,
            r is Ok ==> spec_applied_dpi_pair(old(self).profile, final(self).profile, resp@),
            r is Err ==> *final(self) == *old(self),
    {
        match resp.config() {
            Ok(x) => {
                match x.pair {
                    Pair::Pair1 => {
                        self.profile.dpi_pair1 = x;
                    },
                    Pair::Pair2 => {
                        self.profile.dpi_pair2 = x;
                    },
                    Pair::Pair3 => {
                        self.profile.dpi_pair3 = x;
                    },
                    Pair::Pair4 => {
                        self.profile.dpi_pair4 = x;
                    },
                }
                Ok(())
            },
            Err(e) => Err(e),
        }
    }

    /// Store a decoded color pair response in the pair its address
    /// names; a failed decode leaves the cache at its last known-good
    /// value.
    pub fn apply_color_pair_response(&mut self, resp: Command<ColorPairSetting>) -> (r: Result<
        (),
        Error,
    >)
        requires
            resp.wf(),
        ensures
            final(self).status == old(self).status,
            r is Ok <==> spec_color_pair_config(resp@) is Some,
            r is Ok ==> spec_applied_color_pair(old(self).profile, final(self).profile, resp@),
            r is Err ==> *final(self) == *old(self),
    {
        match resp.config() {
            Ok(x) => {
                match x.pair {
                    Pair::Pair1 => {
                        self.profile.color_pair1 = x;
                    },
                    Pair::Pair2 => {
                        self.profile.color_pair2 = x;
                    },
                    Pair::Pair3 => {
                        self.profile.color_pair3 = x;
                    },
                    Pair::Pair4 => {
                        self.profile.color_pair4 = x;
                    },
                }
                Ok(())
            },
            Err(e) => Err(e),
        }
    }
}

impl MouseManager {
    /// Apply the response of one load phase to the cache and step to
    /// the next phase. A failed parse or decode aborts the pass and
    /// leaves the whole cache unchanged.
    pub fn load_apply(&mut self, phase: LoadPhase, resp: &[u8]) -> (r: Result<LoadPhase, Error>)
        requires
            phase != LoadPhase::Done,
        ensures
            final(self).status == old(self).status,
            r is Ok ==> r->Ok_0 == spec_load_next(phase),
            r is Err ==> *final(self) == *old(self),
            resp@.len() != 0x10 ==> r == Err::<LoadPhase, Error>(Error::LengthMismatch),
            resp@.len() == 0x10 ==> match phase {
                LoadPhase::MousePerf => r is Ok && spec_applied_mouse_perf(
                    old(self).profile,
                    final(self).profile,
                    resp@,
                ),
                LoadPhase::SensorPerf => r is Ok && spec_applied_sensor_perf(
                    old(self).profile,
                    final(self).profile,
                    resp@,
                ),
                LoadPhase::FarDistance => r is Ok && spec_applied_far_distance(
                    old(self).profile,
                    final(self).profile,
                    resp@,
                ),
                LoadPhase::Info => (r is Ok <==> spec_mouse_info_config(resp@) is Some) && (
                r is Ok ==> spec_applied_mouse_info(old(self).profile, final(self).profile, resp@))
                    && (r is Err ==> r->Err_0 == Error::InvalidEnumValue),
                LoadPhase::Dpi1 | LoadPhase::Dpi2 | LoadPhase::Dpi3 | LoadPhase::Dpi4 => (r
                    is Ok <==> spec_dpi_pair_config(resp@) is Some) && (r is Ok
                    ==> spec_applied_dpi_pair(old(self).profile, final(self).profile, resp@)),
                LoadPhase::Color1 | LoadPhase::Color2 | LoadPhase::Color3 | LoadPhase::Color4 => (
                r is Ok <==> spec_color_pair_config(resp@) is Some) && (r is Ok
                    ==> spec_applied_color_pair(old(self).profile, final(self).profile, resp@)),
                LoadPhase::Silent => r is Ok && spec_applied_silent_height(
                    old(self).profile,
                    final(self).profile,
                    resp@,
                ),
                LoadPhase::Led => (r is Ok <==> spec_dpi_led_config(resp@) is Some) && (r
                    is Ok ==> spec_applied_dpi_led(old(self).profile, final(self).profile, resp@))
                    && (r is Err ==> r->Err_0 == Error::InvalidEnumValue),
                LoadPhase::Done => false,
            },
    {
        match phase {
            LoadPhase::MousePerf => {
                let c = match Command::<MousePerfSettings>::try_from(resp) {
                    Ok(c) => c,
                    Err(e) => {
                        return Err(e);
                    },
                };
                self.apply_mouse_perf_response(c);
            },
            LoadPhase::SensorPerf => {
                let c = match Command::<SensorPerfSettings>::try_from(resp) {
                    Ok(c) => c,
                    Err(e) => {
                        return Err(e);
                    },
                };
                self.apply_sensor_perf_response(c);
            },
            LoadPhase::FarDistance => {
                let c = match Command::<FarDistanceMode>::try_from(resp) {
                    Ok(c) => c,
                    Err(e) => {
                        return Err(e);
                    },
                };
                self.apply_far_distance_response(c);
            },
            LoadPhase::Info => {
                let c = match Command::<MouseInfo>::try_from(resp) {
                    Ok(c) => c,
                    Err(e) => {
                        return Err(e);
                    },
                };
                match self.apply_mouse_info_response(c) {
                    Ok(()) => (),
                    Err(e) => {
                        return Err(e);
                    },
                }
            },
            LoadPhase::Dpi1 | LoadPhase::Dpi2 | LoadPhase::Dpi3 | LoadPhase::Dpi4 => {
                let c = match Command::<DpiPairSetting>::try_from(resp) {
                    Ok(c) => c,
                    Err(e) => {
                        return Err(e);
                    },
                };
                match self.apply_dpi_pair_response(c) {
                    Ok(()) => (),
                    Err(e) => {
                        return Err(e);
                    },
                }
            },
            LoadPhase::Color1 | LoadPhase::Color2 | LoadPhase::Color3 | LoadPhase::Color4 => {
                let c = match Command::<ColorPairSetting>::try_from(resp) {
                    Ok(c) => c,
                    Err(e) => {
                        return Err(e);
                    },
                };
                match self.apply_color_pair_response(c) {
                    Ok(()) => (),
                    Err(e) => {
                        return Err(e);
                    },
                }
            },
            LoadPhase::Silent => {
                let c = match Command::<SilentHeight>::try_from(resp) {
                    Ok(c) => c,
                    Err(e) => {
                        return Err(e);
                    },
                };
                self.apply_silent_height_response(c);
            },
            LoadPhase::Led => {
                let c = match Command::<DpiLedSettings>::try_from(resp) {
                    Ok(c) => c,
                    Err(e) => {
                        return Err(e);
                    },
                };
                match self.apply_dpi_led_response(c) {
                    Ok(()) => (),
                    Err(e) => {
                        return Err(e);
                    },
                }
            },
            LoadPhase::Done => {
                return Err(Error::LengthMismatch);
            },
        }
        Ok(Self::load_next(phase))
    }

    /// The phase that follows a successfully applied response.
    pub fn load_next(phase: LoadPhase) -> (r: LoadPhase)
        ensures
            r == spec_load_next(phase),
    {
        match phase {
            LoadPhase::MousePerf => LoadPhase::SensorPerf,
            LoadPhase::SensorPerf => LoadPhase::FarDistance,
            LoadPhase::FarDistance => LoadPhase::Info,
            LoadPhase::Info => LoadPhase::Dpi1,
            LoadPhase::Dpi1 => LoadPhase::Dpi2,
            LoadPhase::Dpi2 => LoadPhase::Dpi3,
            LoadPhase::Dpi3 => LoadPhase::Dpi4,
            LoadPhase::Dpi4 => LoadPhase::Color1,
            LoadPhase::Color1 => LoadPhase::Color2,
            LoadPhase::Color2 => LoadPhase::Color3,
            LoadPhase::Color3 => LoadPhase::Color4,
            LoadPhase::Color4 => LoadPhase::Silent,
            LoadPhase::Silent => LoadPhase::Led,
            LoadPhase::Led => LoadPhase::Done,
            LoadPhase::Done => LoadPhase::Done,
        }
    }
}

impl MouseManager {
    /// Build the mouse performance Set command: requested overrides
    /// merged over the cached values, fully checksummed. Requires the
    /// mouse to have last reported itself awake.
    pub fn set_mouse_performance_command(
        &self,
        stabilization_time: Option<Duration<Milliseconds>>,
        motion_sync: Option<bool>,
        close_led_time: Option<Duration<Decaseconds>>,
        linear_correction: Option<bool>,
        ripple_control: Option<bool>,
    ) -> (c: Command<MousePerfSettings>)
        requires
            self.online(),
        ensures
            c.wf(),
            c.checksum_ok(),
            header_is(
                c@,
                CommandId::SetEEPROM,
                spec_eeprom_address_code(EEPROMAddress::StabilizationTime),
                0xa,
            ),
            c@[0x5] == (if stabilization_time is Some {
                stabilization_time->0@
            } else {
                self.profile.mouse_perf.stabilization_time@
            }) % 0x100,
            c@[0x7] == spec_bool_byte(
                if motion_sync is Some {
                    motion_sync->0
                } else {
                    self.profile.mouse_perf.motion_sync
                },
            ),
            c@[0x9] == ((if close_led_time is Some {
                close_led_time->0@
            } else {
                self.profile.mouse_perf.close_led_time@
            }) / 10000) % 0x100,
            c@[0xb] == spec_bool_byte(
                if linear_correction is Some {
                    linear_correction->0
                } else {
                    self.profile.mouse_perf.linear_correction
                },
            ),
            c@[0xd] == spec_bool_byte(
                if ripple_control is Some {
                    ripple_control->0
                } else {
                    self.profile.mouse_perf.ripple_control
                },
            ),
            c@[0x6] == pair_complement(c@[0x5]),
            c@[0x8] == pair_complement(c@[0x7]),
            c@[0xa] == pair_complement(c@[0x9]),
            c@[0xc] == pair_complement(c@[0xb]),
            c@[0xe] == pair_complement(c@[0xd]),
    {
        let merged = self.profile.mouse_perf.set(
            stabilization_time,
            motion_sync,
            close_led_time,
            linear_correction,
            ripple_control,
        );
        merged.builder().build()
    }

    /// Build the sensor performance Set command: requested overrides
    /// merged over the cached values.
    pub fn set_sensor_performance_command(
        &self,
        move_close_led: Option<bool>,
        sensor_sleep: Option<bool>,
        sensor_sleep_time: Option<Duration<Decaseconds>>,
        performance_mode: Option<bool>,
        rf_tx_time: Option<Duration<Milliseconds>>,
    ) -> (c: Command<SensorPerfSettings>)
        requires
            self.online(),
        ensures
            c.wf(),
            c.checksum_ok(),
            header_is(
                c@,
                CommandId::SetEEPROM,
                spec_eeprom_address_code(EEPROMAddress::MoveCloseLights),
                0xa,
            ),
            c@[0x5] == spec_bool_byte(
                if move_close_led is Some {
                    move_close_led->0
                } else {
                    self.profile.sensor_perf.move_close_led
                },
            ),
            c@[0x7] == spec_bool_byte(
                if sensor_sleep is Some {
                    sensor_sleep->0
                } else {
                    self.profile.sensor_perf.sensor_sleep
                },
            ),
            c@[0x9] == ((if sensor_sleep_time is Some {
                sensor_sleep_time->0@
            } else {
                self.profile.sensor_perf.sensor_sleep_time@
            }) / 10000) % 0x100,
            c@[0xb] == spec_bool_byte(
                if performance_mode is Some {
                    performance_mode->0
                } else {
                    self.profile.sensor_perf.performance_mode
                },
            ),
            c@[0xd] == (if rf_tx_time is Some {
                rf_tx_time->0@
            } else {
                self.profile.sensor_perf.rf_tx_time@
            }) % 0x100,
            c@[0x6] == pair_complement(c@[0x5]),
            c@[0x8] == pair_complement(c@[0x7]),
            c@[0xa] == pair_complement(c@[0x9]),
            c@[0xc] == pair_complement(c@[0xb]),
            c@[0xe] == pair_complement(c@[0xd]),
    {
        let merged = self.profile.sensor_perf.set(
            move_close_led,
            sensor_sleep,
            sensor_sleep_time,
            performance_mode,
            rf_tx_time,
        );
        merged.builder().build()
    }

    /// Build the LED settings Set command: requested overrides merged
    /// over the cached values.
    pub fn set_dpi_led_command(
        &self,
        enabled: Option<bool>,
        mode: Option<LedEffectMode>,
        brightness: Option<LedBrightnessLevel>,
        rate: Option<LedBreathingRate>,
    ) -> (c: Command<DpiLedSettings>)
        requires
            self.online(),
        ensures
            c.wf(),
            c.checksum_ok(),
            header_is(
                c@,
                CommandId::SetEEPROM,
                spec_eeprom_address_code(EEPROMAddress::DpiRgbLightingEffects),
                0x8,
            ),
            c@[0x5] == spec_led_effect_mode_code(
                if mode is Some {
                    mode->0
                } else {
                    self.profile.dpi_led.mode
                },
            ),
            c@[0x7] == spec_led_brightness_code(
                if brightness is Some {
                    brightness->0
                } else {
                    self.profile.dpi_led.brightness
                },
            ),
            c@[0x9] == spec_led_breathing_rate_code(
                if rate is Some {
                    rate->0
                } else {
                    self.profile.dpi_led.breathing_rate
                },
            ),
            c@[0xb] == spec_bool_byte(
                if enabled is Some {
                    enabled->0
                } else {
                    self.profile.dpi_led.enabled
                },
            ),
            c@[0x6] == pair_complement(c@[0x5]),
            c@[0x8] == pair_complement(c@[0x7]),
            c@[0xa] == pair_complement(c@[0x9]),
            c@[0xc] == pair_complement(c@[0xb]),
            c@[0xd] == 0u8,
            c@[0xe] == 0u8,
    {
        let merged = self.profile.dpi_led.set(enabled, mode, brightness, rate);
        merged.builder().build()
    }

    /// Build the far-distance Set command for the requested flag.
    pub fn set_far_distance_command(&self, mode: bool) -> (c: Command<FarDistanceMode>)
        requires
            self.online(),
        ensures
            c.wf(),
            c.checksum_ok(),
            c@[0x0] == spec_command_id_code(CommandId::SetFarDistanceMode),
            c@[0x5] == spec_bool_byte(mode),
            forall|i: int| 0x1 <= i < 0xf && i != 0x5 ==> c@[i] == 0,
    {
        self.profile.far_distance_mode().builder().far_distance_mode(mode).build()
    }

    /// Build the silent height Set command for the requested mode.
    pub fn set_silent_height_command(&self, height: SilentHeightMode) -> (c: Command<SilentHeight>)
        requires
            self.online(),
        ensures
            c.wf(),
            c.checksum_ok(),
            header_is(
                c@,
                CommandId::SetEEPROM,
                spec_eeprom_address_code(EEPROMAddress::SilentHeight),
                0x2,
            ),
            c@[0x5] == spec_silent_height_code(height),
            c@[0x6] == pair_complement(spec_silent_height_code(height)),
            forall|i: int| 0x7 <= i < 0xf ==> c@[i] == 0,
    {
        self.profile.silent_height().builder().silent_height(height).build()
    }

    /// Build the color Set command for one preset: the requested color
    /// in the preset's slot, the cached color in the other slot of the
    /// same hardware pair.
    pub fn set_dpi_profile_color_command(&self, preset: Preset, color: Color) -> (c: Command<
        ColorPairSetting,
    >)
        requires
            self.online(),
        ensures
            c.wf(),
            c.checksum_ok(),
            header_is(
                c@,
                CommandId::SetEEPROM,
                spec_eeprom_address_code(
                    spec_pair_color_address(
                        spec_profile_color_pair(self.profile, spec_preset_pair(preset)).pair,
                    ),
                ),
                0x8,
            ),
            group_at(
                c@,
                0x5 + spec_slot_offset(spec_preset_slot(preset)),
                spec_color_encode(color),
            ),
            spec_preset_slot(preset) == Slot::First ==> group_at(
                c@,
                0x9,
                spec_color_encode(
                    spec_profile_color_pair(self.profile, spec_preset_pair(preset)).color_second,
                ),
            ),
            spec_preset_slot(preset) == Slot::Second ==> group_at(
                c@,
                0x5,
                spec_color_encode(
                    spec_profile_color_pair(self.profile, spec_preset_pair(preset)).color_first,
                ),
            ),
    {
        let pair = preset.pair();
        let slot = preset.slot();
        self.color_pair_setting_of(pair).builder().color(color, slot).build()
    }

    /// Build the DPI Set command for one preset: the requested DPI in
    /// the preset's slot, the cached DPI in the other slot of the same
    /// hardware pair. The requested and both cached DPI values must be
    /// encodable.
    pub fn set_dpi_profile_dpi_command(&self, preset: Preset, dpi: Dpi) -> (c: Command<
        DpiPairSetting,
    >)
        requires
            self.online(),
            spec_dpi_encodable(dpi.0),
            spec_dpi_encodable(
                spec_profile_dpi_pair(self.profile, spec_preset_pair(preset)).dpi_first.0,
            ),
            spec_dpi_encodable(
                spec_profile_dpi_pair(self.profile, spec_preset_pair(preset)).dpi_second.0,
            ),
        ensures
            c.wf(),
            c.checksum_ok(),
            header_is(
                c@,
                CommandId::SetEEPROM,
                spec_eeprom_address_code(
                    spec_pair_dpi_address(
                        spec_profile_dpi_pair(self.profile, spec_preset_pair(preset)).pair,
                    ),
                ),
                0x8,
            ),
            group_at(c@, 0x5 + spec_slot_offset(spec_preset_slot(preset)), spec_dpi_encode(dpi.0)),
            spec_preset_slot(preset) == Slot::First ==> group_at(
                c@,
                0x9,
                spec_dpi_encode(
                    spec_profile_dpi_pair(self.profile, spec_preset_pair(preset)).dpi_second.0,
                ),
            ),
            spec_preset_slot(preset) == Slot::Second ==> group_at(
                c@,
                0x5,
                spec_dpi_encode(
                    spec_profile_dpi_pair(self.profile, spec_preset_pair(preset)).dpi_first.0,
                ),
            ),
    {
        let pair = preset.pair();
        let slot = preset.slot();
        self.dpi_pair_setting_of(pair).builder().dpi(dpi, slot).build()
    }

    /// The preset slot a new DPI profile would occupy. Fails with
    /// `ProfileLimitReached`, touching nothing, exactly when the cache
    /// already counts the maximum of eight profiles.
    pub fn new_dpi_profile_slot(&self) -> (r: Result<Preset, Error>)
        ensures
            self.profile.mouse_info.num_profile >= 8 <==> r == Err::<Preset, Error>(
                Error::ProfileLimitReached,
            ),
            self.profile.mouse_info.num_profile < 8 ==> r is Ok,
            r is Ok ==> spec_preset_index(r->Ok_0) == self.profile.mouse_info.num_profile
                && spec_preset_from_index(self.profile.mouse_info.num_profile) == Some(r->Ok_0),
    {
        let count = self.profile.mouse_info.num_profile;
        if count >= 8 {
            return Err(Error::ProfileLimitReached);
        }
        match Preset::try_from(count) {
            Ok(p) => Ok(p),
            Err(_) => Err(Error::ProfileLimitReached),
        }
    }

    /// Build the mouse information Set command that increments the
    /// stored profile count, carrying the cached polling rate and
    /// active profile unchanged.
    pub fn increment_profile_count_command(&self) -> (c: Command<MouseInfo>)
        requires
            self.online(),
            self.profile.mouse_info.num_profile < 8,
        ensures
            c.wf(),
            c.checksum_ok(),
            header_is(
                c@,
                CommandId::SetEEPROM,
                spec_eeprom_address_code(EEPROMAddress::ReportRate),
                0x6,
            ),
            c@[0x5] == spec_polling_rate_code(self.profile.mouse_info.poll_rate),
            c@[0x7] == self.profile.mouse_info.num_profile + 1,
            c@[0x9] == self.profile.mouse_info.active_profile,
            c@[0x6] == pair_complement(c@[0x5]),
            c@[0x8] == pair_complement(c@[0x7]),
            c@[0xa] == pair_complement(c@[0x9]),
            forall|i: int| 0xb <= i < 0xf ==> c@[i] == 0,
    {
        self.profile.mouse_info().builder().num_profile(
            self.profile.mouse_info.num_profile + 1,
        ).build()
    }

    fn dpi_pair_setting_of(&self, pair: Pair) -> (r: &DpiPairSetting)
        ensures
            r == spec_profile_dpi_pair(self.profile, pair),
    {
        self.profile.dpi_pair_setting(pair)
    }

    fn color_pair_setting_of(&self, pair: Pair) -> (r: &ColorPairSetting)
        ensures
            r == spec_profile_color_pair(self.profile, pair),
    {
        self.profile.color_pair_setting(pair)
    }
}

/// While the last known mouse status is dormant the manager is not
/// online, and every Set/Get command producer requires `online`: a
/// dormant manager can issue no mutation, only the online poll.
pub proof fn lemma_dormant_blocks_commands(m: &MouseManager)
    requires
        m.status == MouseStatus::Dormant,
    ensures
        !m.online(),
{
}

} // verus!
