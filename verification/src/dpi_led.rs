//! The DPI LED lighting domain: effect mode, brightness, breathing rate
//! and the enable flag, four byte pairs at the RGB lighting effects
//! EEPROM address.

use vstd::prelude::*;

use crate::command::{header_is, Command, CommandBuilder, CommandDescriptor};
use crate::checksum::pair_complement;
use crate::ids::{spec_eeprom_address_code, CommandId, EEPROMAddress};
use crate::performance::spec_bool_byte;
use crate::Error;

verus! {

/// The LED effect modes the firmware understands.
#[derive(Clone, Copy, Debug, PartialEq, Eq, Structural)]
pub enum LedEffectMode {
    Static,
    Breathing,
}

pub open spec fn spec_led_effect_mode_code(m: LedEffectMode) -> u8 {
    match m {
        LedEffectMode::Static => 0x1,
        LedEffectMode::Breathing => 0x2,
    }
}

pub open spec fn spec_led_effect_mode_from(v: u8) -> Option<LedEffectMode> {
    match v {
        0x1 => Some(LedEffectMode::Static),
        0x2 => Some(LedEffectMode::Breathing),
        _ => None,
    }
}

impl LedEffectMode {
    pub fn code(&self) -> (r: u8)
        ensures
            r == spec_led_effect_mode_code(*self),
    {
        match self {
            LedEffectMode::Static => 0x1,
            LedEffectMode::Breathing => 0x2,
        }
    }

    /// Decode an on-wire effect mode; an unknown code is a recoverable
    /// error, never a process abort.
    pub fn try_from(value: u8) -> (r: Result<LedEffectMode, Error>)
        ensures
            match r {
                Ok(m) => spec_led_effect_mode_from(value) == Some(m) && spec_led_effect_mode_code(
                    m,
                ) == value,
                Err(e) => e == Error::InvalidEnumValue && spec_led_effect_mode_from(
                    value,
                ) is None,
            },
    {
        match value {
            0x1 => Ok(LedEffectMode::Static),
            0x2 => Ok(LedEffectMode::Breathing),
            _ => Err(Error::InvalidEnumValue),
        }
    }
}

/// The LED breathing rates the firmware understands.
#[derive(Clone, Copy, Debug, PartialEq, Eq, Structural)]
pub enum LedBreathingRate {
    Slow,
    Medium,
    Fast,
}

pub open spec fn spec_led_breathing_rate_code(m: LedBreathingRate) -> u8 {
    match m {
        LedBreathingRate::Slow => 0x1,
        LedBreathingRate::Medium => 0x3,
        LedBreathingRate::Fast => 0x5,
    }
}

pub open spec fn spec_led_breathing_rate_from(v: u8) -> Option<LedBreathingRate> {
    match v {
        0x1 => Some(LedBreathingRate::Slow),
        0x3 => Some(LedBreathingRate::Medium),
        0x5 => Some(LedBreathingRate::Fast),
        _ => None,
    }
}

impl LedBreathingRate {
    pub fn code(&self) -> (r: u8)
        ensures
            r == spec_led_breathing_rate_code(*self),
    {
        match self {
            LedBreathingRate::Slow => 0x1,
            LedBreathingRate::Medium => 0x3,
            LedBreathingRate::Fast => 0x5,
        }
    }

    /// Decode an on-wire breathing rate; an unknown code is a
    /// recoverable error.
    pub fn try_from(value: u8) -> (r: Result<LedBreathingRate, Error>)
        ensures
            match r {
                Ok(m) => spec_led_breathing_rate_from(value) == Some(m)
                    && spec_led_breathing_rate_code(m) == value,
                Err(e) => e == Error::InvalidEnumValue && spec_led_breathing_rate_from(
                    value,
                ) is None,
            },
    {
        match value {
            0x1 => Ok(LedBreathingRate::Slow),
            0x3 => Ok(LedBreathingRate::Medium),
            0x5 => Ok(LedBreathingRate::Fast),
            _ => Err(Error::InvalidEnumValue),
        }
    }
}

/// The LED brightness levels the firmware understands.
#[derive(Clone, Copy, Debug, PartialEq, Eq, Structural)]
pub enum LedBrightnessLevel {
    Low,
    Medium,
    High,
}

pub open spec fn spec_led_brightness_code(m: LedBrightnessLevel) -> u8 {
    match m {
        LedBrightnessLevel::Low => 0x10,
        LedBrightnessLevel::Medium => 0x80,
        LedBrightnessLevel::High => 0xff,
    }
}

pub open spec fn spec_led_brightness_from(v: u8) -> Option<LedBrightnessLevel> {
    match v {
        0x10 => Some(LedBrightnessLevel::Low),
        0x80 => Some(LedBrightnessLevel::Medium),
        0xff => Some(LedBrightnessLevel::High),
        _ => None,
    }
}

impl LedBrightnessLevel {
    pub fn code(&self) -> (r: u8)
        ensures
            r == spec_led_brightness_code(*self),
    {
        match self {
            LedBrightnessLevel::Low => 0x10,
            LedBrightnessLevel::Medium => 0x80,
            LedBrightnessLevel::High => 0xff,
        }
    }

    /// Decode an on-wire brightness level; an unknown code is a
    /// recoverable error.
    pub fn try_from(value: u8) -> (r: Result<LedBrightnessLevel, Error>)
        ensures
            match r {
                Ok(m) => spec_led_brightness_from(value) == Some(m) && spec_led_brightness_code(m)
                    == value,
                Err(e) => e == Error::InvalidEnumValue && spec_led_brightness_from(
                    value,
                ) is None,
            },
    {
        match value {
            0x10 => Ok(LedBrightnessLevel::Low),
            0x80 => Ok(LedBrightnessLevel::Medium),
            0xff => Ok(LedBrightnessLevel::High),
            _ => Err(Error::InvalidEnumValue),
        }
    }
}

/// The DPI LED settings domain.
#[derive(Clone, Copy, Debug, PartialEq, Eq, Structural)]
pub struct DpiLedSettings {
    pub mode: LedEffectMode,
    pub brightness: LedBrightnessLevel,
    pub breathing_rate: LedBreathingRate,
    pub enabled: bool,
}

/// `v` is exactly what the payload of `s` decodes to.
pub open spec fn spec_dpi_led_matches(v: DpiLedSettings, s: Seq<u8>) -> bool {
    &&& spec_led_effect_mode_from(s[0x5]) == Some(v.mode)
    &&& spec_led_brightness_from(s[0x7]) == Some(v.brightness)
    &&& spec_led_breathing_rate_from(s[0x9]) == Some(v.breathing_rate)
    &&& v.enabled == (s[0xb] == 1u8)
}

/// What an LED settings response decodes to, if all three enumerated
/// bytes name known values.
pub open spec fn spec_dpi_led_config(s: Seq<u8>) -> Option<DpiLedSettings> {
    if spec_led_effect_mode_from(s[0x5]) is Some && spec_led_brightness_from(s[0x7]) is Some
        && spec_led_breathing_rate_from(s[0x9]) is Some {
        Some(DpiLedSettings {
            mode: spec_led_effect_mode_from(s[0x5])->Some_0,
            brightness: spec_led_brightness_from(s[0x7])->Some_0,
            breathing_rate: spec_led_breathing_rate_from(s[0x9])->Some_0,
            enabled: s[0xb] == 1u8,
        })
    } else {
        None
    }
}

impl Default for DpiLedSettings {
    fn default() -> (r: Self)
        ensures
            r == (DpiLedSettings {
                mode: LedEffectMode::Static,
                brightness: LedBrightnessLevel::Medium,
                breathing_rate: LedBreathingRate::Medium,
                enabled: true,
            }),
    {
        DpiLedSettings {
            mode: LedEffectMode::Static,
            brightness: LedBrightnessLevel::Medium,
            breathing_rate: LedBreathingRate::Medium,
            enabled: true,
        }
    }
}

impl DpiLedSettings {
    /// The partial-update merge: a provided field overrides, an omitted
    /// field keeps this (cached) value.
    pub fn set(
        &self,
        enabled: Option<bool>,
        mode: Option<LedEffectMode>,
        brightness: Option<LedBrightnessLevel>,
        breathing_rate: Option<LedBreathingRate>,
    ) -> (r: DpiLedSettings)
        ensures
            r.mode == if mode is Some {
                mode->0
            } else {
                self.mode
            },
            r.brightness == if brightness is Some {
                brightness->0
            } else {
                self.brightness
            },
            r.breathing_rate == if breathing_rate is Some {
                breathing_rate->0
            } else {
                self.breathing_rate
            },
            r.enabled == if enabled is Some {
                enabled->0
            } else {
                self.enabled
            },
    {
        DpiLedSettings {
            mode: match mode {
                Some(v) => v,
                None => self.mode,
            },
            brightness: match brightness {
                Some(v) => v,
                None => self.brightness,
            },
            breathing_rate: match breathing_rate {
                Some(v) => v,
                None => self.breathing_rate,
            },
            enabled: match enabled {
                Some(v) => v,
                None => self.enabled,
            },
        }
    }

    pub fn mode(&self) -> (r: LedEffectMode)
        ensures
            r == self.mode,
    {
        self.mode
    }

    pub fn brightness(&self) -> (r: LedBrightnessLevel)
        ensures
            r == self.brightness,
    {
        self.brightness
    }

    pub fn breathing_rate(&self) -> (r: LedBreathingRate)
        ensures
            r == self.breathing_rate,
    {
        self.breathing_rate
    }

    pub fn enabled(&self) -> (r: bool)
        ensures
            r == self.enabled,
    {
        self.enabled
    }

    /// A builder for a Set command carrying the current values.
    pub fn builder(&self) -> (b: CommandBuilder<DpiLedSettings>)
        ensures
            b.command.wf(),
            b.command.checksum_ok(),
            header_is(
                b.command@,
                CommandId::SetEEPROM,
                spec_eeprom_address_code(EEPROMAddress::DpiRgbLightingEffects),
                0x8,
            ),
            b.command@[0x5] == spec_led_effect_mode_code(self.mode),
            b.command@[0x7] == spec_led_brightness_code(self.brightness),
            b.command@[0x9] == spec_led_breathing_rate_code(self.breathing_rate),
            b.command@[0xb] == spec_bool_byte(self.enabled),
            b.command@[0x6] == pair_complement(b.command@[0x5]),
            b.command@[0x8] == pair_complement(b.command@[0x7]),
            b.command@[0xa] == pair_complement(b.command@[0x9]),
            b.command@[0xc] == pair_complement(b.command@[0xb]),
            b.command@[0xd] == 0u8,
            b.command@[0xe] == 0u8,
    {
        Command::<DpiLedSettings>::builder().breathing_rate(self.breathing_rate).brightness_level(
            self.brightness,
        ).effect_mode(self.mode).enabled(self.enabled)
    }
}

impl CommandDescriptor for DpiLedSettings {
    open spec fn spec_base_offset() -> usize {
        0x5
    }

    open spec fn spec_report_id() -> u8 {
        0x8
    }

    open spec fn spec_cmd_len() -> usize {
        0x10
    }

    proof fn layout_properties() {
    }

    fn base_offset() -> usize {
        0x5
    }

    fn report_id() -> u8 {
        0x8
    }

    fn cmd_len() -> usize {
        0x10
    }
}

impl Command<DpiLedSettings> {
    /// A GetEEPROM query for the LED settings domain, eight valid data
    /// bytes.
    pub fn query() -> (c: Self)
        ensures
            c.wf(),
            c.checksum_ok(),
            header_is(
                c@,
                CommandId::GetEEPROM,
                spec_eeprom_address_code(EEPROMAddress::DpiRgbLightingEffects),
                0x8,
            ),
            forall|i: int| 0x5 <= i < 0xf ==> c@[i] == 0,
    {
        let mut command = Command::<DpiLedSettings>::default();
        command.set_id(CommandId::GetEEPROM);
        command.set_eeprom_address(EEPROMAddress::DpiRgbLightingEffects);
        command.set_valid_data_len(0x8);
        command
    }

    /// A builder around a SetEEPROM command for the LED settings
    /// domain.
    pub fn builder() -> (b: CommandBuilder<DpiLedSettings>)
        ensures
            b.command.wf(),
            b.command.checksum_ok(),
            header_is(
                b.command@,
                CommandId::SetEEPROM,
                spec_eeprom_address_code(EEPROMAddress::DpiRgbLightingEffects),
                0x8,
            ),
            forall|i: int| 0x5 <= i < 0xf ==> b.command@[i] == 0,
    {
        let mut command = Command::<DpiLedSettings>::default();
        command.set_id(CommandId::SetEEPROM);
        command.set_eeprom_address(EEPROMAddress::DpiRgbLightingEffects);
        command.set_valid_data_len(0x8);
        CommandBuilder::new(command)
    }

    /// Decode a response into the LED settings domain; an unknown code
    /// in any of the three enumerated bytes is a recoverable error.
    pub fn config(self) -> (r: Result<DpiLedSettings, Error>)
        requires
            self.wf(),
        ensures
            r is Ok <==> spec_dpi_led_config(self@) is Some,
            r is Ok ==> r->Ok_0 == spec_dpi_led_config(self@)->Some_0,
            match r {
                Ok(v) => spec_dpi_led_matches(v, self@),
                Err(e) => e == Error::InvalidEnumValue && (spec_led_effect_mode_from(
                    self@[0x5],
                ) is None || spec_led_brightness_from(self@[0x7]) is None
                    || spec_led_breathing_rate_from(self@[0x9]) is None),
            },
    {
        let mode = match LedEffectMode::try_from(self.data_byte(0x0)) {
            Ok(m) => m,
            Err(e) => {
                return Err(e);
            },
        };
        let brightness = match LedBrightnessLevel::try_from(self.data_byte(0x2)) {
            Ok(m) => m,
            Err(e) => {
                return Err(e);
            },
        };
        let breathing_rate = match LedBreathingRate::try_from(self.data_byte(0x4)) {
            Ok(m) => m,
            Err(e) => {
                return Err(e);
            },
        };
        Ok(DpiLedSettings { mode, brightness, breathing_rate, enabled: self.data_byte(0x6) == 0x1 })
    }

    /// Write the effect mode byte pair and recompute the checksum.
    pub fn set_effect_mode(&mut self, value: LedEffectMode)
        requires
            old(self).wf(),
        ensures
            final(self).wf(),
            final(self).checksum_ok(),
            final(self)@[0x5] == spec_led_effect_mode_code(value),
            final(self)@[0x6] == pair_complement(spec_led_effect_mode_code(value)),
            forall|i: int| 0 <= i < 0xf && i != 0x5 && i != 0x6 ==> final(self)@[i] == old(self)@[i],
    {
        let r = self.set_data_byte_with_checksum(value.code(), 0x0);
        proof {
            assert(r is Ok);
        }
    }

    /// Write the brightness byte pair and recompute the checksum.
    pub fn set_brightness_level(&mut self, value: LedBrightnessLevel)
        requires
            old(self).wf(),
        ensures
            final(self).wf(),
            final(self).checksum_ok(),
            final(self)@[0x7] == spec_led_brightness_code(value),
            final(self)@[0x8] == pair_complement(spec_led_brightness_code(value)),
            forall|i: int| 0 <= i < 0xf && i != 0x7 && i != 0x8 ==> final(self)@[i] == old(self)@[i],
    {
        let r = self.set_data_byte_with_checksum(value.code(), 0x2);
        proof {
            assert(r is Ok);
        }
    }

    /// Write the breathing rate byte pair and recompute the checksum.
    pub fn set_breathing_rate(&mut self, value: LedBreathingRate)
        requires
            old(self).wf(),
        ensures
            final(self).wf(),
            final(self).checksum_ok(),
            final(self)@[0x9] == spec_led_breathing_rate_code(value),
            final(self)@[0xa] == pair_complement(spec_led_breathing_rate_code(value)),
            forall|i: int| 0 <= i < 0xf && i != 0x9 && i != 0xa ==> final(self)@[i] == old(self)@[i],
    {
        let r = self.set_data_byte_with_checksum(value.code(), 0x4);
        proof {
            assert(r is Ok);
        }
    }

    /// Write the enable flag byte pair and recompute the checksum.
    pub fn set_enabled(&mut self, value: bool)
        requires
            old(self).wf(),
        ensures
            final(self).wf(),
            final(self).checksum_ok(),
            final(self)@[0xb] == spec_bool_byte(value),
            final(self)@[0xc] == pair_complement(spec_bool_byte(value)),
            forall|i: int| 0 <= i < 0xf && i != 0xb && i != 0xc ==> final(self)@[i] == old(self)@[i],
    {
        let byte: u8 = if value {
            1
        } else {
            0
        };
        let r = self.set_data_byte_with_checksum(byte, 0x6);
        proof {
            assert(r is Ok);
        }
    }
}

impl CommandBuilder<DpiLedSettings> {
    /// Chain the effect mode into the command being built.
    pub fn effect_mode(self, value: LedEffectMode) -> (r: Self)
        requires
            self.command.wf(),
        ensures
            r.command.wf(),
            r.command.checksum_ok(),
            r.command@[0x5] == spec_led_effect_mode_code(value),
            r.command@[0x6] == pair_complement(spec_led_effect_mode_code(value)),
            forall|i: int|
                0 <= i < 0xf && i != 0x5 && i != 0x6 ==> r.command@[i] == self.command@[i],
    {
        let mut builder = self;
        builder.command.set_effect_mode(value);
        builder
    }

    /// Chain the brightness level into the command being built.
    pub fn brightness_level(self, value: LedBrightnessLevel) -> (r: Self)
        requires
            self.command.wf(),
        ensures
            r.command.wf(),
            r.command.checksum_ok(),
            r.command@[0x7] == spec_led_brightness_code(value),
            r.command@[0x8] == pair_complement(spec_led_brightness_code(value)),
            forall|i: int|
                0 <= i < 0xf && i != 0x7 && i != 0x8 ==> r.command@[i] == self.command@[i],
    {
        let mut builder = self;
        builder.command.set_brightness_level(value);
        builder
    }

    /// Chain the breathing rate into the command being built.
    pub fn breathing_rate(self, value: LedBreathingRate) -> (r: Self)
        requires
            self.command.wf(),
        ensures
            r.command.wf(),
            r.command.checksum_ok(),
            r.command@[0x9] == spec_led_breathing_rate_code(value),
            r.command@[0xa] == pair_complement(spec_led_breathing_rate_code(value)),
            forall|i: int|
                0 <= i < 0xf && i != 0x9 && i != 0xa ==> r.command@[i] == self.command@[i],
    {
        let mut builder = self;
        builder.command.set_breathing_rate(value);
        builder
    }

    /// Chain the enable flag into the command being built.
    pub fn enabled(self, value: bool) -> (r: Self)
        requires
            self.command.wf(),
        ensures
            r.command.wf(),
            r.command.checksum_ok(),
            r.command@[0xb] == spec_bool_byte(value),
            r.command@[0xc] == pair_complement(spec_bool_byte(value)),
            forall|i: int|
                0 <= i < 0xf && i != 0xb && i != 0xc ==> r.command@[i] == self.command@[i],
    {
        let mut builder = self;
        builder.command.set_enabled(value);
        builder
    }
}

} // verus!
