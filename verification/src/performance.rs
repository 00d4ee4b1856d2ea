//! Mouse and sensor performance domains: five byte-pair fields each,
//! stored from the stabilization-time and move-close-lights EEPROM
//! addresses.

use vstd::prelude::*;

use crate::command::{header_is, Command, CommandBuilder, CommandDescriptor};
use crate::checksum::pair_complement;
use crate::ids::{spec_eeprom_address_code, CommandId, EEPROMAddress};
use crate::types::{Decaseconds, Duration, Milliseconds, Seconds, TimeUnit};

verus! {

/// Encoding of a flag byte.
pub open spec fn spec_bool_byte(b: bool) -> u8 {
    if b {
        1u8
    } else {
        0u8
    }
}

fn bool_byte(b: bool) -> (r: u8)
    ensures
        r == spec_bool_byte(b),
{
    if b {
        1
    } else {
        0
    }
}

/// The mouse performance settings domain.
#[derive(Clone, Copy, Debug)]
pub struct MousePerfSettings {
    pub stabilization_time: Duration<Milliseconds>,
    pub motion_sync: bool,
    pub close_led_time: Duration<Decaseconds>,
    pub linear_correction: bool,
    pub ripple_control: bool,
}

/// `p` is exactly what the payload of `s` decodes to.
pub open spec fn spec_mouse_perf_matches(p: MousePerfSettings, s: Seq<u8>) -> bool {
    &&& p.stabilization_time@ == s[0x5]
    &&& p.motion_sync == (s[0x7] == 1u8)
    &&& p.close_led_time@ == s[0x9] * 10000
    &&& p.linear_correction == (s[0xb] == 1u8)
    &&& p.ripple_control == (s[0xd] == 1u8)
}

impl Default for MousePerfSettings {
    fn default() -> (r: Self)
        ensures
            r.stabilization_time@ == 0,
            r.motion_sync == false,
            r.close_led_time@ == 0,
            r.linear_correction == false,
            r.ripple_control == false,
    {
        MousePerfSettings {
            stabilization_time: Duration::<Milliseconds>::new(0),
            motion_sync: false,
            close_led_time: Duration::<Decaseconds>::new(0),
            linear_correction: false,
            ripple_control: false,
        }
    }
}

impl MousePerfSettings {
    /// The partial-update merge: a provided field overrides, an omitted
    /// field keeps this (cached) value.
    pub fn set(
        &self,
        stabilization_time: Option<Duration<Milliseconds>>,
        motion_sync: Option<bool>,
        close_led_time: Option<Duration<Decaseconds>>,
        linear_correction: Option<bool>,
        ripple_control: Option<bool>,
    ) -> (r: Self)
        ensures
            r.stabilization_time == if stabilization_time is Some {
                stabilization_time->0
            } else {
                self.stabilization_time
            },
            r.motion_sync == if motion_sync is Some {
                motion_sync->0
            } else {
                self.motion_sync
            },
            r.close_led_time == if close_led_time is Some {
                close_led_time->0
            } else {
                self.close_led_time
            },
            r.linear_correction == if linear_correction is Some {
                linear_correction->0
            } else {
                self.linear_correction
            },
            r.ripple_control == if ripple_control is Some {
                ripple_control->0
            } else {
                self.ripple_control
            },
    {
        MousePerfSettings {
            stabilization_time: match stabilization_time {
                Some(v) => v,
                None => self.stabilization_time,
            },
            motion_sync: match motion_sync {
                Some(v) => v,
                None => self.motion_sync,
            },
            close_led_time: match close_led_time {
                Some(v) => v,
                None => self.close_led_time,
            },
            linear_correction: match linear_correction {
                Some(v) => v,
                None => self.linear_correction,
            },
            ripple_control: match ripple_control {
                Some(v) => v,
                None => self.ripple_control,
            },
        }
    }

    pub fn stabilization_time(&self) -> (r: Duration<Milliseconds>)
        ensures
            r == self.stabilization_time,
    {
        self.stabilization_time
    }

    pub fn motion_sync(&self) -> (r: bool)
        ensures
            r == self.motion_sync,
    {
        self.motion_sync
    }

    /// The close-LED time expressed in seconds.
    pub fn close_led_time(&self) -> (r: Duration<Seconds>)
        ensures
            r@ == self.close_led_time@,
    {
        self.close_led_time.convert()
    }

    pub fn linear_correction(&self) -> (r: bool)
        ensures
            r == self.linear_correction,
    {
        self.linear_correction
    }

    pub fn ripple_control(&self) -> (r: bool)
        ensures
            r == self.ripple_control,
    {
        self.ripple_control
    }

    /// A builder for a Set command carrying the current values.
    pub fn builder(&self) -> (b: CommandBuilder<MousePerfSettings>)
        ensures
            b.command.wf(),
            b.command.checksum_ok(),
            header_is(
                b.command@,
                CommandId::SetEEPROM,
                spec_eeprom_address_code(EEPROMAddress::StabilizationTime),
                0xa,
            ),
            b.command@[0x5] == self.stabilization_time@ % 0x100,
            b.command@[0x7] == spec_bool_byte(self.motion_sync),
            b.command@[0x9] == (self.close_led_time@ / 10000) % 0x100,
            b.command@[0xb] == spec_bool_byte(self.linear_correction),
            b.command@[0xd] == spec_bool_byte(self.ripple_control),
            b.command@[0x6] == pair_complement(b.command@[0x5]),
            b.command@[0x8] == pair_complement(b.command@[0x7]),
            b.command@[0xa] == pair_complement(b.command@[0x9]),
            b.command@[0xc] == pair_complement(b.command@[0xb]),
            b.command@[0xe] == pair_complement(b.command@[0xd]),
    {
        Command::<MousePerfSettings>::builder().stabilization_time(
            self.stabilization_time,
        ).motion_sync(self.motion_sync).close_led_time(self.close_led_time).linear_correction(
            self.linear_correction,
        ).ripple_control(self.ripple_control)
    }
}

impl CommandDescriptor for MousePerfSettings {
    open spec fn spec_base_offset() -> usize {
        0x5
    }

    open spec fn spec_report_id() -> u8 {
        0x8
    }

    open spec fn spec_cmd_len() -> usize {
        0x10
    }

    proof fn layout_properties() {
    }

    fn base_offset() -> usize {
        0x5
    }

    fn report_id() -> u8 {
        0x8
    }

    fn cmd_len() -> usize {
        0x10
    }
}

impl Command<MousePerfSettings> {
    /// A GetEEPROM query for the mouse performance domain, ten valid
    /// data bytes.
    pub fn query() -> (c: Self)
        ensures
            c.wf(),
            c.checksum_ok(),
            header_is(
                c@,
                CommandId::GetEEPROM,
                spec_eeprom_address_code(EEPROMAddress::StabilizationTime),
                0xa,
            ),
            forall|i: int| 0x5 <= i < 0xf ==> c@[i] == 0,
    {
        let mut instance = Command::<MousePerfSettings>::default();
        instance.set_id(CommandId::GetEEPROM);
        instance.set_eeprom_address(EEPROMAddress::StabilizationTime);
        instance.set_valid_data_len(0xa);
        instance
    }

    /// A builder around a SetEEPROM command for the mouse performance
    /// domain.
    pub fn builder() -> (b: CommandBuilder<MousePerfSettings>)
        ensures
            b.command.wf(),
            b.command.checksum_ok(),
            header_is(
                b.command@,
                CommandId::SetEEPROM,
                spec_eeprom_address_code(EEPROMAddress::StabilizationTime),
                0xa,
            ),
            forall|i: int| 0x5 <= i < 0xf ==> b.command@[i] == 0,
    {
        let mut command = Command::<MousePerfSettings>::default();
        command.set_id(CommandId::SetEEPROM);
        command.set_eeprom_address(EEPROMAddress::StabilizationTime);
        command.set_valid_data_len(0xa);
        CommandBuilder::new(command)
    }

    /// Decode a response into the mouse performance domain.
    pub fn config(self) -> (r: MousePerfSettings)
        requires
            self.wf(),
        ensures
            spec_mouse_perf_matches(r, self@),
    {
        MousePerfSettings {
            stabilization_time: Duration::<Milliseconds>::new(self.data_byte(0x0) as u32),
            motion_sync: self.data_byte(0x2) == 0x1,
            close_led_time: Duration::<Decaseconds>::new(self.data_byte(0x4) as u32),
            linear_correction: self.data_byte(0x6) == 0x1,
            ripple_control: self.data_byte(0x8) == 0x1,
        }
    }

    /// Write the stabilization time byte pair, the low byte of the
    /// stored milliseconds, and recompute the checksum.
    pub fn set_stabilization_time(&mut self, value: Duration<Milliseconds>)
        requires
            old(self).wf(),
        ensures
            final(self).wf(),
            final(self).checksum_ok(),
            final(self)@[0x5] == value@ % 0x100,
            final(self)@[0x6] == pair_complement(((value@ % 0x100) as u8)),
            forall|i: int| 0 <= i < 0xf && i != 0x5 && i != 0x6 ==> final(self)@[i] == old(self)@[i],
    {
        let byte = (value.as_unit() % 0x100) as u8;
        let r = self.set_data_byte_with_checksum(byte, 0x0);
        proof {
            assert(r is Ok);
        }
    }

    /// Write the motion synchronization flag byte pair.
    pub fn set_motion_sync(&mut self, value: bool)
        requires
            old(self).wf(),
        ensures
            final(self).wf(),
            final(self).checksum_ok(),
            final(self)@[0x7] == spec_bool_byte(value),
            final(self)@[0x8] == pair_complement(spec_bool_byte(value)),
            forall|i: int| 0 <= i < 0xf && i != 0x7 && i != 0x8 ==> final(self)@[i] == old(self)@[i],
    {
        let r = self.set_data_byte_with_checksum(bool_byte(value), 0x2);
        proof {
            assert(r is Ok);
        }
    }

    /// Write the close-LED time byte pair, the low byte of the stored
    /// decaseconds.
    pub fn set_close_led_time(&mut self, value: Duration<Decaseconds>)
        requires
            old(self).wf(),
        ensures
            final(self).wf(),
            final(self).checksum_ok(),
            final(self)@[0x9] == (value@ / 10000) % 0x100,
            final(self)@[0xa] == pair_complement((((value@ / 10000) % 0x100) as u8)),
            forall|i: int| 0 <= i < 0xf && i != 0x9 && i != 0xa ==> final(self)@[i] == old(self)@[i],
    {
        let byte = (value.as_unit() % 0x100) as u8;
        let r = self.set_data_byte_with_checksum(byte, 0x4);
        proof {
            assert(r is Ok);
        }
    }

    /// Write the linear correction flag byte pair.
    pub fn set_linear_correction(&mut self, value: bool)
        requires
            old(self).wf(),
        ensures
            final(self).wf(),
            final(self).checksum_ok(),
            final(self)@[0xb] == spec_bool_byte(value),
            final(self)@[0xc] == pair_complement(spec_bool_byte(value)),
            forall|i: int| 0 <= i < 0xf && i != 0xb && i != 0xc ==> final(self)@[i] == old(self)@[i],
    {
        let r = self.set_data_byte_with_checksum(bool_byte(value), 0x6);
        proof {
            assert(r is Ok);
        }
    }

    /// Write the ripple control flag byte pair.
    pub fn set_ripple_control(&mut self, value: bool)
        requires
            old(self).wf(),
        ensures
            final(self).wf(),
            final(self).checksum_ok(),
            final(self)@[0xd] == spec_bool_byte(value),
            final(self)@[0xe] == pair_complement(spec_bool_byte(value)),
            forall|i: int| 0 <= i < 0xf && i != 0xd && i != 0xe ==> final(self)@[i] == old(self)@[i],
    {
        let r = self.set_data_byte_with_checksum(bool_byte(value), 0x8);
        proof {
            assert(r is Ok);
        }
    }
}

impl CommandBuilder<MousePerfSettings> {
    /// Chain the stabilization time into the command being built; the
    /// stored magnitude is written as its low byte of milliseconds.
    pub fn stabilization_time(self, value: Duration<Milliseconds>) -> (r: Self)
        requires
            self.command.wf(),
        ensures
            r.command.wf(),
            r.command.checksum_ok(),
            r.command@[0x5] == value@ % 0x100,
            r.command@[0x6] == pair_complement((value@ % 0x100) as u8),
            forall|i: int|
                0 <= i < 0xf && i != 0x5 && i != 0x6 ==> r.command@[i] == self.command@[i],
    {
        let mut builder = self;
        builder.command.set_stabilization_time(value);
        builder
    }

    /// Chain the motion synchronization flag into the command.
    pub fn motion_sync(self, value: bool) -> (r: Self)
        requires
            self.command.wf(),
        ensures
            r.command.wf(),
            r.command.checksum_ok(),
            r.command@[0x7] == spec_bool_byte(value),
            r.command@[0x8] == pair_complement(spec_bool_byte(value)),
            forall|i: int|
                0 <= i < 0xf && i != 0x7 && i != 0x8 ==> r.command@[i] == self.command@[i],
    {
        let mut builder = self;
        builder.command.set_motion_sync(value);
        builder
    }

    /// Chain the close-LED time into the command, written as its low
    /// byte of decaseconds.
    pub fn close_led_time(self, value: Duration<Decaseconds>) -> (r: Self)
        requires
            self.command.wf(),
        ensures
            r.command.wf(),
            r.command.checksum_ok(),
            r.command@[0x9] == (value@ / 10000) % 0x100,
            r.command@[0xa] == pair_complement(((value@ / 10000) % 0x100) as u8),
            forall|i: int|
                0 <= i < 0xf && i != 0x9 && i != 0xa ==> r.command@[i] == self.command@[i],
    {
        let mut builder = self;
        builder.command.set_close_led_time(value);
        builder
    }

    /// Chain the linear correction flag into the command.
    pub fn linear_correction(self, value: bool) -> (r: Self)
        requires
            self.command.wf(),
        ensures
            r.command.wf(),
            r.command.checksum_ok(),
            r.command@[0xb] == spec_bool_byte(value),
            r.command@[0xc] == pair_complement(spec_bool_byte(value)),
            forall|i: int|
                0 <= i < 0xf && i != 0xb && i != 0xc ==> r.command@[i] == self.command@[i],
    {
        let mut builder = self;
        builder.command.set_linear_correction(value);
        builder
    }

    /// Chain the ripple control flag into the command.
    pub fn ripple_control(self, value: bool) -> (r: Self)
        requires
            self.command.wf(),
        ensures
            r.command.wf(),
            r.command.checksum_ok(),
            r.command@[0xd] == spec_bool_byte(value),
            r.command@[0xe] == pair_complement(spec_bool_byte(value)),
            forall|i: int|
                0 <= i < 0xf && i != 0xd && i != 0xe ==> r.command@[i] == self.command@[i],
    {
        let mut builder = self;
        builder.command.set_ripple_control(value);
        builder
    }
}

/// The sensor performance settings domain.
#[derive(Clone, Copy, Debug)]
pub struct SensorPerfSettings {
    pub move_close_led: bool,
    pub sensor_sleep: bool,
    pub sensor_sleep_time: Duration<Decaseconds>,
    pub performance_mode: bool,
    pub rf_tx_time: Duration<Milliseconds>,
}

/// `p` is exactly what the payload of `s` decodes to.
pub open spec fn spec_sensor_perf_matches(p: SensorPerfSettings, s: Seq<u8>) -> bool {
    &&& p.move_close_led == (s[0x5] == 1u8)
    &&& p.sensor_sleep == (s[0x7] == 1u8)
    &&& p.sensor_sleep_time@ == s[0x9] * 10000
    &&& p.performance_mode == (s[0xb] == 1u8)
    &&& p.rf_tx_time@ == s[0xd]
}

impl Default for SensorPerfSettings {
    fn default() -> (r: Self)
        ensures
            r.move_close_led == false,
            r.sensor_sleep == false,
            r.sensor_sleep_time@ == 0,
            r.performance_mode == false,
            r.rf_tx_time@ == 0,
    {
        SensorPerfSettings {
            move_close_led: false,
            sensor_sleep: false,
            sensor_sleep_time: Duration::<Decaseconds>::new(0),
            performance_mode: false,
            rf_tx_time: Duration::<Milliseconds>::new(0),
        }
    }
}

impl SensorPerfSettings {
    /// The partial-update merge: a provided field overrides, an omitted
    /// field keeps this (cached) value.
    pub fn set(
        &self,
        move_close_led: Option<bool>,
        sensor_sleep: Option<bool>,
        sensor_sleep_time: Option<Duration<Decaseconds>>,
        performance_mode: Option<bool>,
        rf_tx_time: Option<Duration<Milliseconds>>,
    ) -> (r: Self)
        ensures
            r.move_close_led == if move_close_led is Some {
                move_close_led->0
            } else {
                self.move_close_led
            },
            r.sensor_sleep == if sensor_sleep is Some {
                sensor_sleep->0
            } else {
                self.sensor_sleep
            },
            r.sensor_sleep_time == if sensor_sleep_time is Some {
                sensor_sleep_time->0
            } else {
                self.sensor_sleep_time
            },
            r.performance_mode == if performance_mode is Some {
                performance_mode->0
            } else {
                self.performance_mode
            },
            r.rf_tx_time == if rf_tx_time is Some {
                rf_tx_time->0
            } else {
                self.rf_tx_time
            },
    {
        SensorPerfSettings {
            move_close_led: match move_close_led {
                Some(v) => v,
                None => self.move_close_led,
            },
            sensor_sleep: match sensor_sleep {
                Some(v) => v,
                None => self.sensor_sleep,
            },
            sensor_sleep_time: match sensor_sleep_time {
                Some(v) => v,
                None => self.sensor_sleep_time,
            },
            performance_mode: match performance_mode {
                Some(v) => v,
                None => self.performance_mode,
            },
            rf_tx_time: match rf_tx_time {
                Some(v) => v,
                None => self.rf_tx_time,
            },
        }
    }

    pub fn move_close_led(&self) -> (r: bool)
        ensures
            r == self.move_close_led,
    {
        self.move_close_led
    }

    pub fn sensor_sleep(&self) -> (r: bool)
        ensures
            r == self.sensor_sleep,
    {
        self.sensor_sleep
    }

    /// The sensor sleep time expressed in seconds.
    pub fn sensor_sleep_time(&self) -> (r: Duration<Seconds>)
        ensures
            r@ == self.sensor_sleep_time@,
    {
        self.sensor_sleep_time.convert()
    }

    pub fn performance_mode(&self) -> (r: bool)
        ensures
            r == self.performance_mode,
    {
        self.performance_mode
    }

    pub fn rf_tx_time(&self) -> (r: Duration<Milliseconds>)
        ensures
            r == self.rf_tx_time,
    {
        self.rf_tx_time
    }

    /// A builder for a Set command carrying the current values.
    pub fn builder(&self) -> (b: CommandBuilder<SensorPerfSettings>)
        ensures
            b.command.wf(),
            b.command.checksum_ok(),
            header_is(
                b.command@,
                CommandId::SetEEPROM,
                spec_eeprom_address_code(EEPROMAddress::MoveCloseLights),
                0xa,
            ),
            b.command@[0x5] == spec_bool_byte(self.move_close_led),
            b.command@[0x7] == spec_bool_byte(self.sensor_sleep),
            b.command@[0x9] == (self.sensor_sleep_time@ / 10000) % 0x100,
            b.command@[0xb] == spec_bool_byte(self.performance_mode),
            b.command@[0xd] == self.rf_tx_time@ % 0x100,
            b.command@[0x6] == pair_complement(b.command@[0x5]),
            b.command@[0x8] == pair_complement(b.command@[0x7]),
            b.command@[0xa] == pair_complement(b.command@[0x9]),
            b.command@[0xc] == pair_complement(b.command@[0xb]),
            b.command@[0xe] == pair_complement(b.command@[0xd]),
    {
        Command::<SensorPerfSettings>::builder().move_close_led(self.move_close_led).sensor_sleep(
            self.sensor_sleep,
        ).sensor_sleep_time(self.sensor_sleep_time).performance_mode(
            self.performance_mode,
        ).rf_tx_time(self.rf_tx_time)
    }
}

impl CommandDescriptor for SensorPerfSettings {
    open spec fn spec_base_offset() -> usize {
        0x5
    }

    open spec fn spec_report_id() -> u8 {
        0x8
    }

    open spec fn spec_cmd_len() -> usize {
        0x10
    }

    proof fn layout_properties() {
    }

    fn base_offset() -> usize {
        0x5
    }

    fn report_id() -> u8 {
        0x8
    }

    fn cmd_len() -> usize {
        0x10
    }
}

impl Command<SensorPerfSettings> {
    /// A GetEEPROM query for the sensor performance domain, ten valid
    /// data bytes.
    pub fn query() -> (c: Self)
        ensures
            c.wf(),
            c.checksum_ok(),
            header_is(
                c@,
                CommandId::GetEEPROM,
                spec_eeprom_address_code(EEPROMAddress::MoveCloseLights),
                0xa,
            ),
            forall|i: int| 0x5 <= i < 0xf ==> c@[i] == 0,
    {
        let mut instance = Command::<SensorPerfSettings>::default();
        instance.set_id(CommandId::GetEEPROM);
        instance.set_eeprom_address(EEPROMAddress::MoveCloseLights);
        instance.set_valid_data_len(0xa);
        instance
    }

    /// A builder around a SetEEPROM command for the sensor performance
    /// domain.
    pub fn builder() -> (b: CommandBuilder<SensorPerfSettings>)
        ensures
            b.command.wf(),
            b.command.checksum_ok(),
            header_is(
                b.command@,
                CommandId::SetEEPROM,
                spec_eeprom_address_code(EEPROMAddress::MoveCloseLights),
                0xa,
            ),
            forall|i: int| 0x5 <= i < 0xf ==> b.command@[i] == 0,
    {
        let mut command = Command::<SensorPerfSettings>::default();
        command.set_id(CommandId::SetEEPROM);
        command.set_eeprom_address(EEPROMAddress::MoveCloseLights);
        command.set_valid_data_len(0xa);
        CommandBuilder::new(command)
    }

    /// Decode a response into the sensor performance domain.
    pub fn config(self) -> (r: SensorPerfSettings)
        requires
            self.wf(),
        ensures
            spec_sensor_perf_matches(r, self@),
    {
        SensorPerfSettings {
            move_close_led: self.data_byte(0x0) == 0x1,
            sensor_sleep: self.data_byte(0x2) == 0x1,
            sensor_sleep_time: Duration::<Decaseconds>::new(self.data_byte(0x4) as u32),
            performance_mode: self.data_byte(0x6) == 0x1,
            rf_tx_time: Duration::<Milliseconds>::new(self.data_byte(0x8) as u32),
        }
    }

    /// Write the move-close-LED flag byte pair.
    pub fn set_move_close_led(&mut self, value: bool)
        requires
            old(self).wf(),
        ensures
            final(self).wf(),
            final(self).checksum_ok(),
            final(self)@[0x5] == spec_bool_byte(value),
            final(self)@[0x6] == pair_complement(spec_bool_byte(value)),
            forall|i: int| 0 <= i < 0xf && i != 0x5 && i != 0x6 ==> final(self)@[i] == old(self)@[i],
    {
        let r = self.set_data_byte_with_checksum(bool_byte(value), 0x0);
        proof {
            assert(r is Ok);
        }
    }

    /// Write the sensor sleep flag byte pair.
    pub fn set_sensor_sleep(&mut self, value: bool)
        requires
            old(self).wf(),
        ensures
            final(self).wf(),
            final(self).checksum_ok(),
            final(self)@[0x7] == spec_bool_byte(value),
            final(self)@[0x8] == pair_complement(spec_bool_byte(value)),
            forall|i: int| 0 <= i < 0xf && i != 0x7 && i != 0x8 ==> final(self)@[i] == old(self)@[i],
    {
        let r = self.set_data_byte_with_checksum(bool_byte(value), 0x2);
        proof {
            assert(r is Ok);
        }
    }

    /// Write the sensor sleep time byte pair, the low byte of the
    /// stored decaseconds.
    pub fn set_sensor_sleep_time(&mut self, value: Duration<Decaseconds>)
        requires
            old(self).wf(),
        ensures
            final(self).wf(),
            final(self).checksum_ok(),
            final(self)@[0x9] == (value@ / 10000) % 0x100,
            final(self)@[0xa] == pair_complement((((value@ / 10000) % 0x100) as u8)),
            forall|i: int| 0 <= i < 0xf && i != 0x9 && i != 0xa ==> final(self)@[i] == old(self)@[i],
    {
        let byte = (value.as_unit() % 0x100) as u8;
        let r = self.set_data_byte_with_checksum(byte, 0x4);
        proof {
            assert(r is Ok);
        }
    }

    /// Write the performance mode flag byte pair.
    pub fn set_performance_mode(&mut self, value: bool)
        requires
            old(self).wf(),
        ensures
            final(self).wf(),
            final(self).checksum_ok(),
            final(self)@[0xb] == spec_bool_byte(value),
            final(self)@[0xc] == pair_complement(spec_bool_byte(value)),
            forall|i: int| 0 <= i < 0xf && i != 0xb && i != 0xc ==> final(self)@[i] == old(self)@[i],
    {
        let r = self.set_data_byte_with_checksum(bool_byte(value), 0x6);
        proof {
            assert(r is Ok);
        }
    }

    /// Write the RF transmission time byte pair, the low byte of the
    /// stored milliseconds.
    pub fn set_rf_tx_time(&mut self, value: Duration<Milliseconds>)
        requires
            old(self).wf(),
        ensures
            final(self).wf(),
            final(self).checksum_ok(),
            final(self)@[0xd] == value@ % 0x100,
            final(self)@[0xe] == pair_complement(((value@ % 0x100) as u8)),
            forall|i: int| 0 <= i < 0xf && i != 0xd && i != 0xe ==> final(self)@[i] == old(self)@[i],
    {
        let byte = (value.as_unit() % 0x100) as u8;
        let r = self.set_data_byte_with_checksum(byte, 0x8);
        proof {
            assert(r is Ok);
        }
    }
}

impl CommandBuilder<SensorPerfSettings> {
    /// Chain the move-close-LED flag into the command being built.
    pub fn move_close_led(self, value: bool) -> (r: Self)
        requires
            self.command.wf(),
        ensures
            r.command.wf(),
            r.command.checksum_ok(),
            r.command@[0x5] == spec_bool_byte(value),
            r.command@[0x6] == pair_complement(spec_bool_byte(value)),
            forall|i: int|
                0 <= i < 0xf && i != 0x5 && i != 0x6 ==> r.command@[i] == self.command@[i],
    {
        let mut builder = self;
        builder.command.set_move_close_led(value);
        builder
    }

    /// Chain the sensor sleep flag into the command.
    pub fn sensor_sleep(self, value: bool) -> (r: Self)
        requires
            self.command.wf(),
        ensures
            r.command.wf(),
            r.command.checksum_ok(),
            r.command@[0x7] == spec_bool_byte(value),
            r.command@[0x8] == pair_complement(spec_bool_byte(value)),
            forall|i: int|
                0 <= i < 0xf && i != 0x7 && i != 0x8 ==> r.command@[i] == self.command@[i],
    {
        let mut builder = self;
        builder.command.set_sensor_sleep(value);
        builder
    }

    /// Chain the sensor sleep time into the command, written as its low
    /// byte of decaseconds.
    pub fn sensor_sleep_time(self, value: Duration<Decaseconds>) -> (r: Self)
        requires
            self.command.wf(),
        ensures
            r.command.wf(),
            r.command.checksum_ok(),
            r.command@[0x9] == (value@ / 10000) % 0x100,
            r.command@[0xa] == pair_complement(((value@ / 10000) % 0x100) as u8),
            forall|i: int|
                0 <= i < 0xf && i != 0x9 && i != 0xa ==> r.command@[i] == self.command@[i],
    {
        let mut builder = self;
        builder.command.set_sensor_sleep_time(value);
        builder
    }

    /// Chain the performance mode flag into the command.
    pub fn performance_mode(self, value: bool) -> (r: Self)
        requires
            self.command.wf(),
        ensures
            r.command.wf(),
            r.command.checksum_ok(),
            r.command@[0xb] == spec_bool_byte(value),
            r.command@[0xc] == pair_complement(spec_bool_byte(value)),
            forall|i: int|
                0 <= i < 0xf && i != 0xb && i != 0xc ==> r.command@[i] == self.command@[i],
    {
        let mut builder = self;
        builder.command.set_performance_mode(value);
        builder
    }

    /// Chain the RF transmission time into the command, written as its
    /// low byte of milliseconds.
    pub fn rf_tx_time(self, value: Duration<Milliseconds>) -> (r: Self)
        requires
            self.command.wf(),
        ensures
            r.command.wf(),
            r.command.checksum_ok(),
            r.command@[0xd] == value@ % 0x100,
            r.command@[0xe] == pair_complement((value@ % 0x100) as u8),
            forall|i: int|
                0 <= i < 0xf && i != 0xd && i != 0xe ==> r.command@[i] == self.command@[i],
    {
        let mut builder = self;
        builder.command.set_rf_tx_time(value);
        builder
    }
}

} // verus!
