use vstd::prelude::*;

verus! {

/// The sound registers NR10..NR14, NR21..NR24, NR30..NR34 and NR52, with the
/// latches that CPU writes leave for the sound unit to consume.
#[derive(Clone, Copy, PartialEq, Eq, Structural, Debug)]
pub struct ApuRegisters {
    pub nr10: u8,
    pub nr11: u8,
    pub nr12: u8,
    pub nr13: u8,
    pub nr14: u8,
    pub nr21: u8,
    pub nr22: u8,
    pub nr23: u8,
    pub nr24: u8,
    pub nr30: u8,
    pub nr31: u8,
    pub nr32: u8,
    pub nr33: u8,
    pub nr34: u8,
    pub nr52: u8,
    pub ch1_to_trigger: bool,
    pub ch2_to_trigger: bool,
    pub ch3_to_trigger: bool,
    pub ch1_period_to_update: bool,
    pub ch2_period_to_update: bool,
    pub ch3_period_to_update: bool,
    pub ch1_length_timer_to_update: bool,
    pub ch2_length_timer_to_update: bool,
    pub ch3_length_timer_to_update: bool,
}

impl ApuRegisters {
    pub open spec fn master_audio_is_enabled_spec(self) -> bool {
        self.nr52 >= 128
    }

    pub open spec fn new_spec() -> ApuRegisters {
        ApuRegisters {
            nr10: 0,
            nr11: 0,
            nr12: 0,
            nr13: 0,
            nr14: 0,
            nr21: 0,
            nr22: 0,
            nr23: 0,
            nr24: 0,
            nr30: 0,
            nr31: 0,
            nr32: 0,
            nr33: 0,
            nr34: 0,
            nr52: 0,
            ch1_to_trigger: false,
            ch2_to_trigger: false,
            ch3_to_trigger: false,
            ch1_period_to_update: false,
            ch2_period_to_update: false,
            ch3_period_to_update: false,
            ch1_length_timer_to_update: false,
            ch2_length_timer_to_update: false,
            ch3_length_timer_to_update: false,
        }
    }

    /// All registers zero and no latch set.
    pub fn new() -> (r: ApuRegisters)
        ensures
            r == ApuRegisters::new_spec(),
    {
        ApuRegisters {
            nr10: 0,
            nr11: 0,
            nr12: 0,
            nr13: 0,
            nr14: 0,
            nr21: 0,
            nr22: 0,
            nr23: 0,
            nr24: 0,
            nr30: 0,
            nr31: 0,
            nr32: 0,
            nr33: 0,
            nr34: 0,
            nr52: 0,
            ch1_to_trigger: false,
            ch2_to_trigger: false,
            ch3_to_trigger: false,
            ch1_period_to_update: false,
            ch2_period_to_update: false,
            ch3_period_to_update: false,
            ch1_length_timer_to_update: false,
            ch2_length_timer_to_update: false,
            ch3_length_timer_to_update: false,
        }
    }


    /// The register that an I/O address names, if it is one of these.
    pub open spec fn spec_register_read(self, address: u16) -> Option<u8> {
        if address == 0xFF10 {
            Some(self.nr10)
        } else if address == 0xFF11 {
            Some(self.nr11)
        } else if address == 0xFF12 {
            Some(self.nr12)
        } else if address == 0xFF13 {
            Some(self.nr13)
        } else if address == 0xFF14 {
            Some(self.nr14)
        } else if address == 0xFF16 {
            Some(self.nr21)
        } else if address == 0xFF17 {
            Some(self.nr22)
        } else if address == 0xFF18 {
            Some(self.nr23)
        } else if address == 0xFF19 {
            Some(self.nr24)
        } else if address == 0xFF1A {
            Some(self.nr30)
        } else if address == 0xFF1B {
            Some(self.nr31)
        } else if address == 0xFF1C {
            Some(self.nr32)
        } else if address == 0xFF1D {
            Some(self.nr33)
        } else if address == 0xFF1E {
            Some(self.nr34)
        } else if address == 0xFF26 {
            Some(self.nr52)
        } else {
            None
        }
    }

    /// The registers after a CPU write to an I/O address, if it names one of them.
    pub open spec fn spec_register_write(self, address: u16, value: u8) -> Option<ApuRegisters> {
        if address == 0xFF10 {
            Some(ApuRegisters { nr10: value, ..self })
        } else if address == 0xFF11 {
            Some(ApuRegisters { nr11: value, ch1_length_timer_to_update: true, ..self })
        } else if address == 0xFF12 {
            Some(ApuRegisters { nr12: value, ..self })
        } else if address == 0xFF13 {
            Some(ApuRegisters { nr13: value, ch1_period_to_update: true, ..self })
        } else if address == 0xFF14 {
            Some(ApuRegisters {
                nr14: value,
                ch1_to_trigger: self.ch1_to_trigger || value >= 128,
                ch1_period_to_update: true,
                ..self
            })
        } else if address == 0xFF16 {
            Some(ApuRegisters { nr21: value, ch2_length_timer_to_update: true, ..self })
        } else if address == 0xFF17 {
            Some(ApuRegisters { nr22: value, ..self })
        } else if address == 0xFF18 {
            Some(ApuRegisters { nr23: value, ch2_period_to_update: true, ..self })
        } else if address == 0xFF19 {
            Some(ApuRegisters {
                nr24: value,
                ch2_to_trigger: self.ch2_to_trigger || value >= 128,
                ch2_period_to_update: true,
                ..self
            })
        } else if address == 0xFF1A {
            Some(ApuRegisters { nr30: value, ..self })
        } else if address == 0xFF1B {
            Some(ApuRegisters { nr31: value, ch3_length_timer_to_update: true, ..self })
        } else if address == 0xFF1C {
            Some(ApuRegisters { nr32: value, ..self })
        } else if address == 0xFF1D {
            Some(ApuRegisters { nr33: value, ch3_period_to_update: true, ..self })
        } else if address == 0xFF1E {
            Some(ApuRegisters {
                nr34: value,
                ch3_to_trigger: self.ch3_to_trigger || value >= 128,
                ch3_period_to_update: true,
                ..self
            })
        } else if address == 0xFF26 {
            Some(ApuRegisters { nr52: value, ..self })
        } else {
            None
        }
    }

    pub fn read_register(&self, address: u16) -> (r: Option<u8>)
        ensures
            r == self.spec_register_read(address),
    {
        if address == 0xFF10 {
            Some(self.read_nr10())
        } else if address == 0xFF11 {
            Some(self.read_nr11())
        } else if address == 0xFF12 {
            Some(self.read_nr12())
        } else if address == 0xFF13 {
            Some(self.read_nr13())
        } else if address == 0xFF14 {
            Some(self.read_nr14())
        } else if address == 0xFF16 {
            Some(self.read_nr21())
        } else if address == 0xFF17 {
            Some(self.read_nr22())
        } else if address == 0xFF18 {
            Some(self.read_nr23())
        } else if address == 0xFF19 {
            Some(self.read_nr24())
        } else if address == 0xFF1A {
            Some(self.read_nr30())
        } else if address == 0xFF1B {
            Some(self.read_nr31())
        } else if address == 0xFF1C {
            Some(self.read_nr32())
        } else if address == 0xFF1D {
            Some(self.read_nr33())
        } else if address == 0xFF1E {
            Some(self.read_nr34())
        } else if address == 0xFF26 {
            Some(self.read_nr52())
        } else {
            None
        }
    }

    /// Routes a CPU write to the register it names; false if it names none.
    pub fn write_register(&mut self, address: u16, value: u8) -> (handled: bool)
        ensures
            handled == old(self).spec_register_write(address, value) is Some,
            handled ==> Some(*final(self)) == old(self).spec_register_write(address, value),
            !handled ==> *final(self) == *old(self),
    {
        if address == 0xFF10 {
            self.write_nr10(value);
        } else if address == 0xFF11 {
            self.write_nr11(value);
        } else if address == 0xFF12 {
            self.write_nr12(value);
        } else if address == 0xFF13 {
            self.write_nr13(value);
        } else if address == 0xFF14 {
            self.write_nr14(value);
        } else if address == 0xFF16 {
            self.write_nr21(value);
        } else if address == 0xFF17 {
            self.write_nr22(value);
        } else if address == 0xFF18 {
            self.write_nr23(value);
        } else if address == 0xFF19 {
            self.write_nr24(value);
        } else if address == 0xFF1A {
            self.write_nr30(value);
        } else if address == 0xFF1B {
            self.write_nr31(value);
        } else if address == 0xFF1C {
            self.write_nr32(value);
        } else if address == 0xFF1D {
            self.write_nr33(value);
        } else if address == 0xFF1E {
            self.write_nr34(value);
        } else if address == 0xFF26 {
            self.write_nr52(value);
        } else {
            return false;
        }
        true
    }

    pub fn read_nr10(&self) -> (r: u8)
        ensures
            r == self.nr10,
    {
        self.nr10
    }

    pub fn read_nr11(&self) -> (r: u8)
        ensures
            r == self.nr11,
    {
        self.nr11
    }

    pub fn read_nr12(&self) -> (r: u8)
        ensures
            r == self.nr12,
    {
        self.nr12
    }

    pub fn read_nr13(&self) -> (r: u8)
        ensures
            r == self.nr13,
    {
        self.nr13
    }

    pub fn read_nr14(&self) -> (r: u8)
        ensures
            r == self.nr14,
    {
        self.nr14
    }

    pub fn read_nr21(&self) -> (r: u8)
        ensures
            r == self.nr21,
    {
        self.nr21
    }

    pub fn read_nr22(&self) -> (r: u8)
        ensures
            r == self.nr22,
    {
        self.nr22
    }

    pub fn read_nr23(&self) -> (r: u8)
        ensures
            r == self.nr23,
    {
        self.nr23
    }

    pub fn read_nr24(&self) -> (r: u8)
        ensures
            r == self.nr24,
    {
        self.nr24
    }

    pub fn read_nr30(&self) -> (r: u8)
        ensures
            r == self.nr30,
    {
        self.nr30
    }

    pub fn read_nr31(&self) -> (r: u8)
        ensures
            r == self.nr31,
    {
        self.nr31
    }

    pub fn read_nr32(&self) -> (r: u8)
        ensures
            r == self.nr32,
    {
        self.nr32
    }

    pub fn read_nr33(&self) -> (r: u8)
        ensures
            r == self.nr33,
    {
        self.nr33
    }

    pub fn read_nr34(&self) -> (r: u8)
        ensures
            r == self.nr34,
    {
        self.nr34
    }

    pub fn read_nr52(&self) -> (r: u8)
        ensures
            r == self.nr52,
    {
        self.nr52
    }

    pub fn write_nr10(&mut self, value: u8)
        ensures
            *final(self) == (ApuRegisters { nr10: value, ..*old(self) }),
    {
        self.nr10 = value;
    }

    /// Also marks the channel's length for reloading.
    pub fn write_nr11(&mut self, value: u8)
        ensures
            *final(self) == (ApuRegisters { nr11: value, ch1_length_timer_to_update: true, ..*old(self) }),
    {
        self.nr11 = value;
        self.ch1_length_timer_to_update = true;
    }

    pub fn write_nr12(&mut self, value: u8)
        ensures
            *final(self) == (ApuRegisters { nr12: value, ..*old(self) }),
    {
        self.nr12 = value;
    }

    /// Also marks the channel's period for reloading.
    pub fn write_nr13(&mut self, value: u8)
        ensures
            *final(self) == (ApuRegisters { nr13: value, ch1_period_to_update: true, ..*old(self) }),
    {
        self.nr13 = value;
        self.ch1_period_to_update = true;
    }

    /// Bit 7 marks the channel to be triggered (a pending trigger stays marked);
    /// the period is marked for reloading.
    pub fn write_nr14(&mut self, value: u8)
        ensures
            *final(self) == (ApuRegisters {
                nr14: value,
                ch1_to_trigger: old(self).ch1_to_trigger || value >= 128,
                ch1_period_to_update: true,
                ..*old(self)
            }),
    {
        self.nr14 = value;
        self.ch1_to_trigger = self.ch1_to_trigger || value >= 128;
        self.ch1_period_to_update = true;
    }

    /// Also marks the channel's length for reloading.
    pub fn write_nr21(&mut self, value: u8)
        ensures
            *final(self) == (ApuRegisters { nr21: value, ch2_length_timer_to_update: true, ..*old(self) }),
    {
        self.nr21 = value;
        self.ch2_length_timer_to_update = true;
    }

    pub fn write_nr22(&mut self, value: u8)
        ensures
            *final(self) == (ApuRegisters { nr22: value, ..*old(self) }),
    {
        self.nr22 = value;
    }

    /// Also marks the channel's period for reloading.
    pub fn write_nr23(&mut self, value: u8)
        ensures
            *final(self) == (ApuRegisters { nr23: value, ch2_period_to_update: true, ..*old(self) }),
    {
        self.nr23 = value;
        self.ch2_period_to_update = true;
    }

    /// Bit 7 marks the channel to be triggered (a pending trigger stays marked);
    /// the period is marked for reloading.
    pub fn write_nr24(&mut self, value: u8)
        ensures
            *final(self) == (ApuRegisters {
                nr24: value,
                ch2_to_trigger: old(self).ch2_to_trigger || value >= 128,
                ch2_period_to_update: true,
                ..*old(self)
            }),
    {
        self.nr24 = value;
        self.ch2_to_trigger = self.ch2_to_trigger || value >= 128;
        self.ch2_period_to_update = true;
    }

    pub fn write_nr30(&mut self, value: u8)
        ensures
            *final(self) == (ApuRegisters { nr30: value, ..*old(self) }),
    {
        self.nr30 = value;
    }

    /// Also marks the channel's length for reloading.
    pub fn write_nr31(&mut self, value: u8)
        ensures
            *final(self) == (ApuRegisters { nr31: value, ch3_length_timer_to_update: true, ..*old(self) }),
    {
        self.nr31 = value;
        self.ch3_length_timer_to_update = true;
    }

    pub fn write_nr32(&mut self, value: u8)
        ensures
            *final(self) == (ApuRegisters { nr32: value, ..*old(self) }),
    {
        self.nr32 = value;
    }

    /// Also marks the channel's period for reloading.
    pub fn write_nr33(&mut self, value: u8)
        ensures
            *final(self) == (ApuRegisters { nr33: value, ch3_period_to_update: true, ..*old(self) }),
    {
        self.nr33 = value;
        self.ch3_period_to_update = true;
    }

    /// Bit 7 marks the channel to be triggered (a pending trigger stays marked);
    /// the period is marked for reloading.
    pub fn write_nr34(&mut self, value: u8)
        ensures
            *final(self) == (ApuRegisters {
                nr34: value,
                ch3_to_trigger: old(self).ch3_to_trigger || value >= 128,
                ch3_period_to_update: true,
                ..*old(self)
            }),
    {
        self.nr34 = value;
        self.ch3_to_trigger = self.ch3_to_trigger || value >= 128;
        self.ch3_period_to_update = true;
    }

    pub fn write_nr52(&mut self, value: u8)
        ensures
            *final(self) == (ApuRegisters { nr52: value, ..*old(self) }),
    {
        self.nr52 = value;
    }

    /// NR52 bit 7.
    pub fn master_audio_is_enabled(&self) -> (r: bool)
        ensures
            r == (self.nr52 >= 128),
    {
        self.nr52 >= 128
    }

    pub fn channel_1_sweep_pace(&self) -> (r: u8)
        ensures
            r == (self.nr10 / 16) % 8,
    {
        (self.nr10 / 16) % 8
    }

    pub fn channel_1_sweep_increasing(&self) -> (r: bool)
        ensures
            r == ((self.nr10 / 8) % 2 == 1),
    {
        (self.nr10 / 8) % 2 == 1
    }

    pub fn channel_1_sweep_step(&self) -> (r: u8)
        ensures
            r == self.nr10 % 8,
    {
        self.nr10 % 8
    }

    pub fn channel_1_length_timer(&self) -> (r: u8)
        ensures
            r == self.nr11 % 64,
    {
        self.nr11 % 64
    }

    pub fn channel_1_initial_volume(&self) -> (r: u8)
        ensures
            r == self.nr12 / 16,
    {
        self.nr12 / 16
    }

    pub fn channel_1_volume_sweep_pace(&self) -> (r: u8)
        ensures
            r == self.nr12 % 8,
    {
        self.nr12 % 8
    }

    pub fn channel_1_volume_sweep_increasing(&self) -> (r: bool)
        ensures
            r == ((self.nr12 / 8) % 2 == 1),
    {
        (self.nr12 / 8) % 2 == 1
    }

    /// The 11-bit period: NR13 below the low three bits of NR14.
    pub fn channel_1_period(&self) -> (r: u16)
        ensures
            r == self.nr13 as int + 256 * (self.nr14 % 8),
            r < 2048,
    {
        self.nr13 as u16 + 256 * (self.nr14 % 8) as u16
    }

    pub fn channel_1_length_timer_enabled(&self) -> (r: bool)
        ensures
            r == ((self.nr14 / 64) % 2 == 1),
    {
        (self.nr14 / 64) % 2 == 1
    }

    pub fn channel_2_length_timer(&self) -> (r: u8)
        ensures
            r == self.nr21 % 64,
    {
        self.nr21 % 64
    }

    pub fn channel_2_initial_volume(&self) -> (r: u8)
        ensures
            r == self.nr22 / 16,
    {
        self.nr22 / 16
    }

    pub fn channel_2_volume_sweep_pace(&self) -> (r: u8)
        ensures
            r == self.nr22 % 8,
    {
        self.nr22 % 8
    }

    pub fn channel_2_volume_sweep_increasing(&self) -> (r: bool)
        ensures
            r == ((self.nr22 / 8) % 2 == 1),
    {
        (self.nr22 / 8) % 2 == 1
    }

    /// The 11-bit period: NR23 below the low three bits of NR24.
    pub fn channel_2_period(&self) -> (r: u16)
        ensures
            r == self.nr23 as int + 256 * (self.nr24 % 8),
            r < 2048,
    {
        self.nr23 as u16 + 256 * (self.nr24 % 8) as u16
    }

    pub fn channel_2_length_timer_enabled(&self) -> (r: bool)
        ensures
            r == ((self.nr24 / 64) % 2 == 1),
    {
        (self.nr24 / 64) % 2 == 1
    }

    pub fn channel_3_dac_enabled(&self) -> (r: bool)
        ensures
            r == (self.nr30 >= 128),
    {
        self.nr30 >= 128
    }

    pub fn channel_3_length_timer(&self) -> (r: u8)
        ensures
            r == self.nr31 % 64,
    {
        self.nr31 % 64
    }

    pub fn channel_3_output_level(&self) -> (r: u8)
        ensures
            r == (self.nr32 / 32) % 4,
    {
        (self.nr32 / 32) % 4
    }

    /// The 11-bit period: NR33 below the low three bits of NR34.
    pub fn channel_3_period(&self) -> (r: u16)
        ensures
            r == self.nr33 as int + 256 * (self.nr34 % 8),
            r < 2048,
    {
        self.nr33 as u16 + 256 * (self.nr34 % 8) as u16
    }

    pub fn channel_3_length_timer_enabled(&self) -> (r: bool)
        ensures
            r == ((self.nr34 / 64) % 2 == 1),
    {
        (self.nr34 / 64) % 2 == 1
    }

}

} // verus!
