use vstd::prelude::*;

verus! {

/// Which half of the button matrix the joypad register exposes.
#[derive(Clone, Copy, PartialEq, Eq, Structural, Debug)]
pub enum JoypadMode {
    DPad,
    Buttons,
    Unselected,
}

/// The joypad register. `button_values` holds one bit per button, 0 = pressed:
/// bit 0 a, 1 b, 2 select, 3 start, 4 right, 5 left, 6 up, 7 down.
#[derive(Clone, Copy, PartialEq, Eq, Structural, Debug)]
pub struct Joypad {
    pub button_values: u8,
    pub mode: JoypadMode,
}

/// What a read of the joypad register returns.
pub open spec fn spec_joypad_read(j: Joypad) -> u8 {
    match j.mode {
        JoypadMode::Buttons => (32 + j.button_values % 16) as u8,
        JoypadMode::DPad => (16 + j.button_values / 16) as u8,
        JoypadMode::Unselected => 0x0F,
    }
}

/// The mode selected by a write of `value`, if its high nibble names one.
pub open spec fn spec_mode_of_write(value: u8) -> Option<JoypadMode> {
    if value / 16 == 0 {
        Some(JoypadMode::Unselected)
    } else if value / 16 == 1 {
        Some(JoypadMode::DPad)
    } else if value / 16 == 2 {
        Some(JoypadMode::Buttons)
    } else {
        None
    }
}

impl Joypad {
    pub fn new() -> (r: Joypad)
        ensures
            r.button_values == 0xFF,
            r.mode == JoypadMode::Buttons,
    {
        Joypad { button_values: 0xFF, mode: JoypadMode::Buttons }
    }

    pub fn set_mode(&mut self, mode: JoypadMode)
        ensures
            *final(self) == (Joypad { mode, ..*old(self) }),
    {
        self.mode = mode;
    }

    /// Buttons: bit 5 set and the low nibble of the state; d-pad: bit 4 set and
    /// the high nibble; nothing selected: 0x0F.
    pub fn read(&self) -> (r: u8)
        ensures
            r == spec_joypad_read(*self),
    {
        match self.mode {
            JoypadMode::Buttons => 32 + self.button_values % 16,
            JoypadMode::DPad => 16 + self.button_values / 16,
            JoypadMode::Unselected => 0x0F,
        }
    }

    /// A CPU write to the joypad register: its high nibble selects the mode,
    /// and a nibble that names no mode leaves it as it was.
    pub fn write_select(&mut self, value: u8)
        ensures
            final(self).button_values == old(self).button_values,
            final(self).mode == match spec_mode_of_write(value) {
                Some(m) => m,
                None => old(self).mode,
            },
    {
        let select = value / 16;
        if select == 0 {
            self.set_mode(JoypadMode::Unselected);
        } else if select == 1 {
            self.set_mode(JoypadMode::DPad);
        } else if select == 2 {
            self.set_mode(JoypadMode::Buttons);
        }
    }
}

} // verus!
