use vstd::prelude::*;

verus! {

/// Which bit of the 16-bit divider the timer watches, for TAC's low two bits.
pub open spec fn spec_control_divisor(control: u8) -> u16 {
    if control % 4 == 0 {
        512
    } else if control % 4 == 1 {
        8
    } else if control % 4 == 2 {
        32
    } else {
        128
    }
}

/// Bit `d` (given as a power of two) of `x`.
pub open spec fn spec_bit(x: u16, d: u16) -> bool {
    (x / d) % 2 == 1
}

/// The watched divider bit goes from 1 to 0 when the divider steps from `pre`.
pub open spec fn spec_falling_edge(pre: u16, d: u16) -> bool {
    let post = ((pre as int + 1) % 65536) as u16;
    spec_bit(pre, d) && !spec_bit(post, d)
}

/// The internal 16-bit divider; the DIV register is its high byte.
pub struct Divider {
    pub value: u16,
}

impl Divider {
    /// Advances the divider by one dot, wrapping at 16 bits.
    pub fn increment(&mut self)
        ensures
            final(self).value == ((old(self).value as int + 1) % 65536) as u16,
    {
        self.value = self.value.wrapping_add(1);
    }

    pub fn full_read(&self) -> (r: u16)
        ensures
            r == self.value,
    {
        self.value
    }
}

/// DIV, TIMA, TMA and TAC.
pub struct Timer {
    pub overflowing: bool,
    pub divider: Divider,
    pub counter: u8,
    pub modulo: u8,
    pub control: u8,
}

impl Timer {
    /// The timer after one dot, and whether the timer interrupt is raised.
    pub open spec fn spec_tick(self) -> (Timer, bool) {
        let pre = self.divider.value;
        let post = ((pre as int + 1) % 65536) as u16;
        let reloaded = if self.overflowing { self.modulo } else { self.counter };
        let steps = spec_falling_edge(pre, spec_control_divisor(self.control)) && self.control
            / 4 % 2 == 1;
        let next = Timer {
            overflowing: steps && reloaded == 0xFF,
            divider: Divider { value: post },
            counter: if !steps {
                reloaded
            } else if reloaded == 0xFF {
                0
            } else {
                (reloaded + 1) as u8
            },
            modulo: self.modulo,
            control: self.control,
        };
        (next, self.overflowing)
    }

    pub open spec fn wf(self) -> bool {
        self.control < 8
    }

    pub open spec fn new_spec() -> Timer {
        Timer { overflowing: false, divider: Divider { value: 0 }, counter: 0, modulo: 0, control: 4 }
    }

    /// DIV, TIMA and TMA zero; the timer enabled at the slowest rate.
    pub fn new() -> (r: Timer)
        ensures
            r == Timer::new_spec(),
            r.wf(),
    {
        Timer { overflowing: false, divider: Divider { value: 0 }, counter: 0, modulo: 0, control: 4 }
    }

    pub fn read_divider(&self) -> (r: u8)
        ensures
            r == self.divider.value / 256,
    {
        (self.divider.full_read() / 256) as u8
    }

    pub fn read_counter(&self) -> (r: u8)
        ensures
            r == self.counter,
    {
        self.counter
    }

    pub fn read_modulo(&self) -> (r: u8)
        ensures
            r == self.modulo,
    {
        self.modulo
    }

    pub fn read_control(&self) -> (r: u8)
        ensures
            r == self.control,
    {
        self.control
    }

    /// Any write to DIV clears the whole internal divider.
    pub fn write_divider(&mut self, value: u8)
        ensures
            *final(self) == (Timer { divider: Divider { value: 0 }, ..*old(self) }),
    {
        self.divider = Divider { value: 0 };
    }

    pub fn write_counter(&mut self, value: u8)
        ensures
            *final(self) == (Timer { counter: value, ..*old(self) }),
    {
        self.counter = value;
    }

    pub fn write_modulo(&mut self, value: u8)
        ensures
            *final(self) == (Timer { modulo: value, ..*old(self) }),
    {
        self.modulo = value;
    }

    /// TAC keeps its low three bits only.
    pub fn write_control(&mut self, value: u8)
        ensures
            *final(self) == (Timer { control: value % 8, ..*old(self) }),
    {
        self.control = value % 8;
    }

    fn control_divisor(&self) -> (r: u16)
        ensures
            r == spec_control_divisor(self.control),
    {
        let select = self.control % 4;
        if select == 0 {
            512
        } else if select == 1 {
            8
        } else if select == 2 {
            32
        } else {
            128
        }
    }

    /// Advances the timer by one dot. Returns whether the timer interrupt fires:
    /// one dot after TIMA overflows, TIMA takes TMA and the interrupt is raised.
    pub fn tick(&mut self) -> (fire: bool)
        ensures
            (*final(self), fire) == old(self).spec_tick(),
    {
        let fire_interrupt = self.overflowing;
        let pre_tick = self.divider.full_read();
        self.divider.increment();
        let post_tick = self.divider.full_read();
        let divisor = self.control_divisor();
        if self.overflowing {
            self.counter = self.modulo;
            self.overflowing = false;
        }
        let falling = (pre_tick / divisor) % 2 == 1 && (post_tick / divisor) % 2 == 0;
        if falling && (self.control / 4) % 2 == 1 {
            if self.counter == 0xFF {
                self.overflowing = true;
                self.counter = 0;
            } else {
                self.counter = self.counter + 1;
            }
        }
        fire_interrupt
    }
}

} // verus!
