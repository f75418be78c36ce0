use vstd::prelude::*;
use crate::memory_gb::{IF_ADDRESS, MemoryMap, MemoryState};
use crate::joypad::Joypad;

verus! {

#[derive(Clone, Copy, PartialEq, Eq, Structural, Debug)]
pub enum ButtonState {
    Pressed,
    Unpressed,
}

/// The joypad-register bit of a button: 0 when pressed.
pub open spec fn state_bit(s: ButtonState) -> u8 {
    match s {
        ButtonState::Pressed => 0,
        ButtonState::Unpressed => 1,
    }
}

/// A source of button states: a gamepad, a keyboard, a test double.
pub trait InputDevice {
    fn a_pressed(&mut self) -> ButtonState;

    fn b_pressed(&mut self) -> ButtonState;

    fn up_pressed(&mut self) -> ButtonState;

    fn down_pressed(&mut self) -> ButtonState;

    fn left_pressed(&mut self) -> ButtonState;

    fn right_pressed(&mut self) -> ButtonState;

    fn start_pressed(&mut self) -> ButtonState;

    fn select_pressed(&mut self) -> ButtonState;
}

/// A device on which nothing is ever pressed.
pub struct DummyDevice {}

impl InputDevice for DummyDevice {
    fn a_pressed(&mut self) -> ButtonState {
        ButtonState::Unpressed
    }

    fn b_pressed(&mut self) -> ButtonState {
        ButtonState::Unpressed
    }

    fn up_pressed(&mut self) -> ButtonState {
        ButtonState::Unpressed
    }

    fn down_pressed(&mut self) -> ButtonState {
        ButtonState::Unpressed
    }

    fn left_pressed(&mut self) -> ButtonState {
        ButtonState::Unpressed
    }

    fn right_pressed(&mut self) -> ButtonState {
        ButtonState::Unpressed
    }

    fn start_pressed(&mut self) -> ButtonState {
        ButtonState::Unpressed
    }

    fn select_pressed(&mut self) -> ButtonState {
        ButtonState::Unpressed
    }
}

/// The eight buttons as one byte, 0 = pressed: bit 0 a, 1 b, 2 select,
/// 3 start, 4 right, 5 left, 6 up, 7 down.
pub open spec fn spec_pack_buttons(
    a: ButtonState,
    b: ButtonState,
    select: ButtonState,
    start: ButtonState,
    right: ButtonState,
    left: ButtonState,
    up: ButtonState,
    down: ButtonState,
) -> u8 {
    (state_bit(a) + 2 * state_bit(b) + 4 * state_bit(select) + 8 * state_bit(start) + 16 * state_bit(
        right,
    ) + 32 * state_bit(left) + 64 * state_bit(up) + 128 * state_bit(down)) as u8
}

/// The buttons of several devices together: a button is pressed when it is
/// pressed on any of them.
pub open spec fn combine_states(states: Seq<u8>) -> u8
    decreases states.len(),
{
    if states.len() == 0 {
        0xFF
    } else {
        combine_states(states.drop_last()) & states.last()
    }
}

/// Polls the input devices once per frame and feeds the joypad register.
pub struct InputHandler {
    pub last_button_state: u8,
}

impl InputHandler {
    /// No button was pressed before the first poll.
    pub fn new() -> (r: InputHandler)
        ensures
            r.last_button_state == 0xFF,
    {
        InputHandler { last_button_state: 0xFF }
    }

    pub fn pack_buttons(
        a: ButtonState,
        b: ButtonState,
        select: ButtonState,
        start: ButtonState,
        right: ButtonState,
        left: ButtonState,
        up: ButtonState,
        down: ButtonState,
    ) -> (r: u8)
        ensures
            r == spec_pack_buttons(a, b, select, start, right, left, up, down),
    {
        let bit = |s: ButtonState| -> (r: u8)
            ensures
                r == state_bit(s),
            {
                match s {
                    ButtonState::Pressed => 0u8,
                    ButtonState::Unpressed => 1u8,
                }
            };
        bit(a) + 2 * bit(b) + 4 * bit(select) + 8 * bit(start) + 16 * bit(right) + 32 * bit(left) + 64
            * bit(up) + 128 * bit(down)
    }

    /// Asks a device for all eight buttons and packs them into one byte.
    pub fn get_button_state<D: InputDevice>(device: &mut D) -> (r: u8) {
        let a = device.a_pressed();
        let b = device.b_pressed();
        let select = device.select_pressed();
        let start = device.start_pressed();
        let right = device.right_pressed();
        let left = device.left_pressed();
        let up = device.up_pressed();
        let down = device.down_pressed();
        InputHandler::pack_buttons(a, b, select, start, right, left, up, down)
    }

    /// Stores the combined state of all devices in the joypad and raises the
    /// joypad interrupt (IF bit 4) when any button went from released to
    /// pressed since the last poll.
    pub fn poll(&mut self, memory: &mut MemoryMap, device_states: &Vec<u8>)
        requires
            old(memory).wf(),
        ensures
            final(memory).wf(),
            ({
                let combined = combine_states(device_states@);
                let falling = old(self).last_button_state & !combined != 0;
                &&& final(self).last_button_state == combined
                &&& final(memory)@ == (MemoryState {
                    joypad: Joypad { button_values: combined, ..old(memory)@.joypad },
                    io: old(memory)@.io.update(
                        0x0F,
                        old(memory)@.io[0x0F] | if falling { 0x10u8 } else { 0 },
                    ),
                    ..old(memory)@
                })
            }),
    {
        let mut combined: u8 = 0xFF;
        let mut i: usize = 0;
        while i < device_states.len()
            invariant
                i <= device_states@.len(),
                combined == combine_states(device_states@.take(i as int)),
            decreases device_states@.len() - i,
        {
            combined = combined & device_states[i];
            i = i + 1;
            assert(device_states@.take(i as int).drop_last() =~= device_states@.take(i - 1));
        }
        assert(device_states@.take(device_states@.len() as int) =~= device_states@);
        memory.data.joypad.button_values = combined;
        let falling = (self.last_button_state ^ combined) & self.last_button_state != 0;
        proof {
            let last = self.last_button_state;
            assert(((last ^ combined) & last != 0) == (last & !combined != 0)) by (bit_vector);
        }
        let interrupt_flag = memory.read_io_register(IF_ADDRESS);
        let raised = interrupt_flag | if falling { 0x10u8 } else { 0 };
        memory.write_io_register(raised, IF_ADDRESS);
        self.last_button_state = combined;
    }
}

} // verus!
