use vstd::prelude::*;

verus! {

pub type Byte = u8;

pub type Word = u16;

pub type Signed = i8;

pub type Address = u16;

/// Byte `i` of `s`, or 0xFF where `s` holds no such byte (an open bus).
pub open spec fn byte_or_open_bus(s: Seq<u8>, i: int) -> u8 {
    if 0 <= i < s.len() {
        s[i]
    } else {
        0xFF
    }
}

/// The signed value of a byte in two's complement.
pub open spec fn spec_signed(b: u8) -> int {
    if b < 128 {
        b as int
    } else {
        b as int - 256
    }
}

pub trait ByteExt {
    spec fn spec_as_signed(&self) -> int;

    fn interpret_as_signed(&self) -> (r: Signed)
        ensures
            r as int == self.spec_as_signed(),
    ;
}

impl ByteExt for Byte {
    open spec fn spec_as_signed(&self) -> int {
        spec_signed(*self)
    }

    fn interpret_as_signed(&self) -> (r: Signed) {
        if *self < 128 {
            *self as i8
        } else {
            (*self as i16 - 256) as i8
        }
    }
}

/// A byte-addressed region of the bus. The spec hooks say which addresses it
/// answers, what a read returns and how a write changes it.
pub trait MemoryRegion {
    spec fn covers(&self, address: Address) -> bool;

    spec fn peek(&self, address: Address) -> Byte;

    spec fn poked(&self, value: Byte, address: Address, next: &Self) -> bool;

    fn read(&self, address: Address) -> (r: Byte)
        requires
            self.covers(address),
        ensures
            r == self.peek(address),
    ;

    fn write(&mut self, value: Byte, address: Address)
        requires
            old(self).covers(address),
        ensures
            old(self).poked(value, address, final(self)),
    ;
}

/// Reads a byte of a buffer at a 16-bit address.
pub fn read_from_buffer(buffer: &Vec<u8>, address: Address) -> (r: Byte)
    requires
        (address as int) < buffer@.len(),
    ensures
        r == buffer@[address as int],
{
    buffer[address as usize]
}

/// Reads a byte of a buffer at any index, for banked cartridge memory.
pub fn read_from_buffer_extended(buffer: &Vec<u8>, address: usize) -> (r: Byte)
    requires
        address < buffer@.len(),
    ensures
        r == buffer@[address as int],
{
    buffer[address]
}

/// Writes a byte of a buffer at a 16-bit address.
pub fn write_to_buffer(buffer: &mut Vec<u8>, value: Byte, address: Address)
    requires
        (address as int) < old(buffer)@.len(),
    ensures
        final(buffer)@ == old(buffer)@.update(address as int, value),
{
    buffer.set(address as usize, value);
}

/// Writes a byte of a buffer at any index, for banked cartridge memory.
pub fn write_to_buffer_extended(buffer: &mut Vec<u8>, value: Byte, address: usize)
    requires
        address < old(buffer)@.len(),
    ensures
        final(buffer)@ == old(buffer)@.update(address as int, value),
{
    buffer.set(address, value);
}

/// A block of plain RAM mapped at `start`.
pub struct SimpleRegion {
    pub start: Address,
    pub data: Vec<u8>,
}

impl SimpleRegion {
    /// A region of `len` bytes, each `fill`, mapped at `start`.
    pub fn filled(start: Address, len: usize, fill: Byte) -> (r: SimpleRegion)
        requires
            start as int + len <= 0x10000,
        ensures
            r.start == start,
            r.data@ == Seq::new(len as nat, |_i: int| fill),
    {
        let mut data: Vec<u8> = Vec::new();
        let mut i: usize = 0;
        while i < len
            invariant
                i <= len,
                data@ == Seq::new(i as nat, |_i: int| fill),
            decreases len - i,
        {
            data.push(fill);
            i = i + 1;
        }
        SimpleRegion { start, data }
    }
}

impl MemoryRegion for SimpleRegion {
    open spec fn covers(&self, address: Address) -> bool {
        self.start <= address && address - self.start < self.data@.len()
    }

    open spec fn peek(&self, address: Address) -> Byte {
        self.data@[address - self.start]
    }

    open spec fn poked(&self, value: Byte, address: Address, next: &Self) -> bool {
        next.start == self.start && next.data@ == self.data@.update(address - self.start, value)
    }

    fn read(&self, address: Address) -> (r: Byte) {
        read_from_buffer(&self.data, address - self.start)
    }

    fn write(&mut self, value: Byte, address: Address) {
        let offset = address - self.start;
        write_to_buffer(&mut self.data, value, offset);
    }
}

} // verus!

use crate::apu_registers::ApuRegisters;
use crate::cart::{Cart, CartState};
use crate::joypad::{Joypad, spec_joypad_read, spec_mode_of_write};
use crate::special_registers::{Divider, Timer};

verus! {

pub const VRAM_START: u16 = 0x8000;

pub const EXRAM_START: u16 = 0xA000;

pub const WRAM_START: u16 = 0xC000;

pub const ECHORAM_START: u16 = 0xE000;

pub const OAM_START: u16 = 0xFE00;

pub const UNUSABLE_START: u16 = 0xFEA0;

pub const IOREGS_START: u16 = 0xFF00;

pub const HRAM_START: u16 = 0xFF80;

pub const IE_ADDRESS: u16 = 0xFFFF;

pub const IF_ADDRESS: u16 = 0xFF0F;

pub const DIV_ADDRESS: u16 = 0xFF04;

pub const DMA_ADDRESS: u16 = 0xFF46;

pub const SERIAL_DATA_ADDRESS: u16 = 0xFF01;

pub const JOYPAD_ADDRESS: u16 = 0xFF00;

pub const DMA_BYTES: u16 = 0xA0;

/// The whole bus as mathematics: every region and every component behind it.
pub struct MemoryState {
    pub cart: CartState,
    pub timer: Timer,
    pub joypad: Joypad,
    pub apu: ApuRegisters,
    pub vram: Seq<u8>,
    pub wram: Seq<u8>,
    pub oam: Seq<u8>,
    pub io: Seq<u8>,
    pub hram: Seq<u8>,
    pub ie: u8,
    pub div_reset: bool,
    pub serial: Seq<u8>,
}

impl MemoryState {
    pub open spec fn wf(self) -> bool {
        &&& self.vram.len() == 0x2000
        &&& self.wram.len() == 0x2000
        &&& self.oam.len() == 0xA0
        &&& self.io.len() == 0x80
        &&& self.hram.len() == 0x7F
        &&& self.timer.wf()
    }

    /// What a read of an I/O address returns.
    pub open spec fn io_read(self, address: u16) -> u8 {
        if address == JOYPAD_ADDRESS {
            spec_joypad_read(self.joypad)
        } else if address == DIV_ADDRESS {
            (self.timer.divider.value / 256) as u8
        } else if address == 0xFF05 {
            self.timer.counter
        } else if address == 0xFF06 {
            self.timer.modulo
        } else if address == 0xFF07 {
            self.timer.control
        } else if self.apu.spec_register_read(address) is Some {
            self.apu.spec_register_read(address)->0
        } else {
            self.io[address - IOREGS_START]
        }
    }

    /// What a CPU read of `address` returns.
    pub open spec fn read(self, address: u16) -> u8 {
        if address == IE_ADDRESS {
            self.ie
        } else if address >= HRAM_START {
            self.hram[address - HRAM_START]
        } else if address >= IOREGS_START {
            self.io_read(address)
        } else if address >= UNUSABLE_START {
            0xFF
        } else if address >= OAM_START {
            self.oam[address - OAM_START]
        } else if address >= ECHORAM_START {
            self.wram[address - ECHORAM_START]
        } else if address >= WRAM_START {
            self.wram[address - WRAM_START]
        } else if address >= EXRAM_START {
            self.cart.read(address)
        } else if address >= VRAM_START {
            self.vram[address - VRAM_START]
        } else {
            self.cart.read(address)
        }
    }

    /// The OAM after a DMA transfer from page `source_upper`.
    pub open spec fn dma_copy(self, source_upper: u8) -> Seq<u8> {
        Seq::new(DMA_BYTES as nat, |i: int| self.read((source_upper * 256 + i) as u16))
    }

    /// The bus after a CPU write to an I/O address.
    pub open spec fn io_write(self, address: u16, value: u8) -> MemoryState {
        if address == JOYPAD_ADDRESS {
            MemoryState {
                joypad: Joypad {
                    mode: match spec_mode_of_write(value) {
                        Some(m) => m,
                        None => self.joypad.mode,
                    },
                    ..self.joypad
                },
                ..self
            }
        } else if address == SERIAL_DATA_ADDRESS {
            MemoryState { serial: self.serial.push(value), ..self }
        } else if address == DIV_ADDRESS {
            MemoryState {
                timer: Timer { divider: Divider { value: 0 }, ..self.timer },
                div_reset: true,
                ..self
            }
        } else if address == 0xFF05 {
            MemoryState { timer: Timer { counter: value, ..self.timer }, ..self }
        } else if address == 0xFF06 {
            MemoryState { timer: Timer { modulo: value, ..self.timer }, ..self }
        } else if address == 0xFF07 {
            MemoryState { timer: Timer { control: value % 8, ..self.timer }, ..self }
        } else if address == DMA_ADDRESS {
            MemoryState { oam: self.dma_copy(value), ..self }
        } else if self.apu.spec_register_write(address, value) is Some {
            MemoryState { apu: self.apu.spec_register_write(address, value)->0, ..self }
        } else {
            MemoryState { io: self.io.update(address - IOREGS_START, value), ..self }
        }
    }

    /// The bus after a CPU write of `value` to `address`.
    pub open spec fn write(self, address: u16, value: u8) -> MemoryState {
        if address == IE_ADDRESS {
            MemoryState { ie: value, ..self }
        } else if address >= HRAM_START {
            MemoryState { hram: self.hram.update(address - HRAM_START, value), ..self }
        } else if address >= IOREGS_START {
            self.io_write(address, value)
        } else if address >= UNUSABLE_START {
            self
        } else if address >= OAM_START {
            MemoryState { oam: self.oam.update(address - OAM_START, value), ..self }
        } else if address >= ECHORAM_START {
            MemoryState { wram: self.wram.update(address - ECHORAM_START, value), ..self }
        } else if address >= WRAM_START {
            MemoryState { wram: self.wram.update(address - WRAM_START, value), ..self }
        } else if address >= EXRAM_START {
            MemoryState { cart: self.cart.write(address, value), ..self }
        } else if address >= VRAM_START {
            MemoryState { vram: self.vram.update(address - VRAM_START, value), ..self }
        } else {
            MemoryState { cart: self.cart.write(address, value), ..self }
        }
    }

    /// A little-endian word read: the byte at `address` is the low half.
    pub open spec fn read_word(self, address: u16) -> u16 {
        (self.read(address) + 256 * self.read(next_address(address))) as u16
    }

    /// A little-endian word write: two byte writes, low half first.
    pub open spec fn write_word(self, address: u16, value: u16) -> MemoryState {
        self.write(address, (value % 256) as u8).write(next_address(address), (value / 256) as u8)
    }
}

/// The video registers (but DMA) and IF: plain I/O bytes that no component traps.
pub open spec fn is_plain_io(address: u16) -> bool {
    (0xFF40 <= address <= 0xFF4B && address != DMA_ADDRESS) || address == IF_ADDRESS
}

/// A plain I/O register reads as its stored byte.
pub proof fn lemma_plain_io_read(m: MemoryState, address: u16)
    requires
        m.wf(),
        is_plain_io(address),
    ensures
        m.read(address) == m.io[address - IOREGS_START],
{
}

/// The address after `address`, wrapping at the top of the bus.
pub open spec fn next_address(address: u16) -> u16 {
    ((address + 1) % 0x10000) as u16
}

/// The storage behind the bus: cartridge, timer, joypad, sound registers and RAM.
pub struct MemoryMapData {
    pub cart: Cart,
    pub timer: Timer,
    pub joypad: Joypad,
    pub apu_state: ApuRegisters,
    pub vram: SimpleRegion,
    pub work_ram: SimpleRegion,
    pub oam: SimpleRegion,
    pub io_registers: SimpleRegion,
    pub hram: SimpleRegion,
    pub ie: Byte,
}

/// The address decoder over the console's storage. `div_reset` tells the sound
/// unit that DIV was cleared; `serial_output` collects bytes written to the
/// serial data register.
pub struct MemoryMap {
    pub data: MemoryMapData,
    pub div_reset: bool,
    pub serial_output: Vec<u8>,
}

impl View for MemoryMap {
    type V = MemoryState;

    open spec fn view(&self) -> MemoryState {
        MemoryState {
            cart: self.data.cart@,
            timer: self.data.timer,
            joypad: self.data.joypad,
            apu: self.data.apu_state,
            vram: self.data.vram.data@,
            wram: self.data.work_ram.data@,
            oam: self.data.oam.data@,
            io: self.data.io_registers.data@,
            hram: self.data.hram.data@,
            ie: self.data.ie,
            div_reset: self.div_reset,
            serial: self.serial_output@,
        }
    }
}

impl MemoryMap {
    pub open spec fn wf(&self) -> bool {
        &&& self@.wf()
        &&& self.data.cart.wf()
        &&& self.data.vram.start == VRAM_START
        &&& self.data.work_ram.start == WRAM_START
        &&& self.data.oam.start == OAM_START
        &&& self.data.io_registers.start == IOREGS_START
        &&& self.data.hram.start == HRAM_START
    }

    /// Power-on storage: zeroed RAM, I/O registers reading 0xFF.
    pub fn allocate(cart: Cart, joypad: Joypad) -> (r: MemoryMapData)
        requires
            cart.wf(),
        ensures
            r.cart@ == cart@,
            r.cart.wf(),
            r.joypad == joypad,
            r.timer == Timer::new_spec(),
            r.apu_state == ApuRegisters::new_spec(),
            r.vram.start == VRAM_START && r.vram.data@ == Seq::new(0x2000, |_i: int| 0u8),
            r.work_ram.start == WRAM_START && r.work_ram.data@ == Seq::new(
                0x2000,
                |_i: int| 0u8,
            ),
            r.oam.start == OAM_START && r.oam.data@ == Seq::new(0xA0, |_i: int| 0u8),
            r.io_registers.start == IOREGS_START && r.io_registers.data@ == Seq::new(
                0x80,
                |_i: int| 0xFFu8,
            ),
            r.hram.start == HRAM_START && r.hram.data@ == Seq::new(0x7F, |_i: int| 0u8),
            r.ie == 0,
    {
        MemoryMapData {
            cart,
            timer: Timer::new(),
            joypad,
            apu_state: ApuRegisters::new(),
            vram: SimpleRegion::filled(VRAM_START, 0x2000, 0),
            work_ram: SimpleRegion::filled(WRAM_START, 0x2000, 0),
            oam: SimpleRegion::filled(OAM_START, 0xA0, 0),
            io_registers: SimpleRegion::filled(IOREGS_START, 0x80, 0xFF),
            hram: SimpleRegion::filled(HRAM_START, 0x7F, 0),
            ie: 0,
        }
    }

    /// The decoder over storage laid out as `allocate` lays it out.
    pub fn new(data: MemoryMapData) -> (r: MemoryMap)
        requires
            data.cart.wf(),
            data.timer.wf(),
            data.vram.start == VRAM_START && data.vram.data@.len() == 0x2000,
            data.work_ram.start == WRAM_START && data.work_ram.data@.len() == 0x2000,
            data.oam.start == OAM_START && data.oam.data@.len() == 0xA0,
            data.io_registers.start == IOREGS_START && data.io_registers.data@.len() == 0x80,
            data.hram.start == HRAM_START && data.hram.data@.len() == 0x7F,
        ensures
            r.wf(),
            r.data == data,
            !r.div_reset,
            r.serial_output@ == Seq::<u8>::empty(),
    {
        MemoryMap { data, div_reset: false, serial_output: Vec::new() }
    }

    fn read_io(&self, address: Address) -> (r: Byte)
        requires
            self.wf(),
            IOREGS_START <= address < HRAM_START,
        ensures
            r == self@.io_read(address),
    {
        if address == JOYPAD_ADDRESS {
            self.data.joypad.read()
        } else if address == DIV_ADDRESS {
            self.data.timer.read_divider()
        } else if address == 0xFF05 {
            self.data.timer.read_counter()
        } else if address == 0xFF06 {
            self.data.timer.read_modulo()
        } else if address == 0xFF07 {
            self.data.timer.read_control()
        } else {
            match self.data.apu_state.read_register(address) {
                Some(v) => v,
                None => self.data.io_registers.read(address),
            }
        }
    }

    fn write_io(&mut self, value: Byte, address: Address)
        requires
            old(self).wf(),
            IOREGS_START <= address < HRAM_START,
        ensures
            final(self).wf(),
            final(self)@ == old(self)@.io_write(address, value),
    {
        if address == JOYPAD_ADDRESS {
            self.data.joypad.write_select(value);
        } else if address == SERIAL_DATA_ADDRESS {
            self.serial_output.push(value);
        } else if address == DIV_ADDRESS {
            self.data.timer.write_divider(value);
            self.div_reset = true;
        } else if address == 0xFF05 {
            self.data.timer.write_counter(value);
        } else if address == 0xFF06 {
            self.data.timer.write_modulo(value);
        } else if address == 0xFF07 {
            self.data.timer.write_control(value);
        } else if address == DMA_ADDRESS {
            self.dma(value);
        } else if !self.data.apu_state.write_register(address, value) {
            self.data.io_registers.write(value, address);
        }
    }

    /// Copies the 160 bytes at `source_upper * 256` into OAM at once.
    pub fn dma(&mut self, source_upper_byte: Byte)
        requires
            old(self).wf(),
        ensures
            final(self).wf(),
            final(self)@ == (MemoryState { oam: old(self)@.dma_copy(source_upper_byte), ..old(self)@ }),
    {
        let base: u16 = (source_upper_byte as u16) * 256;
        let mut copied: Vec<u8> = Vec::new();
        let mut i: u16 = 0;
        while i < DMA_BYTES
            invariant
                self.wf(),
                i <= DMA_BYTES,
                base == source_upper_byte * 256,
                copied@.len() == i,
                forall|j: int| 0 <= j < i ==> copied@[j] == #[trigger] self@.read((base + j) as u16),
            decreases DMA_BYTES - i,
        {
            let b = self.read(base + i);
            copied.push(b);
            i = i + 1;
        }
        assert(copied@ =~= self@.dma_copy(source_upper_byte));
        self.data.oam = SimpleRegion { start: OAM_START, data: copied };
    }

    pub fn read_word(&self, address: Address) -> (r: Word)
        requires
            self.wf(),
        ensures
            r == self@.read_word(address),
    {
        let low = self.read(address);
        let high = self.read(address.wrapping_add(1));
        low as u16 + 256 * (high as u16)
    }

    pub fn write_word(&mut self, value: Word, address: Address)
        requires
            old(self).wf(),
        ensures
            final(self).wf(),
            final(self)@ == old(self)@.write_word(address, value),
    {
        self.write((value % 256) as u8, address);
        self.write((value / 256) as u8, address.wrapping_add(1));
    }

    /// The interrupt-flag register.
    pub fn interrupt_flag(&self) -> (r: Byte)
        requires
            self.wf(),
        ensures
            r == self@.io[0x0F],
    {
        self.data.io_registers.read(IF_ADDRESS)
    }

    pub fn set_interrupt_flag(&mut self, value: Byte)
        requires
            old(self).wf(),
        ensures
            final(self).wf(),
            final(self)@ == (MemoryState { io: old(self)@.io.update(0x0F, value), ..old(self)@ }),
    {
        self.data.io_registers.write(value, IF_ADDRESS);
    }

    /// Bytes written to the serial data register so far, oldest first; the log
    /// is emptied.
    pub fn take_serial_output(&mut self) -> (r: Vec<u8>)
        ensures
            r@ == old(self)@.serial,
            final(self)@ == (MemoryState { serial: Seq::empty(), ..old(self)@ }),
            final(self).wf() == old(self).wf(),
    {
        let out = self.serial_output.clone();
        self.serial_output = Vec::new();
        out
    }

    /// Reads an I/O register that no component traps.
    pub fn read_io_register(&self, address: Address) -> (r: Byte)
        requires
            self.wf(),
            is_plain_io(address),
        ensures
            r == self@.io[address - IOREGS_START],
            r == self@.read(address),
    {
        self.data.io_registers.read(address)
    }

    /// Writes an I/O register that no component traps.
    pub fn write_io_register(&mut self, value: Byte, address: Address)
        requires
            old(self).wf(),
            is_plain_io(address),
        ensures
            final(self).wf(),
            final(self)@ == (MemoryState { io: old(self)@.io.update(address - IOREGS_START, value), ..old(self)@ }),
            final(self)@ == old(self)@.write(address, value),
    {
        self.data.io_registers.write(value, address);
    }
}

impl MemoryRegion for MemoryMap {
    open spec fn covers(&self, address: Address) -> bool {
        self.wf()
    }

    open spec fn peek(&self, address: Address) -> Byte {
        self@.read(address)
    }

    open spec fn poked(&self, value: Byte, address: Address, next: &Self) -> bool {
        next.wf() && next@ == self@.write(address, value)
    }

    fn read(&self, address: Address) -> (r: Byte) {
        if address == IE_ADDRESS {
            self.data.ie
        } else if address >= HRAM_START {
            self.data.hram.read(address)
        } else if address >= IOREGS_START {
            self.read_io(address)
        } else if address >= UNUSABLE_START {
            0xFF
        } else if address >= OAM_START {
            self.data.oam.read(address)
        } else if address >= ECHORAM_START {
            self.data.work_ram.read(address - 0x2000)
        } else if address >= WRAM_START {
            self.data.work_ram.read(address)
        } else if address >= EXRAM_START {
            self.data.cart.read(address)
        } else if address >= VRAM_START {
            self.data.vram.read(address)
        } else {
            self.data.cart.read(address)
        }
    }

    fn write(&mut self, value: Byte, address: Address) {
        if address == IE_ADDRESS {
            self.data.ie = value;
        } else if address >= HRAM_START {
            self.data.hram.write(value, address);
        } else if address >= IOREGS_START {
            self.write_io(value, address);
        } else if address >= UNUSABLE_START {
        } else if address >= OAM_START {
            self.data.oam.write(value, address);
        } else if address >= ECHORAM_START {
            self.data.work_ram.write(value, address - 0x2000);
        } else if address >= WRAM_START {
            self.data.work_ram.write(value, address);
        } else if address >= EXRAM_START {
            self.data.cart.write(value, address);
        } else if address >= VRAM_START {
            self.data.vram.write(value, address);
        } else {
            self.data.cart.write(value, address);
        }
    }
}

/// A little-endian word written to work RAM reads back unchanged.
pub proof fn lemma_wram_word_round_trip(m: MemoryState, w: u16)
    requires
        m.wf(),
    ensures
        m.write_word(WRAM_START, w).read_word(WRAM_START) == w,
{
    let m1 = m.write(WRAM_START, (w % 256) as u8);
    let m2 = m1.write(next_address(WRAM_START), (w / 256) as u8);
    assert(m2.read(WRAM_START) == w % 256);
    assert(m2.read(0xC001) == w / 256);
}

/// Whatever is written to DIV, the next read of DIV returns 0.
pub proof fn lemma_div_write_reads_zero(m: MemoryState, value: u8)
    requires
        m.wf(),
    ensures
        m.write(DIV_ADDRESS, value).read(DIV_ADDRESS) == 0,
{
}

} // verus!
