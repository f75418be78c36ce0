use vstd::prelude::*;
use crate::memory_gb::{Address, Byte, MemoryMap, MemoryRegion, MemoryState, Word};

verus! {

#[derive(Clone, Copy, PartialEq, Eq, Structural, Debug)]
pub enum ByteRegisterName {
    RegA,
    RegF,
    RegB,
    RegC,
    RegD,
    RegE,
    RegH,
    RegL,
}

#[derive(Clone, Copy, PartialEq, Eq, Structural, Debug)]
pub enum WordRegisterName {
    RegAF,
    RegBC,
    RegDE,
    RegHL,
    RegSP,
    RegPC,
}

#[derive(Clone, Copy, PartialEq, Eq, Structural, Debug)]
pub enum Flags {
    Z,
    N,
    H,
    C,
}

#[derive(Clone, Copy, PartialEq, Eq, Structural, Debug)]
pub enum ConditionCodes {
    C,
    NC,
    NZ,
    Z,
    NA,
}

/// Where a byte register lives in the register file: F A C B E D L H, then SP
/// and PC as little-endian words.
pub open spec fn byte_slot(r: ByteRegisterName) -> int {
    match r {
        ByteRegisterName::RegF => 0,
        ByteRegisterName::RegA => 1,
        ByteRegisterName::RegC => 2,
        ByteRegisterName::RegB => 3,
        ByteRegisterName::RegE => 4,
        ByteRegisterName::RegD => 5,
        ByteRegisterName::RegL => 6,
        ByteRegisterName::RegH => 7,
    }
}

/// Where the low byte of a register pair lives; the high byte follows it.
pub open spec fn word_slot(r: WordRegisterName) -> int {
    match r {
        WordRegisterName::RegAF => 0,
        WordRegisterName::RegBC => 2,
        WordRegisterName::RegDE => 4,
        WordRegisterName::RegHL => 6,
        WordRegisterName::RegSP => 8,
        WordRegisterName::RegPC => 10,
    }
}

/// The weight of a flag's bit in F.
pub open spec fn flag_weight(flag: Flags) -> int {
    match flag {
        Flags::Z => 128,
        Flags::N => 64,
        Flags::H => 32,
        Flags::C => 16,
    }
}

/// F holding the four flags, low nibble zero.
pub open spec fn flags_byte(z: bool, n: bool, h: bool, c: bool) -> u8 {
    ((if z { 128int } else { 0 }) + (if n { 64int } else { 0 }) + (if h { 32int } else { 0 }) + (
    if c { 16int } else { 0 })) as u8
}

pub open spec fn reg_byte(regs: Seq<u8>, r: ByteRegisterName) -> u8 {
    regs[byte_slot(r)]
}

pub open spec fn reg_word(regs: Seq<u8>, r: WordRegisterName) -> u16 {
    (regs[word_slot(r)] + 256 * regs[word_slot(r) + 1]) as u16
}

pub open spec fn flag_set(regs: Seq<u8>, f: Flags) -> bool {
    (regs[0] as int / flag_weight(f)) % 2 == 1
}

/// The register file after writing a byte register; F keeps its high nibble only.
pub open spec fn with_byte(regs: Seq<u8>, r: ByteRegisterName, v: u8) -> Seq<u8> {
    regs.update(
        byte_slot(r),
        if r == ByteRegisterName::RegF {
            (v - v % 16) as u8
        } else {
            v
        },
    )
}

/// The register file after writing a register pair, low byte first in memory
/// order; for AF the low nibble of F stays zero.
pub open spec fn with_word(regs: Seq<u8>, r: WordRegisterName, v: u16) -> Seq<u8> {
    let low = (v % 256) as u8;
    let high = (v / 256) as u8;
    regs.update(
        word_slot(r),
        if r == WordRegisterName::RegAF {
            (low - low % 16) as u8
        } else {
            low
        },
    ).update(word_slot(r) + 1, high)
}

pub open spec fn with_flags(regs: Seq<u8>, z: bool, n: bool, h: bool, c: bool) -> Seq<u8> {
    regs.update(0, flags_byte(z, n, h, c))
}

/// The register file after setting one flag to `v`.
pub open spec fn with_flag(regs: Seq<u8>, f: Flags, v: bool) -> Seq<u8> {
    with_flags(
        regs,
        if f == Flags::Z { v } else { flag_set(regs, Flags::Z) },
        if f == Flags::N { v } else { flag_set(regs, Flags::N) },
        if f == Flags::H { v } else { flag_set(regs, Flags::H) },
        if f == Flags::C { v } else { flag_set(regs, Flags::C) },
    )
}

pub open spec fn condition_holds(regs: Seq<u8>, c: ConditionCodes) -> bool {
    match c {
        ConditionCodes::NA => true,
        ConditionCodes::NC => !flag_set(regs, Flags::C),
        ConditionCodes::NZ => !flag_set(regs, Flags::Z),
        ConditionCodes::C => flag_set(regs, Flags::C),
        ConditionCodes::Z => flag_set(regs, Flags::Z),
    }
}

/// A well-formed register file: twelve bytes, the low nibble of F zero.
pub open spec fn regs_wf(regs: Seq<u8>) -> bool {
    regs.len() == 12 && regs[0] % 16 == 0
}

pub proof fn lemma_flags_byte(z: bool, n: bool, h: bool, c: bool)
    ensures
        flags_byte(z, n, h, c) % 16 == 0,
        (flags_byte(z, n, h, c) / 128) % 2 == 1 <==> z,
        (flags_byte(z, n, h, c) / 64) % 2 == 1 <==> n,
        (flags_byte(z, n, h, c) / 32) % 2 == 1 <==> h,
        (flags_byte(z, n, h, c) / 16) % 2 == 1 <==> c,
{
}

/// A source of bytes for an instruction.
pub trait ReadByte {
    spec fn value_in(&self, regs: Seq<u8>, mem: MemoryState) -> u8;

    fn read_byte(&self, cpu: &Cpu, memory: &MemoryMap) -> (r: Byte)
        requires
            cpu.wf(),
            memory.wf(),
        ensures
            r == self.value_in(cpu.registers@, memory@),
    ;
}

/// A destination for bytes of an instruction.
pub trait WriteByte {
    spec fn stored(&self, regs: Seq<u8>, mem: MemoryState, value: u8) -> (Seq<u8>, MemoryState);

    fn write_byte(&self, cpu: &mut Cpu, memory: &mut MemoryMap, value: Byte)
        requires
            old(cpu).wf(),
            old(memory).wf(),
        ensures
            final(cpu).wf(),
            final(memory).wf(),
            final(cpu).same_control(old(cpu)),
            (final(cpu).registers@, final(memory)@) == self.stored(
                old(cpu).registers@,
                old(memory)@,
                value,
            ),
    ;
}

/// A source of words for an instruction.
pub trait ReadWord {
    spec fn value_in(&self, regs: Seq<u8>, mem: MemoryState) -> u16;

    fn read_word(&self, cpu: &Cpu, memory: &MemoryMap) -> (r: Word)
        requires
            cpu.wf(),
            memory.wf(),
        ensures
            r == self.value_in(cpu.registers@, memory@),
    ;
}

/// A destination for words of an instruction.
pub trait WriteWord {
    spec fn stored(&self, regs: Seq<u8>, mem: MemoryState, value: u16) -> (Seq<u8>, MemoryState);

    fn write_word(&self, cpu: &mut Cpu, memory: &mut MemoryMap, value: Word)
        requires
            old(cpu).wf(),
            old(memory).wf(),
        ensures
            final(cpu).wf(),
            final(memory).wf(),
            final(cpu).same_control(old(cpu)),
            (final(cpu).registers@, final(memory)@) == self.stored(
                old(cpu).registers@,
                old(memory)@,
                value,
            ),
    ;
}

/// A byte register operand.
pub struct ByteRegister {
    pub register: ByteRegisterName,
}

impl ByteRegister {
    pub fn new(register: ByteRegisterName) -> (r: ByteRegister)
        ensures
            r.register == register,
    {
        ByteRegister { register }
    }
}

impl ReadByte for ByteRegister {
    open spec fn value_in(&self, regs: Seq<u8>, mem: MemoryState) -> u8 {
        reg_byte(regs, self.register)
    }

    fn read_byte(&self, cpu: &Cpu, memory: &MemoryMap) -> (r: Byte) {
        cpu.registers.read_byte(self.register)
    }
}

impl WriteByte for ByteRegister {
    open spec fn stored(&self, regs: Seq<u8>, mem: MemoryState, value: u8) -> (Seq<u8>, MemoryState) {
        (with_byte(regs, self.register, value), mem)
    }

    fn write_byte(&self, cpu: &mut Cpu, memory: &mut MemoryMap, value: Byte) {
        cpu.registers.write_byte(self.register, value);
    }
}

/// A register pair operand.
pub struct WordRegister {
    pub register: WordRegisterName,
}

impl WordRegister {
    pub fn new(register: WordRegisterName) -> (r: WordRegister)
        ensures
            r.register == register,
    {
        WordRegister { register }
    }
}

impl ReadWord for WordRegister {
    open spec fn value_in(&self, regs: Seq<u8>, mem: MemoryState) -> u16 {
        reg_word(regs, self.register)
    }

    fn read_word(&self, cpu: &Cpu, memory: &MemoryMap) -> (r: Word) {
        cpu.registers.read_word(self.register)
    }
}

impl WriteWord for WordRegister {
    open spec fn stored(&self, regs: Seq<u8>, mem: MemoryState, value: u16) -> (Seq<u8>, MemoryState) {
        (with_word(regs, self.register, value), mem)
    }

    fn write_word(&self, cpu: &mut Cpu, memory: &mut MemoryMap, value: Word) {
        cpu.registers.write_word(self.register, value);
    }
}

/// The byte at the address that a register pair holds.
pub struct ByteRegisterIndirect {
    pub register: WordRegisterName,
}

impl ByteRegisterIndirect {
    pub fn new(register: WordRegisterName) -> (r: ByteRegisterIndirect)
        ensures
            r.register == register,
    {
        ByteRegisterIndirect { register }
    }
}

impl ReadByte for ByteRegisterIndirect {
    open spec fn value_in(&self, regs: Seq<u8>, mem: MemoryState) -> u8 {
        mem.read(reg_word(regs, self.register))
    }

    fn read_byte(&self, cpu: &Cpu, memory: &MemoryMap) -> (r: Byte) {
        let address = cpu.registers.read_word(self.register);
        memory.read(address)
    }
}

impl WriteByte for ByteRegisterIndirect {
    open spec fn stored(&self, regs: Seq<u8>, mem: MemoryState, value: u8) -> (Seq<u8>, MemoryState) {
        (regs, mem.write(reg_word(regs, self.register), value))
    }

    fn write_byte(&self, cpu: &mut Cpu, memory: &mut MemoryMap, value: Byte) {
        let address = cpu.registers.read_word(self.register);
        memory.write(value, address);
    }
}

/// The byte at 0xFF00 plus a byte register.
pub struct ByteRegisterOffsetIndirect {
    pub register: ByteRegisterName,
}

impl ByteRegisterOffsetIndirect {
    pub fn new(register: ByteRegisterName) -> (r: ByteRegisterOffsetIndirect)
        ensures
            r.register == register,
    {
        ByteRegisterOffsetIndirect { register }
    }
}

impl ReadByte for ByteRegisterOffsetIndirect {
    open spec fn value_in(&self, regs: Seq<u8>, mem: MemoryState) -> u8 {
        mem.read((0xFF00 + reg_byte(regs, self.register)) as u16)
    }

    fn read_byte(&self, cpu: &Cpu, memory: &MemoryMap) -> (r: Byte) {
        let offset = cpu.registers.read_byte(self.register);
        memory.read(0xFF00 + offset as Address)
    }
}

impl WriteByte for ByteRegisterOffsetIndirect {
    open spec fn stored(&self, regs: Seq<u8>, mem: MemoryState, value: u8) -> (Seq<u8>, MemoryState) {
        (regs, mem.write((0xFF00 + reg_byte(regs, self.register)) as u16, value))
    }

    fn write_byte(&self, cpu: &mut Cpu, memory: &mut MemoryMap, value: Byte) {
        let offset = cpu.registers.read_byte(self.register);
        memory.write(value, 0xFF00 + offset as Address);
    }
}

/// A byte that follows the opcode.
pub struct ByteImmediate {
    pub data: Byte,
}

impl ByteImmediate {
    pub fn new(value: Byte) -> (r: ByteImmediate)
        ensures
            r.data == value,
    {
        ByteImmediate { data: value }
    }
}

impl ReadByte for ByteImmediate {
    open spec fn value_in(&self, regs: Seq<u8>, mem: MemoryState) -> u8 {
        self.data
    }

    fn read_byte(&self, cpu: &Cpu, memory: &MemoryMap) -> (r: Byte) {
        self.data
    }
}

/// The byte at an address that follows the opcode.
pub struct ByteImmediateIndirect {
    pub address: Address,
}

impl ByteImmediateIndirect {
    pub fn new(address: Address) -> (r: ByteImmediateIndirect)
        ensures
            r.address == address,
    {
        ByteImmediateIndirect { address }
    }
}

impl ReadByte for ByteImmediateIndirect {
    open spec fn value_in(&self, regs: Seq<u8>, mem: MemoryState) -> u8 {
        mem.read(self.address)
    }

    fn read_byte(&self, cpu: &Cpu, memory: &MemoryMap) -> (r: Byte) {
        memory.read(self.address)
    }
}

impl WriteByte for ByteImmediateIndirect {
    open spec fn stored(&self, regs: Seq<u8>, mem: MemoryState, value: u8) -> (Seq<u8>, MemoryState) {
        (regs, mem.write(self.address, value))
    }

    fn write_byte(&self, cpu: &mut Cpu, memory: &mut MemoryMap, value: Byte) {
        memory.write(value, self.address);
    }
}

/// The byte at 0xFF00 plus a byte that follows the opcode.
pub struct ByteImmediateOffsetIndirect {
    pub offset: Byte,
}

impl ByteImmediateOffsetIndirect {
    pub fn new(offset: Byte) -> (r: ByteImmediateOffsetIndirect)
        ensures
            r.offset == offset,
    {
        ByteImmediateOffsetIndirect { offset }
    }
}

impl ReadByte for ByteImmediateOffsetIndirect {
    open spec fn value_in(&self, regs: Seq<u8>, mem: MemoryState) -> u8 {
        mem.read((0xFF00 + self.offset) as u16)
    }

    fn read_byte(&self, cpu: &Cpu, memory: &MemoryMap) -> (r: Byte) {
        memory.read(0xFF00 + self.offset as Address)
    }
}

impl WriteByte for ByteImmediateOffsetIndirect {
    open spec fn stored(&self, regs: Seq<u8>, mem: MemoryState, value: u8) -> (Seq<u8>, MemoryState) {
        (regs, mem.write((0xFF00 + self.offset) as u16, value))
    }

    fn write_byte(&self, cpu: &mut Cpu, memory: &mut MemoryMap, value: Byte) {
        memory.write(value, 0xFF00 + self.offset as Address);
    }
}

/// A word that follows the opcode.
pub struct WordImmediate {
    pub data: Word,
}

impl WordImmediate {
    pub fn new(value: Word) -> (r: WordImmediate)
        ensures
            r.data == value,
    {
        WordImmediate { data: value }
    }
}

impl ReadWord for WordImmediate {
    open spec fn value_in(&self, regs: Seq<u8>, mem: MemoryState) -> u16 {
        self.data
    }

    fn read_word(&self, cpu: &Cpu, memory: &MemoryMap) -> (r: Word) {
        self.data
    }
}

/// The word at an address that follows the opcode.
pub struct WordImmediateIndirect {
    pub address: Address,
}

impl WordImmediateIndirect {
    pub fn new(address: Address) -> (r: WordImmediateIndirect)
        ensures
            r.address == address,
    {
        WordImmediateIndirect { address }
    }
}

impl WriteWord for WordImmediateIndirect {
    open spec fn stored(&self, regs: Seq<u8>, mem: MemoryState, value: u16) -> (Seq<u8>, MemoryState) {
        (regs, mem.write_word(self.address, value))
    }

    fn write_word(&self, cpu: &mut Cpu, memory: &mut MemoryMap, value: Word) {
        memory.write_word(value, self.address);
    }
}

/// The register file: F A C B E D L H, then SP and PC, little-endian.
pub struct RegisterBank {
    pub registers: Vec<Byte>,
}

impl View for RegisterBank {
    type V = Seq<u8>;

    open spec fn view(&self) -> Seq<u8> {
        self.registers@
    }
}

fn byte_slot_of(r: ByteRegisterName) -> (i: usize)
    ensures
        i == byte_slot(r),
{
    match r {
        ByteRegisterName::RegF => 0,
        ByteRegisterName::RegA => 1,
        ByteRegisterName::RegC => 2,
        ByteRegisterName::RegB => 3,
        ByteRegisterName::RegE => 4,
        ByteRegisterName::RegD => 5,
        ByteRegisterName::RegL => 6,
        ByteRegisterName::RegH => 7,
    }
}

fn word_slot_of(r: WordRegisterName) -> (i: usize)
    ensures
        i == word_slot(r),
{
    match r {
        WordRegisterName::RegAF => 0,
        WordRegisterName::RegBC => 2,
        WordRegisterName::RegDE => 4,
        WordRegisterName::RegHL => 6,
        WordRegisterName::RegSP => 8,
        WordRegisterName::RegPC => 10,
    }
}

impl RegisterBank {
    pub open spec fn wf(&self) -> bool {
        regs_wf(self@)
    }

    /// The register file after boot: A=01 F=B0 BC=0013 DE=00D8 HL=014D
    /// SP=FFFE PC=0100.
    pub open spec fn boot_state() -> Seq<u8> {
        seq![0xB0u8, 0x01, 0x13, 0x00, 0xD8, 0x00, 0x4D, 0x01, 0xFE, 0xFF, 0x00, 0x01]
    }

    pub fn boot() -> (r: RegisterBank)
        ensures
            r@ == RegisterBank::boot_state(),
            r.wf(),
    {
        let registers: Vec<u8> = vec![0xB0, 0x01, 0x13, 0x00, 0xD8, 0x00, 0x4D, 0x01, 0xFE, 0xFF, 0x00, 0x01];
        assert(registers@ =~= RegisterBank::boot_state());
        RegisterBank { registers }
    }

    pub fn read_byte(&self, register: ByteRegisterName) -> (r: Byte)
        requires
            self.wf(),
        ensures
            r == reg_byte(self@, register),
    {
        self.registers[byte_slot_of(register)]
    }

    pub fn read_word(&self, register: WordRegisterName) -> (r: Word)
        requires
            self.wf(),
        ensures
            r == reg_word(self@, register),
    {
        let i = word_slot_of(register);
        self.registers[i] as u16 + 256 * (self.registers[i + 1] as u16)
    }

    /// Writes a byte register. A write to F keeps only its high nibble.
    pub fn write_byte(&mut self, register: ByteRegisterName, value: Byte)
        requires
            old(self).wf(),
        ensures
            final(self).wf(),
            final(self)@ == with_byte(old(self)@, register, value),
    {
        let stored = match register {
            ByteRegisterName::RegF => value - value % 16,
            _ => value,
        };
        self.registers.set(byte_slot_of(register), stored);
    }

    /// Writes a register pair; through AF the low nibble of F stays zero.
    pub fn write_word(&mut self, register: WordRegisterName, value: Word)
        requires
            old(self).wf(),
        ensures
            final(self).wf(),
            final(self)@ == with_word(old(self)@, register, value),
    {
        let i = word_slot_of(register);
        let low = (value % 256) as u8;
        let stored = match register {
            WordRegisterName::RegAF => low - low % 16,
            _ => low,
        };
        self.registers.set(i, stored);
        self.registers.set(i + 1, (value / 256) as u8);
    }

    /// Writes all four flags at once.
    pub fn set_flags(&mut self, z: bool, n: bool, h: bool, c: bool)
        requires
            old(self).wf(),
        ensures
            final(self).wf(),
            final(self)@ == with_flags(old(self)@, z, n, h, c),
    {
        proof {
            lemma_flags_byte(z, n, h, c);
        }
        let f: u8 = (if z { 128u8 } else { 0 }) + (if n { 64u8 } else { 0 }) + (if h { 32u8 } else { 0 }) + (
        if c { 16u8 } else { 0 });
        self.registers.set(0, f);
    }

    pub fn set_flag(&mut self, flag: Flags, value: bool)
        requires
            old(self).wf(),
        ensures
            final(self).wf(),
            final(self)@ == with_flag(old(self)@, flag, value),
    {
        if value {
            self.set_flag_on(flag)
        } else {
            self.set_flag_off(flag)
        }
    }

    pub fn set_flag_on(&mut self, flag: Flags)
        requires
            old(self).wf(),
        ensures
            final(self).wf(),
            final(self)@ == with_flag(old(self)@, flag, true),
    {
        let z = if flag == Flags::Z { true } else { self.check_flag(Flags::Z) };
        let n = if flag == Flags::N { true } else { self.check_flag(Flags::N) };
        let h = if flag == Flags::H { true } else { self.check_flag(Flags::H) };
        let c = if flag == Flags::C { true } else { self.check_flag(Flags::C) };
        self.set_flags(z, n, h, c);
    }

    pub fn set_flag_off(&mut self, flag: Flags)
        requires
            old(self).wf(),
        ensures
            final(self).wf(),
            final(self)@ == with_flag(old(self)@, flag, false),
    {
        let z = if flag == Flags::Z { false } else { self.check_flag(Flags::Z) };
        let n = if flag == Flags::N { false } else { self.check_flag(Flags::N) };
        let h = if flag == Flags::H { false } else { self.check_flag(Flags::H) };
        let c = if flag == Flags::C { false } else { self.check_flag(Flags::C) };
        self.set_flags(z, n, h, c);
    }

    pub fn check_flag(&self, flag: Flags) -> (r: bool)
        requires
            self.wf(),
        ensures
            r == flag_set(self@, flag),
    {
        let weight: u8 = match flag {
            Flags::Z => 128,
            Flags::N => 64,
            Flags::H => 32,
            Flags::C => 16,
        };
        (self.registers[0] / weight) % 2 == 1
    }

    pub fn check_condition(&self, condition: ConditionCodes) -> (r: bool)
        requires
            self.wf(),
        ensures
            r == condition_holds(self@, condition),
    {
        match condition {
            ConditionCodes::NA => true,
            ConditionCodes::NC => !self.check_flag(Flags::C),
            ConditionCodes::NZ => !self.check_flag(Flags::Z),
            ConditionCodes::C => self.check_flag(Flags::C),
            ConditionCodes::Z => self.check_flag(Flags::Z),
        }
    }

    /// Advances PC, wrapping at 16 bits.
    pub fn step_pc(&mut self, increment: u16)
        requires
            old(self).wf(),
        ensures
            final(self).wf(),
            final(self)@ == with_word(
                old(self)@,
                WordRegisterName::RegPC,
                ((reg_word(old(self)@, WordRegisterName::RegPC) + increment) % 0x10000) as u16,
            ),
    {
        let pc = self.read_word(WordRegisterName::RegPC);
        self.write_word(WordRegisterName::RegPC, pc.wrapping_add(increment));
    }
}

/// What an instruction asks of the execute loop besides its cost.
#[derive(Clone, Copy, PartialEq, Eq, Structural, Debug)]
pub enum SideEffect {
    Halt,
    Stop,
    EnableInterrupt,
    EnableInterruptDelayed,
    DisableInterrupt,
}

/// The machine cycles an instruction took, and what it asks of the loop.
#[derive(Clone, Copy, PartialEq, Eq, Structural, Debug)]
pub enum StepResult {
    Step(u8),
    StepSideEffect(u8, SideEffect),
}

/// The processor: registers, interrupt master enable and run state.
pub struct Cpu {
    pub registers: RegisterBank,
    pub ime: bool,
    pub halted: bool,
    pub stopped: bool,
    /// EI sets this; IME turns on once the next instruction has run.
    pub enable_ime_after_next: bool,
    pub cycles_per_second: u32,
}

impl Cpu {
    pub open spec fn wf(&self) -> bool {
        self.registers.wf()
    }

    /// Everything but the registers is as in `other`.
    pub open spec fn same_control(&self, other: &Cpu) -> bool {
        &&& self.ime == other.ime
        &&& self.halted == other.halted
        &&& self.stopped == other.stopped
        &&& self.enable_ime_after_next == other.enable_ime_after_next
        &&& self.cycles_per_second == other.cycles_per_second
    }

    /// The processor as the boot ROM leaves it, running with interrupts off.
    pub fn new() -> (r: Cpu)
        ensures
            r.wf(),
            r.registers@ == RegisterBank::boot_state(),
            !r.ime && !r.halted && !r.stopped && !r.enable_ime_after_next,
    {
        Cpu {
            registers: RegisterBank::boot(),
            ime: false,
            halted: false,
            stopped: false,
            enable_ime_after_next: false,
            cycles_per_second: 1048576,
        }
    }
}

/// Writing any byte to F and reading F back gives that byte with its low
/// nibble cleared.
pub proof fn lemma_flag_register_masks_low_nibble(regs: Seq<u8>, b: u8)
    requires
        regs_wf(regs),
    ensures
        reg_byte(with_byte(regs, ByteRegisterName::RegF, b), ByteRegisterName::RegF) == b & 0xF0,
{
    assert((b - b % 16) as u8 == b & 0xF0) by (bit_vector);
}

} // verus!
