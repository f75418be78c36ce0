use vstd::prelude::*;
use crate::cpu::{
    ByteRegister, ByteRegisterIndirect, ByteRegisterName, ConditionCodes, Cpu, Flags, ReadByte,
    ReadWord, WordRegisterName, WriteByte, WriteWord, condition_holds, flag_set, reg_byte,
    reg_word, regs_wf, lemma_flags_byte, with_byte, with_flags, with_word,
};
use crate::memory_gb::{Address, Byte, MemoryMap, MemoryState, Signed};

verus! {

/// Result byte and Z N H C of an 8-bit addition with optional carry in.
pub open spec fn spec_byte_addition(lhs: u8, rhs: u8, carry_in: bool) -> (u8, bool, bool, bool, bool) {
    let c: int = if carry_in { 1 } else { 0 };
    let sum = lhs + rhs + c;
    ((sum % 256) as u8, sum % 256 == 0, false, lhs % 16 + rhs % 16 + c > 15, sum > 255)
}

/// Result byte and Z N H C of an 8-bit subtraction with optional borrow in.
pub open spec fn spec_byte_subtraction(lhs: u8, rhs: u8, carry_in: bool) -> (u8, bool, bool, bool, bool) {
    let c: int = if carry_in { 1 } else { 0 };
    let diff = lhs - rhs - c;
    ((diff % 256) as u8, diff % 256 == 0, true, lhs % 16 - rhs % 16 - c < 0, diff < 0)
}

/// The carry that an instruction with carry-in adds.
pub open spec fn carry_in(regs: Seq<u8>, with_carry: bool) -> bool {
    with_carry && flag_set(regs, Flags::C)
}

pub open spec fn a_of(regs: Seq<u8>) -> u8 {
    reg_byte(regs, ByteRegisterName::RegA)
}

/// Registers after an ALU result and its flags go to A and F.
pub open spec fn with_alu(regs: Seq<u8>, t: (u8, bool, bool, bool, bool)) -> Seq<u8> {
    with_byte(with_flags(regs, t.1, t.2, t.3, t.4), ByteRegisterName::RegA, t.0)
}

/// Registers after a flags-only result (CP).
pub open spec fn with_alu_flags(regs: Seq<u8>, t: (u8, bool, bool, bool, bool)) -> Seq<u8> {
    with_flags(regs, t.1, t.2, t.3, t.4)
}

/// Rotate and shift results: the byte and the new carry.
pub open spec fn spec_rlc(v: u8) -> (u8, bool) {
    (((v * 2) % 256 + v / 128) as u8, v / 128 == 1)
}

pub open spec fn spec_rrc(v: u8) -> (u8, bool) {
    ((v / 2 + (v % 2) * 128) as u8, v % 2 == 1)
}

pub open spec fn spec_rl(v: u8, carry: bool) -> (u8, bool) {
    (((v * 2) % 256 + if carry { 1int } else { 0 }) as u8, v / 128 == 1)
}

pub open spec fn spec_rr(v: u8, carry: bool) -> (u8, bool) {
    ((v / 2 + if carry { 128int } else { 0 }) as u8, v % 2 == 1)
}

pub open spec fn spec_sla(v: u8) -> (u8, bool) {
    (((v * 2) % 256) as u8, v / 128 == 1)
}

pub open spec fn spec_sra(v: u8) -> (u8, bool) {
    ((v / 2 + (v / 128) * 128) as u8, v % 2 == 1)
}

pub open spec fn spec_srl(v: u8) -> (u8, bool) {
    ((v / 2) as u8, v % 2 == 1)
}

pub open spec fn spec_swap(v: u8) -> (u8, bool) {
    (((v % 16) * 16 + v / 16) as u8, false)
}

/// Registers after a rotate or shift: Z from the result, N and H clear.
pub open spec fn with_shift_flags(regs: Seq<u8>, t: (u8, bool)) -> Seq<u8> {
    with_flags(regs, t.0 == 0, false, false, t.1)
}

pub open spec fn bit_weight(bit: u8) -> int {
    if bit == 0 {
        1
    } else if bit == 1 {
        2
    } else if bit == 2 {
        4
    } else if bit == 3 {
        8
    } else if bit == 4 {
        16
    } else if bit == 5 {
        32
    } else if bit == 6 {
        64
    } else {
        128
    }
}

pub open spec fn bit_is_set(v: u8, bit: u8) -> bool {
    (v as int / bit_weight(bit)) % 2 == 1
}

/// DAA: A and the new carry after BCD adjustment.
pub open spec fn spec_daa(a: u8, n: bool, h: bool, c: bool) -> (u8, bool) {
    if !n {
        let step1: int = if c || a > 0x99 { a + 0x60 } else { a as int };
        let step2: int = if h || a % 16 > 9 { step1 + 6 } else { step1 };
        ((step2 % 256) as u8, c || a > 0x99)
    } else {
        let step1: int = if c { a - 0x60 } else { a as int };
        let step2: int = if h { step1 - 6 } else { step1 };
        ((step2 % 256) as u8, c)
    }
}

/// SP lowered by two, then the pair written there.
pub open spec fn spec_push(regs: Seq<u8>, mem: MemoryState, r: WordRegisterName) -> (Seq<u8>, MemoryState) {
    let sp = ((reg_word(regs, WordRegisterName::RegSP) + 0xFFFE) % 0x10000) as u16;
    let regs1 = with_word(regs, WordRegisterName::RegSP, sp);
    (regs1, mem.write_word(sp, reg_word(regs1, r)))
}

/// The word at SP read into the pair, then SP raised by two.
pub open spec fn spec_pop(regs: Seq<u8>, mem: MemoryState, r: WordRegisterName) -> Seq<u8> {
    let sp = reg_word(regs, WordRegisterName::RegSP);
    with_word(
        with_word(regs, r, mem.read_word(sp)),
        WordRegisterName::RegSP,
        ((sp + 2) % 0x10000) as u16,
    )
}

pub open spec fn pc_of(regs: Seq<u8>) -> u16 {
    reg_word(regs, WordRegisterName::RegPC)
}

pub open spec fn hl_of(regs: Seq<u8>) -> u16 {
    reg_word(regs, WordRegisterName::RegHL)
}

/// The byte of a signed offset in two's complement.
pub open spec fn offset_byte(offset: i8) -> int {
    if offset < 0 {
        offset + 256
    } else {
        offset as int
    }
}

impl Cpu {
    pub fn byte_addition(lhs: Byte, rhs: Byte, carry_in: bool) -> (r: (Byte, bool, bool, bool, bool))
        ensures
            r == spec_byte_addition(lhs, rhs, carry_in),
    {
        let c: u16 = if carry_in { 1 } else { 0 };
        let sum: u16 = lhs as u16 + rhs as u16 + c;
        let half_carry = (lhs % 16) as u16 + (rhs % 16) as u16 + c > 15;
        ((sum % 256) as u8, sum % 256 == 0, false, half_carry, sum > 255)
    }

    pub fn byte_subtraction(lhs: Byte, rhs: Byte, carry_in: bool) -> (r: (Byte, bool, bool, bool, bool))
        ensures
            r == spec_byte_subtraction(lhs, rhs, carry_in),
    {
        let c: i16 = if carry_in { 1 } else { 0 };
        let diff: i16 = lhs as i16 - rhs as i16 - c;
        let half_borrow = (lhs % 16) as i16 - (rhs % 16) as i16 - c < 0;
        let wrapped: i16 = if diff < 0 { diff + 256 } else { diff };
        ((wrapped as u8), wrapped == 0, true, half_borrow, diff < 0)
    }

    pub fn ld_byte<T: WriteByte, U: ReadByte>(&mut self, memory: &mut MemoryMap, dest: T, src: U)
        requires
            old(self).wf(),
            old(memory).wf(),
        ensures
            final(self).wf(),
            final(memory).wf(),
            final(self).same_control(old(self)),
            (final(self).registers@, final(memory)@) == dest.stored(
                old(self).registers@,
                old(memory)@,
                src.value_in(old(self).registers@, old(memory)@),
            ),
    {
        let source_value = src.read_byte(self, memory);
        dest.write_byte(self, memory, source_value);
    }

    fn ld_byte_hl_step(&mut self, memory: &mut MemoryMap, store: bool, increment: bool)
        requires
            old(self).wf(),
            old(memory).wf(),
        ensures
            final(self).wf(),
            final(memory).wf(),
            final(self).same_control(old(self)),
            ({
                let regs = old(self).registers@;
                let hl = hl_of(regs);
                let next_hl = (if increment { (hl + 1) % 0x10000 } else { (hl + 0xFFFF) % 0x10000 }) as u16;
                if store {
                    final(memory)@ == old(memory)@.write(hl, a_of(regs)) && final(self).registers@
                        == with_word(regs, WordRegisterName::RegHL, next_hl)
                } else {
                    final(memory)@ == old(memory)@ && final(self).registers@ == with_word(
                        with_byte(regs, ByteRegisterName::RegA, old(memory)@.read(hl)),
                        WordRegisterName::RegHL,
                        next_hl,
                    )
                }
            }),
    {
        if store {
            self.ld_byte(
                memory,
                ByteRegisterIndirect::new(WordRegisterName::RegHL),
                ByteRegister::new(ByteRegisterName::RegA),
            );
        } else {
            self.ld_byte(
                memory,
                ByteRegister::new(ByteRegisterName::RegA),
                ByteRegisterIndirect::new(WordRegisterName::RegHL),
            );
        }
        let hl = self.registers.read_word(WordRegisterName::RegHL);
        let next = if increment { hl.wrapping_add(1) } else { hl.wrapping_sub(1) };
        self.registers.write_word(WordRegisterName::RegHL, next);
    }

    /// (HL) <- A, then HL is incremented.
    pub fn ld_byte_0x22(&mut self, memory: &mut MemoryMap)
        requires
            old(self).wf(),
            old(memory).wf(),
        ensures
            final(self).wf(),
            final(memory).wf(),
            final(self).same_control(old(self)),
            final(memory)@ == old(memory)@.write(hl_of(old(self).registers@), a_of(old(self).registers@)),
            final(self).registers@ == with_word(
                old(self).registers@,
                WordRegisterName::RegHL,
                ((hl_of(old(self).registers@) + 1) % 0x10000) as u16,
            ),
    {
        self.ld_byte_hl_step(memory, true, true);
    }

    /// A <- (HL), then HL is incremented.
    pub fn ld_byte_0x2a(&mut self, memory: &mut MemoryMap)
        requires
            old(self).wf(),
            old(memory).wf(),
        ensures
            final(self).wf(),
            final(memory).wf(),
            final(self).same_control(old(self)),
            final(memory)@ == old(memory)@,
            final(self).registers@ == with_word(
                with_byte(
                    old(self).registers@,
                    ByteRegisterName::RegA,
                    old(memory)@.read(hl_of(old(self).registers@)),
                ),
                WordRegisterName::RegHL,
                ((hl_of(old(self).registers@) + 1) % 0x10000) as u16,
            ),
    {
        self.ld_byte_hl_step(memory, false, true);
    }

    /// (HL) <- A, then HL is decremented.
    pub fn ld_byte_0x32(&mut self, memory: &mut MemoryMap)
        requires
            old(self).wf(),
            old(memory).wf(),
        ensures
            final(self).wf(),
            final(memory).wf(),
            final(self).same_control(old(self)),
            final(memory)@ == old(memory)@.write(hl_of(old(self).registers@), a_of(old(self).registers@)),
            final(self).registers@ == with_word(
                old(self).registers@,
                WordRegisterName::RegHL,
                ((hl_of(old(self).registers@) + 0xFFFF) % 0x10000) as u16,
            ),
    {
        self.ld_byte_hl_step(memory, true, false);
    }

    /// A <- (HL), then HL is decremented.
    pub fn ld_byte_0x3a(&mut self, memory: &mut MemoryMap)
        requires
            old(self).wf(),
            old(memory).wf(),
        ensures
            final(self).wf(),
            final(memory).wf(),
            final(self).same_control(old(self)),
            final(memory)@ == old(memory)@,
            final(self).registers@ == with_word(
                with_byte(
                    old(self).registers@,
                    ByteRegisterName::RegA,
                    old(memory)@.read(hl_of(old(self).registers@)),
                ),
                WordRegisterName::RegHL,
                ((hl_of(old(self).registers@) + 0xFFFF) % 0x10000) as u16,
            ),
    {
        self.ld_byte_hl_step(memory, false, false);
    }

    pub fn ld_word<T: WriteWord, U: ReadWord>(&mut self, memory: &mut MemoryMap, dest: T, src: U)
        requires
            old(self).wf(),
            old(memory).wf(),
        ensures
            final(self).wf(),
            final(memory).wf(),
            final(self).same_control(old(self)),
            (final(self).registers@, final(memory)@) == dest.stored(
                old(self).registers@,
                old(memory)@,
                src.value_in(old(self).registers@, old(memory)@),
            ),
    {
        let source_value = src.read_word(self, memory);
        dest.write_word(self, memory, source_value);
    }

    /// SP is lowered by two and the pair is written there.
    pub fn push(&mut self, memory: &mut MemoryMap, register: WordRegisterName)
        requires
            old(self).wf(),
            old(memory).wf(),
        ensures
            final(self).wf(),
            final(memory).wf(),
            final(self).same_control(old(self)),
            (final(self).registers@, final(memory)@) == spec_push(
                old(self).registers@,
                old(memory)@,
                register,
            ),
    {
        let new_stack_pointer = self.registers.read_word(WordRegisterName::RegSP).wrapping_sub(2);
        self.registers.write_word(WordRegisterName::RegSP, new_stack_pointer);
        let contents = self.registers.read_word(register);
        memory.write_word(contents, new_stack_pointer);
    }

    /// The word at SP goes to the pair (POP AF keeps F's low nibble zero), then
    /// SP is raised by two.
    pub fn pop(&mut self, memory: &MemoryMap, register: WordRegisterName)
        requires
            old(self).wf(),
            memory.wf(),
        ensures
            final(self).wf(),
            final(self).same_control(old(self)),
            final(self).registers@ == spec_pop(old(self).registers@, memory@, register),
    {
        let address = self.registers.read_word(WordRegisterName::RegSP);
        let contents = memory.read_word(address);
        self.registers.write_word(register, contents);
        self.registers.write_word(WordRegisterName::RegSP, address.wrapping_add(2));
    }

    /// ADD and ADC: A <- A + operand (+ carry), with Z 0 H C from the sum.
    pub fn add_byte<T: ReadByte>(&mut self, memory: &MemoryMap, src: T, with_carry: bool)
        requires
            old(self).wf(),
            memory.wf(),
        ensures
            final(self).wf(),
            final(self).same_control(old(self)),
            final(self).registers@ == with_alu(
                old(self).registers@,
                spec_byte_addition(
                    a_of(old(self).registers@),
                    src.value_in(old(self).registers@, memory@),
                    carry_in(old(self).registers@, with_carry),
                ),
            ),
    {
        let lhs = self.registers.read_byte(ByteRegisterName::RegA);
        let rhs = src.read_byte(self, memory);
        let carry = with_carry && self.registers.check_flag(Flags::C);
        let (result, zero, negate, half_carry, carry_out) = Cpu::byte_addition(lhs, rhs, carry);
        self.registers.set_flags(zero, negate, half_carry, carry_out);
        self.registers.write_byte(ByteRegisterName::RegA, result);
    }

    /// SUB and SBC: A <- A - operand (- carry), with Z 1 H C from the difference.
    pub fn sub_byte<T: ReadByte>(&mut self, memory: &MemoryMap, src: T, with_carry: bool)
        requires
            old(self).wf(),
            memory.wf(),
        ensures
            final(self).wf(),
            final(self).same_control(old(self)),
            final(self).registers@ == with_alu(
                old(self).registers@,
                spec_byte_subtraction(
                    a_of(old(self).registers@),
                    src.value_in(old(self).registers@, memory@),
                    carry_in(old(self).registers@, with_carry),
                ),
            ),
    {
        let lhs = self.registers.read_byte(ByteRegisterName::RegA);
        let rhs = src.read_byte(self, memory);
        let carry = with_carry && self.registers.check_flag(Flags::C);
        let (result, zero, negate, half_carry, carry_out) = Cpu::byte_subtraction(lhs, rhs, carry);
        self.registers.set_flags(zero, negate, half_carry, carry_out);
        self.registers.write_byte(ByteRegisterName::RegA, result);
    }

    /// CP: the flags of A - operand; A is kept.
    pub fn cp<T: ReadByte>(&mut self, memory: &MemoryMap, src: T)
        requires
            old(self).wf(),
            memory.wf(),
        ensures
            final(self).wf(),
            final(self).same_control(old(self)),
            final(self).registers@ == with_alu_flags(
                old(self).registers@,
                spec_byte_subtraction(
                    a_of(old(self).registers@),
                    src.value_in(old(self).registers@, memory@),
                    false,
                ),
            ),
    {
        let lhs = self.registers.read_byte(ByteRegisterName::RegA);
        let rhs = src.read_byte(self, memory);
        let (_, zero, negate, half_carry, carry_out) = Cpu::byte_subtraction(lhs, rhs, false);
        self.registers.set_flags(zero, negate, half_carry, carry_out);
    }

    pub fn and<T: ReadByte>(&mut self, memory: &MemoryMap, src: T)
        requires
            old(self).wf(),
            memory.wf(),
        ensures
            final(self).wf(),
            final(self).same_control(old(self)),
            ({
                let r = a_of(old(self).registers@) & src.value_in(old(self).registers@, memory@);
                final(self).registers@ == with_alu(old(self).registers@, (r, r == 0, false, true, false))
            }),
    {
        let lhs = self.registers.read_byte(ByteRegisterName::RegA);
        let rhs = src.read_byte(self, memory);
        let result = lhs & rhs;
        self.registers.set_flags(result == 0, false, true, false);
        self.registers.write_byte(ByteRegisterName::RegA, result);
    }

    pub fn or<T: ReadByte>(&mut self, memory: &MemoryMap, src: T)
        requires
            old(self).wf(),
            memory.wf(),
        ensures
            final(self).wf(),
            final(self).same_control(old(self)),
            ({
                let r = a_of(old(self).registers@) | src.value_in(old(self).registers@, memory@);
                final(self).registers@ == with_alu(old(self).registers@, (r, r == 0, false, false, false))
            }),
    {
        let lhs = self.registers.read_byte(ByteRegisterName::RegA);
        let rhs = src.read_byte(self, memory);
        let result = lhs | rhs;
        self.registers.set_flags(result == 0, false, false, false);
        self.registers.write_byte(ByteRegisterName::RegA, result);
    }

    pub fn xor<T: ReadByte>(&mut self, memory: &MemoryMap, src: T)
        requires
            old(self).wf(),
            memory.wf(),
        ensures
            final(self).wf(),
            final(self).same_control(old(self)),
            ({
                let r = a_of(old(self).registers@) ^ src.value_in(old(self).registers@, memory@);
                final(self).registers@ == with_alu(old(self).registers@, (r, r == 0, false, false, false))
            }),
    {
        let lhs = self.registers.read_byte(ByteRegisterName::RegA);
        let rhs = src.read_byte(self, memory);
        let result = lhs ^ rhs;
        self.registers.set_flags(result == 0, false, false, false);
        self.registers.write_byte(ByteRegisterName::RegA, result);
    }

    /// INC r: Z, N=0, H from the low nibble; C kept.
    pub fn inc_byte<T: ReadByte + WriteByte>(&mut self, memory: &mut MemoryMap, operand: T)
        requires
            old(self).wf(),
            old(memory).wf(),
        ensures
            final(self).wf(),
            final(memory).wf(),
            final(self).same_control(old(self)),
            ({
                let regs = old(self).registers@;
                let v = operand.value_in(regs, old(memory)@);
                let t = spec_byte_addition(v, 1, false);
                (final(self).registers@, final(memory)@) == operand.stored(
                    with_flags(regs, t.1, false, t.3, flag_set(regs, Flags::C)),
                    old(memory)@,
                    t.0,
                )
            }),
    {
        let pre_increment = operand.read_byte(self, memory);
        let (post_increment, zero, negate, half_carry, _) = Cpu::byte_addition(pre_increment, 1, false);
        let carry = self.registers.check_flag(Flags::C);
        self.registers.set_flags(zero, negate, half_carry, carry);
        operand.write_byte(self, memory, post_increment);
    }

    /// DEC r: Z, N=1, H from the low nibble; C kept.
    pub fn dec_byte<T: ReadByte + WriteByte>(&mut self, memory: &mut MemoryMap, operand: T)
        requires
            old(self).wf(),
            old(memory).wf(),
        ensures
            final(self).wf(),
            final(memory).wf(),
            final(self).same_control(old(self)),
            ({
                let regs = old(self).registers@;
                let v = operand.value_in(regs, old(memory)@);
                let t = spec_byte_subtraction(v, 1, false);
                (final(self).registers@, final(memory)@) == operand.stored(
                    with_flags(regs, t.1, true, t.3, flag_set(regs, Flags::C)),
                    old(memory)@,
                    t.0,
                )
            }),
    {
        let pre_decrement = operand.read_byte(self, memory);
        let (post_decrement, zero, negate, half_carry, _) = Cpu::byte_subtraction(pre_decrement, 1, false);
        let carry = self.registers.check_flag(Flags::C);
        self.registers.set_flags(zero, negate, half_carry, carry);
        operand.write_byte(self, memory, post_decrement);
    }

    /// INC rr: no flags change.
    pub fn inc_word<T: ReadWord + WriteWord>(&mut self, memory: &mut MemoryMap, operand: T)
        requires
            old(self).wf(),
            old(memory).wf(),
        ensures
            final(self).wf(),
            final(memory).wf(),
            final(self).same_control(old(self)),
            (final(self).registers@, final(memory)@) == operand.stored(
                old(self).registers@,
                old(memory)@,
                ((operand.value_in(old(self).registers@, old(memory)@) + 1) % 0x10000) as u16,
            ),
    {
        let pre_increment = operand.read_word(self, memory);
        operand.write_word(self, memory, pre_increment.wrapping_add(1));
    }

    /// DEC rr: no flags change.
    pub fn dec_word<T: ReadWord + WriteWord>(&mut self, memory: &mut MemoryMap, operand: T)
        requires
            old(self).wf(),
            old(memory).wf(),
        ensures
            final(self).wf(),
            final(memory).wf(),
            final(self).same_control(old(self)),
            (final(self).registers@, final(memory)@) == operand.stored(
                old(self).registers@,
                old(memory)@,
                ((operand.value_in(old(self).registers@, old(memory)@) + 0xFFFF) % 0x10000) as u16,
            ),
    {
        let pre_decrement = operand.read_word(self, memory);
        operand.write_word(self, memory, pre_decrement.wrapping_sub(1));
    }

    /// ADD SP,e and LD HL,SP+e: SP plus a signed offset goes to `destination`.
    /// Z=0, N=0; H and C are the carries out of bits 3 and 7 when SP's low
    /// byte and the offset byte are added.
    pub fn add_sp_i8(&mut self, destination: WordRegisterName, offset: Signed)
        requires
            old(self).wf(),
        ensures
            final(self).wf(),
            final(self).same_control(old(self)),
            ({
                let regs = old(self).registers@;
                let sp = reg_word(regs, WordRegisterName::RegSP);
                let b = offset_byte(offset);
                final(self).registers@ == with_word(
                    with_flags(regs, false, false, sp % 16 + b % 16 > 15, sp % 256 + b > 255),
                    destination,
                    ((sp + offset + 0x10000) % 0x10000) as u16,
                )
            }),
    {
        let sp_value = self.registers.read_word(WordRegisterName::RegSP);
        let b: u16 = if offset < 0 { (offset as i16 + 256) as u16 } else { offset as u16 };
        assert(b == offset_byte(offset));
        let half_carry = sp_value % 16 + b % 16 > 15;
        let carry = sp_value % 256 + b > 255;
        let total: i32 = sp_value as i32 + offset as i32 + 0x10000;
        let sum = (total % 0x10000) as u16;
        self.registers.set_flags(false, false, half_carry, carry);
        self.registers.write_word(destination, sum);
    }

    /// ADD HL,rr: N=0, H from bit 11, C from bit 15, Z kept.
    pub fn add_hl_word<T: ReadWord>(&mut self, memory: &MemoryMap, operand: T)
        requires
            old(self).wf(),
            memory.wf(),
        ensures
            final(self).wf(),
            final(self).same_control(old(self)),
            ({
                let regs = old(self).registers@;
                let hl = hl_of(regs);
                let v = operand.value_in(regs, memory@);
                final(self).registers@ == with_word(
                    with_flags(
                        regs,
                        flag_set(regs, Flags::Z),
                        false,
                        hl % 4096 + v % 4096 > 4095,
                        hl + v > 0xFFFF,
                    ),
                    WordRegisterName::RegHL,
                    ((hl + v) % 0x10000) as u16,
                )
            }),
    {
        let lhs = self.registers.read_word(WordRegisterName::RegHL);
        let rhs = operand.read_word(self, memory);
        let half_carry = lhs % 4096 + rhs % 4096 > 4095;
        let carry = lhs as u32 + rhs as u32 > 0xFFFF;
        let zero = self.registers.check_flag(Flags::Z);
        self.registers.set_flags(zero, false, half_carry, carry);
        self.registers.write_word(WordRegisterName::RegHL, lhs.wrapping_add(rhs));
    }

    /// RL: through the carry; bit 7 to C, C to bit 0. Z from the result, N and H cleared.
    pub fn rl<T: ReadByte + WriteByte>(&mut self, memory: &mut MemoryMap, item: T)
        requires
            old(self).wf(),
            old(memory).wf(),
        ensures
            final(self).wf(),
            final(memory).wf(),
            final(self).same_control(old(self)),
            ({
                let regs = old(self).registers@;
                let v = item.value_in(regs, old(memory)@);
                let t = spec_rl(v, flag_set(regs, Flags::C));
                (final(self).registers@, final(memory)@) == item.stored(
                    with_shift_flags(regs, t),
                    old(memory)@,
                    t.0,
                )
            }),
    {
        let value_before = item.read_byte(self, memory);
        let carry = self.registers.check_flag(Flags::C);
        let new_value = (value_before % 128) * 2 + if carry { 1u8 } else { 0 };
        let end = value_before / 128 == 1;
        self.registers.set_flags(new_value == 0, false, false, end);
        item.write_byte(self, memory, new_value);
    }

    /// RR: through the carry; bit 0 to C, C to bit 7. Z from the result, N and H cleared.
    pub fn rr<T: ReadByte + WriteByte>(&mut self, memory: &mut MemoryMap, item: T)
        requires
            old(self).wf(),
            old(memory).wf(),
        ensures
            final(self).wf(),
            final(memory).wf(),
            final(self).same_control(old(self)),
            ({
                let regs = old(self).registers@;
                let v = item.value_in(regs, old(memory)@);
                let t = spec_rr(v, flag_set(regs, Flags::C));
                (final(self).registers@, final(memory)@) == item.stored(
                    with_shift_flags(regs, t),
                    old(memory)@,
                    t.0,
                )
            }),
    {
        let value_before = item.read_byte(self, memory);
        let carry = self.registers.check_flag(Flags::C);
        let new_value = value_before / 2 + if carry { 128u8 } else { 0 };
        let end = value_before % 2 == 1;
        self.registers.set_flags(new_value == 0, false, false, end);
        item.write_byte(self, memory, new_value);
    }

    /// RLC: bit 7 to bit 0 and to C. Z from the result, N and H cleared.
    pub fn rlc<T: ReadByte + WriteByte>(&mut self, memory: &mut MemoryMap, item: T)
        requires
            old(self).wf(),
            old(memory).wf(),
        ensures
            final(self).wf(),
            final(memory).wf(),
            final(self).same_control(old(self)),
            ({
                let regs = old(self).registers@;
                let v = item.value_in(regs, old(memory)@);
                let t = spec_rlc(v);
                (final(self).registers@, final(memory)@) == item.stored(
                    with_shift_flags(regs, t),
                    old(memory)@,
                    t.0,
                )
            }),
    {
        let value_before = item.read_byte(self, memory);
        let new_value = (value_before % 128) * 2 + value_before / 128;
        let end = value_before / 128 == 1;
        self.registers.set_flags(new_value == 0, false, false, end);
        item.write_byte(self, memory, new_value);
    }

    /// RRC: bit 0 to bit 7 and to C. Z from the result, N and H cleared.
    pub fn rrc<T: ReadByte + WriteByte>(&mut self, memory: &mut MemoryMap, item: T)
        requires
            old(self).wf(),
            old(memory).wf(),
        ensures
            final(self).wf(),
            final(memory).wf(),
            final(self).same_control(old(self)),
            ({
                let regs = old(self).registers@;
                let v = item.value_in(regs, old(memory)@);
                let t = spec_rrc(v);
                (final(self).registers@, final(memory)@) == item.stored(
                    with_shift_flags(regs, t),
                    old(memory)@,
                    t.0,
                )
            }),
    {
        let value_before = item.read_byte(self, memory);
        let new_value = value_before / 2 + (value_before % 2) * 128;
        let end = value_before % 2 == 1;
        self.registers.set_flags(new_value == 0, false, false, end);
        item.write_byte(self, memory, new_value);
    }

    /// SLA: bit 7 to C, bit 0 cleared. Z from the result, N and H cleared.
    pub fn sla<T: ReadByte + WriteByte>(&mut self, memory: &mut MemoryMap, item: T)
        requires
            old(self).wf(),
            old(memory).wf(),
        ensures
            final(self).wf(),
            final(memory).wf(),
            final(self).same_control(old(self)),
            ({
                let regs = old(self).registers@;
                let v = item.value_in(regs, old(memory)@);
                let t = spec_sla(v);
                (final(self).registers@, final(memory)@) == item.stored(
                    with_shift_flags(regs, t),
                    old(memory)@,
                    t.0,
                )
            }),
    {
        let value_before = item.read_byte(self, memory);
        let new_value = (value_before % 128) * 2;
        let end = value_before / 128 == 1;
        self.registers.set_flags(new_value == 0, false, false, end);
        item.write_byte(self, memory, new_value);
    }

    /// SRL: bit 0 to C, bit 7 cleared. Z from the result, N and H cleared.
    pub fn srl<T: ReadByte + WriteByte>(&mut self, memory: &mut MemoryMap, item: T)
        requires
            old(self).wf(),
            old(memory).wf(),
        ensures
            final(self).wf(),
            final(memory).wf(),
            final(self).same_control(old(self)),
            ({
                let regs = old(self).registers@;
                let v = item.value_in(regs, old(memory)@);
                let t = spec_srl(v);
                (final(self).registers@, final(memory)@) == item.stored(
                    with_shift_flags(regs, t),
                    old(memory)@,
                    t.0,
                )
            }),
    {
        let value_before = item.read_byte(self, memory);
        let new_value = value_before / 2;
        let end = value_before % 2 == 1;
        self.registers.set_flags(new_value == 0, false, false, end);
        item.write_byte(self, memory, new_value);
    }

    /// SRA: bit 0 to C, bit 7 kept. Z from the result, N and H cleared.
    pub fn sra<T: ReadByte + WriteByte>(&mut self, memory: &mut MemoryMap, item: T)
        requires
            old(self).wf(),
            old(memory).wf(),
        ensures
            final(self).wf(),
            final(memory).wf(),
            final(self).same_control(old(self)),
            ({
                let regs = old(self).registers@;
                let v = item.value_in(regs, old(memory)@);
                let t = spec_sra(v);
                (final(self).registers@, final(memory)@) == item.stored(
                    with_shift_flags(regs, t),
                    old(memory)@,
                    t.0,
                )
            }),
    {
        let value_before = item.read_byte(self, memory);
        let new_value = value_before / 2 + (value_before / 128) * 128;
        let end = value_before % 2 == 1;
        self.registers.set_flags(new_value == 0, false, false, end);
        item.write_byte(self, memory, new_value);
    }

    /// SWAP: the nibbles exchange; C cleared. Z from the result, N and H cleared.
    pub fn swap<T: ReadByte + WriteByte>(&mut self, memory: &mut MemoryMap, item: T)
        requires
            old(self).wf(),
            old(memory).wf(),
        ensures
            final(self).wf(),
            final(memory).wf(),
            final(self).same_control(old(self)),
            ({
                let regs = old(self).registers@;
                let v = item.value_in(regs, old(memory)@);
                let t = spec_swap(v);
                (final(self).registers@, final(memory)@) == item.stored(
                    with_shift_flags(regs, t),
                    old(memory)@,
                    t.0,
                )
            }),
    {
        let value_before = item.read_byte(self, memory);
        let new_value = (value_before % 16) * 16 + value_before / 16;
        let end = false;
        self.registers.set_flags(new_value == 0, false, false, end);
        item.write_byte(self, memory, new_value);
    }

    /// JP: PC <- target when the condition holds; returns whether it did.
    pub fn jp<T: ReadWord>(&mut self, memory: &MemoryMap, to: T, condition: ConditionCodes) -> (branched: bool)
        requires
            old(self).wf(),
            memory.wf(),
        ensures
            final(self).wf(),
            final(self).same_control(old(self)),
            branched == condition_holds(old(self).registers@, condition),
            branched ==> final(self).registers@ == with_word(
                old(self).registers@,
                WordRegisterName::RegPC,
                to.value_in(old(self).registers@, memory@),
            ),
            !branched ==> final(self).registers@ == old(self).registers@,
    {
        if self.registers.check_condition(condition) {
            let address = to.read_word(self, memory);
            self.registers.write_word(WordRegisterName::RegPC, address);
            true
        } else {
            false
        }
    }

    /// JR: PC moves by a signed offset when the condition holds.
    pub fn jr(&mut self, offset: i8, condition: ConditionCodes) -> (branched: bool)
        requires
            old(self).wf(),
        ensures
            final(self).wf(),
            final(self).same_control(old(self)),
            branched == condition_holds(old(self).registers@, condition),
            branched ==> final(self).registers@ == with_word(
                old(self).registers@,
                WordRegisterName::RegPC,
                ((pc_of(old(self).registers@) + offset + 0x10000) % 0x10000) as u16,
            ),
            !branched ==> final(self).registers@ == old(self).registers@,
    {
        if self.registers.check_condition(condition) {
            let current_address = self.registers.read_word(WordRegisterName::RegPC);
            let total: i32 = current_address as i32 + offset as i32 + 0x10000;
            self.registers.write_word(WordRegisterName::RegPC, (total % 0x10000) as u16);
            true
        } else {
            false
        }
    }

    /// CALL: when the condition holds, PC is pushed and PC <- address.
    pub fn call(&mut self, memory: &mut MemoryMap, address: Address, condition: ConditionCodes) -> (branched: bool)
        requires
            old(self).wf(),
            old(memory).wf(),
        ensures
            final(self).wf(),
            final(memory).wf(),
            final(self).same_control(old(self)),
            branched == condition_holds(old(self).registers@, condition),
            branched ==> {
                let pushed = spec_push(old(self).registers@, old(memory)@, WordRegisterName::RegPC);
                &&& final(memory)@ == pushed.1
                &&& final(self).registers@ == with_word(pushed.0, WordRegisterName::RegPC, address)
            },
            !branched ==> final(self).registers@ == old(self).registers@ && final(memory)@ == old(memory)@,
    {
        if self.registers.check_condition(condition) {
            self.push(memory, WordRegisterName::RegPC);
            self.registers.write_word(WordRegisterName::RegPC, address);
            true
        } else {
            false
        }
    }

    /// RET: when the condition holds, PC is popped.
    pub fn ret(&mut self, memory: &MemoryMap, condition: ConditionCodes) -> (branched: bool)
        requires
            old(self).wf(),
            memory.wf(),
        ensures
            final(self).wf(),
            final(self).same_control(old(self)),
            branched == condition_holds(old(self).registers@, condition),
            branched ==> final(self).registers@ == spec_pop(
                old(self).registers@,
                memory@,
                WordRegisterName::RegPC,
            ),
            !branched ==> final(self).registers@ == old(self).registers@,
    {
        if self.registers.check_condition(condition) {
            self.pop(memory, WordRegisterName::RegPC);
            true
        } else {
            false
        }
    }

    pub fn nop(&mut self)
        ensures
            final(self).registers@ == old(self).registers@,
            final(self).same_control(old(self)),
    {
    }

    /// RST: PC is pushed and PC <- the fixed low-page address.
    pub fn rst(&mut self, memory: &mut MemoryMap, address: Address)
        requires
            old(self).wf(),
            old(memory).wf(),
        ensures
            final(self).wf(),
            final(memory).wf(),
            final(self).same_control(old(self)),
            ({
                let pushed = spec_push(old(self).registers@, old(memory)@, WordRegisterName::RegPC);
                &&& final(memory)@ == pushed.1
                &&& final(self).registers@ == with_word(pushed.0, WordRegisterName::RegPC, address)
            }),
    {
        self.push(memory, WordRegisterName::RegPC);
        self.registers.write_word(WordRegisterName::RegPC, address);
    }

    /// CPL: A <- !A; N and H set.
    pub fn cpl(&mut self)
        requires
            old(self).wf(),
        ensures
            final(self).wf(),
            final(self).same_control(old(self)),
            ({
                let regs = old(self).registers@;
                final(self).registers@ == with_byte(
                    with_flags(regs, flag_set(regs, Flags::Z), true, true, flag_set(regs, Flags::C)),
                    ByteRegisterName::RegA,
                    (255 - a_of(regs)) as u8,
                )
            }),
    {
        let a_before = self.registers.read_byte(ByteRegisterName::RegA);
        let zero = self.registers.check_flag(Flags::Z);
        let carry = self.registers.check_flag(Flags::C);
        self.registers.set_flags(zero, true, true, carry);
        self.registers.write_byte(ByteRegisterName::RegA, 255 - a_before);
    }

    /// CCF: C complemented; N and H cleared.
    pub fn ccf(&mut self)
        requires
            old(self).wf(),
        ensures
            final(self).wf(),
            final(self).same_control(old(self)),
            ({
                let regs = old(self).registers@;
                final(self).registers@ == with_flags(
                    regs,
                    flag_set(regs, Flags::Z),
                    false,
                    false,
                    !flag_set(regs, Flags::C),
                )
            }),
    {
        let zero = self.registers.check_flag(Flags::Z);
        let carry = self.registers.check_flag(Flags::C);
        self.registers.set_flags(zero, false, false, !carry);
    }

    /// SCF: C set; N and H cleared.
    pub fn scf(&mut self)
        requires
            old(self).wf(),
        ensures
            final(self).wf(),
            final(self).same_control(old(self)),
            final(self).registers@ == with_flags(
                old(self).registers@,
                flag_set(old(self).registers@, Flags::Z),
                false,
                false,
                true,
            ),
    {
        let zero = self.registers.check_flag(Flags::Z);
        self.registers.set_flags(zero, false, false, true);
    }

    /// BIT b: Z set when bit b is clear; N cleared, H set, C kept.
    pub fn bit<T: ReadByte>(&mut self, memory: &MemoryMap, bit_position: u8, item: T)
        requires
            old(self).wf(),
            memory.wf(),
            bit_position < 8,
        ensures
            final(self).wf(),
            final(self).same_control(old(self)),
            ({
                let regs = old(self).registers@;
                let v = item.value_in(regs, memory@);
                final(self).registers@ == with_flags(
                    regs,
                    !bit_is_set(v, bit_position),
                    false,
                    true,
                    flag_set(regs, Flags::C),
                )
            }),
    {
        let value = item.read_byte(self, memory);
        let weight = Cpu::bit_mask(bit_position);
        let carry = self.registers.check_flag(Flags::C);
        self.registers.set_flags((value / weight) % 2 == 0, false, true, carry);
    }

    fn bit_mask(bit_position: u8) -> (r: u8)
        requires
            bit_position < 8,
        ensures
            r == bit_weight(bit_position),
    {
        if bit_position == 0 {
            1
        } else if bit_position == 1 {
            2
        } else if bit_position == 2 {
            4
        } else if bit_position == 3 {
            8
        } else if bit_position == 4 {
            16
        } else if bit_position == 5 {
            32
        } else if bit_position == 6 {
            64
        } else {
            128
        }
    }

    /// RES b: bit b cleared; flags kept.
    pub fn res<T: ReadByte + WriteByte>(&mut self, memory: &mut MemoryMap, bit_position: u8, item: T)
        requires
            old(self).wf(),
            old(memory).wf(),
            bit_position < 8,
        ensures
            final(self).wf(),
            final(memory).wf(),
            final(self).same_control(old(self)),
            ({
                let regs = old(self).registers@;
                let v = item.value_in(regs, old(memory)@);
                (final(self).registers@, final(memory)@) == item.stored(
                    regs,
                    old(memory)@,
                    (if bit_is_set(v, bit_position) { v - bit_weight(bit_position) } else { v as int }) as u8,
                )
            }),
    {
        let value = item.read_byte(self, memory);
        let weight = Cpu::bit_mask(bit_position);
        let new_value = if (value / weight) % 2 == 1 { value - weight } else { value };
        item.write_byte(self, memory, new_value);
    }

    /// SET b: bit b set; flags kept.
    pub fn set<T: ReadByte + WriteByte>(&mut self, memory: &mut MemoryMap, bit_position: u8, item: T)
        requires
            old(self).wf(),
            old(memory).wf(),
            bit_position < 8,
        ensures
            final(self).wf(),
            final(memory).wf(),
            final(self).same_control(old(self)),
            ({
                let regs = old(self).registers@;
                let v = item.value_in(regs, old(memory)@);
                (final(self).registers@, final(memory)@) == item.stored(
                    regs,
                    old(memory)@,
                    (if bit_is_set(v, bit_position) { v as int } else { v + bit_weight(bit_position) }) as u8,
                )
            }),
    {
        let value = item.read_byte(self, memory);
        let weight = Cpu::bit_mask(bit_position);
        let new_value = if (value / weight) % 2 == 1 { value } else { value + weight };
        item.write_byte(self, memory, new_value);
    }

    fn daa_adjust(a: u8, n: bool, h: bool, c: bool) -> (r: (u8, bool))
        ensures
            r == spec_daa(a, n, h, c),
    {
        let mut new_carry = c;
        let mut adjusted: i16 = a as i16;
        if !n {
            if c || a > 0x99 {
                new_carry = true;
                adjusted = adjusted + 0x60;
            }
            if h || a % 16 > 9 {
                adjusted = adjusted + 0x06;
            }
        } else {
            if c {
                adjusted = adjusted - 0x60;
            }
            if h {
                adjusted = adjusted - 0x06;
            }
        }
        (((adjusted + 256) % 256) as u8, new_carry)
    }

    /// DAA: BCD-adjusts A after an addition (N=0) or subtraction (N=1). Z from
    /// the result, H cleared, C set where the adjustment carried.
    pub fn daa(&mut self)
        requires
            old(self).wf(),
        ensures
            final(self).wf(),
            final(self).same_control(old(self)),
            ({
                let regs = old(self).registers@;
                let t = spec_daa(
                    a_of(regs),
                    flag_set(regs, Flags::N),
                    flag_set(regs, Flags::H),
                    flag_set(regs, Flags::C),
                );
                final(self).registers@ == with_byte(
                    with_flags(regs, t.0 == 0, flag_set(regs, Flags::N), false, t.1),
                    ByteRegisterName::RegA,
                    t.0,
                )
            }),
    {
        let value_before = self.registers.read_byte(ByteRegisterName::RegA);
        let previous_n_flag = self.registers.check_flag(Flags::N);
        let previous_carry = self.registers.check_flag(Flags::C);
        let previous_half_carry = self.registers.check_flag(Flags::H);
        let (result, new_carry) = Cpu::daa_adjust(
            value_before,
            previous_n_flag,
            previous_half_carry,
            previous_carry,
        );
        self.registers.set_flags(result == 0, previous_n_flag, false, new_carry);
        self.registers.write_byte(ByteRegisterName::RegA, result);
    }
}

/// Adding b to a and then subtracting b again gives a back, and the borrow of
/// the subtraction equals the carry of the addition.
pub proof fn lemma_add_then_sub_round_trip(a: u8, b: u8)
    ensures
        spec_byte_subtraction(spec_byte_addition(a, b, false).0, b, false).0 == a,
        spec_byte_subtraction(spec_byte_addition(a, b, false).0, b, false).4 == spec_byte_addition(
            a,
            b,
            false,
        ).4,
{
}

/// From a clear carry, SCF then CCF leaves the carry clear again; CCF twice
/// always leaves the carry as it was. N and H end cleared, Z is kept.
pub proof fn lemma_scf_ccf(regs: Seq<u8>)
    requires
        regs_wf(regs),
    ensures
        ({
            let after_scf = with_flags(regs, flag_set(regs, Flags::Z), false, false, true);
            let after_ccf = with_flags(after_scf, flag_set(after_scf, Flags::Z), false, false, !flag_set(after_scf, Flags::C));
            !flag_set(regs, Flags::C) ==> flag_set(after_ccf, Flags::C) == flag_set(regs, Flags::C)
        }),
        ({
            let once = with_flags(regs, flag_set(regs, Flags::Z), false, false, !flag_set(regs, Flags::C));
            let twice = with_flags(once, flag_set(once, Flags::Z), false, false, !flag_set(once, Flags::C));
            flag_set(twice, Flags::C) == flag_set(regs, Flags::C) && flag_set(twice, Flags::Z) == flag_set(regs, Flags::Z)
        }),
{
    let z = flag_set(regs, Flags::Z);
    let c = flag_set(regs, Flags::C);
    lemma_flags_byte(z, false, false, true);
    lemma_flags_byte(z, false, false, false);
    lemma_flags_byte(z, false, false, !c);
    lemma_flags_byte(z, false, false, c);
}

} // verus!
