use vstd::prelude::*;
use crate::cpu::{
    ByteImmediate, ByteImmediateIndirect, ByteImmediateOffsetIndirect, ByteRegister,
    ByteRegisterIndirect, ByteRegisterName, ByteRegisterOffsetIndirect, ConditionCodes, Cpu,
    ReadByte, SideEffect, StepResult, WordImmediate, WordImmediateIndirect, WordRegister,
    WordRegisterName, WriteByte, condition_holds, reg_word, with_word,
};
use crate::memory_gb::{Byte, MemoryMap, MemoryRegion, MemoryState, Word, spec_signed};
use crate::ops::{
    a_of, bit_is_set, bit_weight, carry_in, hl_of, pc_of, spec_daa, spec_byte_addition, spec_byte_subtraction,
    spec_push, spec_rl, spec_rlc, spec_rr, spec_rrc, spec_sla, spec_sra, spec_srl, spec_swap,
    with_alu, with_alu_flags, with_shift_flags, spec_pop,
};
use crate::cpu::{Flags, flag_set, reg_byte, with_byte, with_flags};
use crate::memory_gb::next_address;

verus! {

/// Machine cycles of the opcodes 00..3F when a condition fails (or there is none).
pub open spec fn low_quadrant_cycles(op: u8) -> u8 {
    if op == 0x20 || op == 0x28 || op == 0x30 || op == 0x38 {
        2
    } else if op == 0x08 {
        5
    } else if op == 0x18 || op % 16 == 1 || op == 0x34 || op == 0x35 || op == 0x36 {
        3
    } else if op % 8 == 2 || op % 8 == 6 || op % 16 == 3 || op % 16 == 0xB || op % 16 == 9 {
        2
    } else {
        1
    }
}

/// Machine cycles of the opcodes C0..FF when a condition fails (or there is
/// none); illegal opcodes count as a one-cycle no-op.
pub open spec fn high_quadrant_cycles(op: u8) -> u8 {
    if is_illegal(op) {
        1
    } else if op % 8 == 7 || op % 16 == 5 || op == 0xC3 || op == 0xC9 || op == 0xD9 || op == 0xE8
        || op == 0xEA || op == 0xFA {
        4
    } else if op == 0xCD {
        6
    } else if op % 8 == 6 || op == 0xE2 || op == 0xF2 || op == 0xF9 || (op < 0xE0 && op % 8 == 0) {
        2
    } else if op % 16 == 1 || op == 0xE0 || op == 0xF0 || op == 0xF8 || (op < 0xE0 && (op % 8 == 2
        || op % 8 == 4)) {
        3
    } else {
        1
    }
}

/// JR cc, RET cc, JP cc and CALL cc: their condition sits in bits 3 and 4.
pub open spec fn is_conditional(op: u8) -> bool {
    op == 0x20 || op == 0x28 || op == 0x30 || op == 0x38 || (op >= 0xC0 && op % 8 == 0 && op
        < 0xE0) || (op >= 0xC0 && op % 8 == 2 && op < 0xE0) || (op >= 0xC0 && op % 8 == 4 && op
        < 0xE0)
}

pub open spec fn condition_of(op: u8) -> ConditionCodes {
    if (op / 8) % 4 == 0 {
        ConditionCodes::NZ
    } else if (op / 8) % 4 == 1 {
        ConditionCodes::Z
    } else if (op / 8) % 4 == 2 {
        ConditionCodes::NC
    } else {
        ConditionCodes::C
    }
}

/// The extra cycles a taken conditional branch costs.
pub open spec fn taken_extra(op: u8) -> int {
    if op < 0x40 {
        1
    } else if op % 8 == 2 {
        1
    } else {
        3
    }
}

/// Machine cycles of a CB-prefixed instruction, prefix included.
pub open spec fn cb_cycles(cb: u8) -> u8 {
    if cb % 8 != 6 {
        2
    } else if 0x40 <= cb < 0x80 {
        3
    } else {
        4
    }
}

/// Machine cycles of the instruction `op` (with `cb` the byte after it) when a
/// condition evaluates to `taken`.
pub open spec fn instruction_cycles(op: u8, cb: u8, taken: bool) -> u8 {
    if op == 0xCB {
        cb_cycles(cb)
    } else if op < 0x40 {
        (low_quadrant_cycles(op) + if is_conditional(op) && taken { 1int } else { 0 }) as u8
    } else if op < 0x80 {
        if op == 0x76 {
            1
        } else if op % 8 == 6 || (0x70 <= op < 0x78) {
            2
        } else {
            1
        }
    } else if op < 0xC0 {
        if op % 8 == 6 {
            2
        } else {
            1
        }
    } else {
        (high_quadrant_cycles(op) + if is_conditional(op) && taken { taken_extra(op) } else { 0 }) as u8
    }
}

/// The opcodes that do not exist; they run as one-cycle no-ops.
pub open spec fn is_illegal(op: u8) -> bool {
    op == 0xD3 || op == 0xDB || op == 0xDD || op == 0xE3 || op == 0xE4 || op == 0xEB || op
        == 0xEC || op == 0xED || op == 0xF4 || op == 0xFC || op == 0xFD
}

/// What the execute loop must do after `op` besides charging its cycles.
pub open spec fn side_effect_of(op: u8) -> Option<SideEffect> {
    if op == 0x76 {
        Some(SideEffect::Halt)
    } else if op == 0x10 {
        Some(SideEffect::Stop)
    } else if op == 0xF3 {
        Some(SideEffect::DisableInterrupt)
    } else if op == 0xFB {
        Some(SideEffect::EnableInterruptDelayed)
    } else if op == 0xD9 {
        Some(SideEffect::EnableInterrupt)
    } else {
        None
    }
}

/// The step result for `op` costing `cost` cycles.
pub open spec fn step_result_of(op: u8, cost: u8) -> StepResult {
    match side_effect_of(op) {
        Some(e) => StepResult::StepSideEffect(cost, e),
        None => StepResult::Step(cost),
    }
}

/// The register that operand index `i` (0..7, not 6) of an opcode names.
pub open spec fn operand_register(i: u8) -> ByteRegisterName {
    if i == 0 {
        ByteRegisterName::RegB
    } else if i == 1 {
        ByteRegisterName::RegC
    } else if i == 2 {
        ByteRegisterName::RegD
    } else if i == 3 {
        ByteRegisterName::RegE
    } else if i == 4 {
        ByteRegisterName::RegH
    } else if i == 5 {
        ByteRegisterName::RegL
    } else {
        ByteRegisterName::RegA
    }
}

fn operand_register_of(i: u8) -> (r: ByteRegisterName)
    ensures
        r == operand_register(i),
{
    if i == 0 {
        ByteRegisterName::RegB
    } else if i == 1 {
        ByteRegisterName::RegC
    } else if i == 2 {
        ByteRegisterName::RegD
    } else if i == 3 {
        ByteRegisterName::RegE
    } else if i == 4 {
        ByteRegisterName::RegH
    } else if i == 5 {
        ByteRegisterName::RegL
    } else {
        ByteRegisterName::RegA
    }
}

fn condition_code_of(op: u8) -> (r: ConditionCodes)
    ensures
        r == condition_of(op),
{
    let selector = (op / 8) % 4;
    if selector == 0 {
        ConditionCodes::NZ
    } else if selector == 1 {
        ConditionCodes::Z
    } else if selector == 2 {
        ConditionCodes::NC
    } else {
        ConditionCodes::C
    }
}

/// The enabled and requested interrupts, as the low five bits of IE & IF.
pub open spec fn pending_interrupts(mem: MemoryState) -> u8 {
    ((mem.ie & mem.io[0x0F]) % 32) as u8
}

/// The index of the lowest set bit of a nonzero pending set: 0 VBlank, 1 STAT,
/// 2 timer, 3 serial, 4 joypad.
pub open spec fn lowest_interrupt(pending: u8) -> int {
    if pending % 2 == 1 {
        0
    } else if (pending / 2) % 2 == 1 {
        1
    } else if (pending / 4) % 2 == 1 {
        2
    } else if (pending / 8) % 2 == 1 {
        3
    } else {
        4
    }
}

pub open spec fn interrupt_bit(index: int) -> u8 {
    if index == 0 {
        1
    } else if index == 1 {
        2
    } else if index == 2 {
        4
    } else if index == 3 {
        8
    } else {
        16
    }
}

pub open spec fn with_interrupt_flag(mem: MemoryState, value: u8) -> MemoryState {
    MemoryState { io: mem.io.update(0x0F, value), ..mem }
}

/// Registers and bus after the highest-priority pending interrupt is served:
/// its IF bit cleared, PC pushed, PC at its vector.
pub open spec fn serviced(regs: Seq<u8>, mem: MemoryState) -> (Seq<u8>, MemoryState) {
    let index = lowest_interrupt(pending_interrupts(mem));
    let cleared = with_interrupt_flag(mem, mem.io[0x0F] & !interrupt_bit(index));
    let pushed = spec_push(regs, cleared, WordRegisterName::RegPC);
    (with_word(pushed.0, WordRegisterName::RegPC, (0x40 + 8 * index) as u16), pushed.1)
}

/// The bus after the timer advances one dot; when it fires, IF bit 2 is set.
pub open spec fn ticked(mem: MemoryState) -> MemoryState {
    let t = mem.timer.spec_tick();
    MemoryState {
        timer: t.0,
        io: if t.1 { mem.io.update(0x0F, mem.io[0x0F] | 4) } else { mem.io },
        ..mem
    }
}

/// The bus after the timer advances `n` dots.
pub open spec fn ticked_n(mem: MemoryState, n: nat) -> MemoryState
    decreases n,
{
    if n == 0 {
        mem
    } else {
        ticked(ticked_n(mem, (n - 1) as nat))
    }
}

/// The byte that operand index `i` of an opcode names: a register, or (HL) for 6.
pub open spec fn operand_value(regs: Seq<u8>, mem: MemoryState, i: u8) -> u8 {
    if i == 6 {
        mem.read(hl_of(regs))
    } else {
        reg_byte(regs, operand_register(i))
    }
}

/// Registers and bus after `value` is stored to operand index `i`.
pub open spec fn operand_store(regs: Seq<u8>, mem: MemoryState, i: u8, value: u8) -> (Seq<u8>, MemoryState) {
    if i == 6 {
        (regs, mem.write(hl_of(regs), value))
    } else {
        (with_byte(regs, operand_register(i), value), mem)
    }
}

/// LD r,r' (40..7F but HALT).
pub open spec fn load_effect(op: u8, regs: Seq<u8>, mem: MemoryState) -> (Seq<u8>, MemoryState) {
    operand_store(regs, mem, ((op - 0x40) / 8) as u8, operand_value(regs, mem, op % 8))
}

/// ADD ADC SUB SBC AND XOR OR CP, by `kind` 0..7, with operand `v`.
pub open spec fn alu_effect(kind: u8, regs: Seq<u8>, v: u8) -> Seq<u8> {
    let a = a_of(regs);
    if kind == 0 {
        with_alu(regs, spec_byte_addition(a, v, false))
    } else if kind == 1 {
        with_alu(regs, spec_byte_addition(a, v, carry_in(regs, true)))
    } else if kind == 2 {
        with_alu(regs, spec_byte_subtraction(a, v, false))
    } else if kind == 3 {
        with_alu(regs, spec_byte_subtraction(a, v, carry_in(regs, true)))
    } else if kind == 4 {
        with_alu(regs, (a & v, a & v == 0, false, true, false))
    } else if kind == 5 {
        with_alu(regs, (a ^ v, a ^ v == 0, false, false, false))
    } else if kind == 6 {
        with_alu(regs, (a | v, a | v == 0, false, false, false))
    } else {
        with_alu_flags(regs, spec_byte_subtraction(a, v, false))
    }
}

/// RLC RRC RL RR SLA SRA SWAP SRL, by `kind` 0..7.
pub open spec fn shift_result(kind: u8, v: u8, carry: bool) -> (u8, bool) {
    if kind == 0 {
        spec_rlc(v)
    } else if kind == 1 {
        spec_rrc(v)
    } else if kind == 2 {
        spec_rl(v, carry)
    } else if kind == 3 {
        spec_rr(v, carry)
    } else if kind == 4 {
        spec_sla(v)
    } else if kind == 5 {
        spec_sra(v)
    } else if kind == 6 {
        spec_swap(v)
    } else {
        spec_srl(v)
    }
}

pub open spec fn res_value(v: u8, bit: u8) -> u8 {
    (if bit_is_set(v, bit) { v - bit_weight(bit) } else { v as int }) as u8
}

pub open spec fn set_value(v: u8, bit: u8) -> u8 {
    (if bit_is_set(v, bit) { v as int } else { v + bit_weight(bit) }) as u8
}

/// The CB-prefixed instruction `op` on operand index op % 8.
pub open spec fn cb_effect(op: u8, regs: Seq<u8>, mem: MemoryState) -> (Seq<u8>, MemoryState) {
    let i = op % 8;
    let kind = op / 8;
    let v = operand_value(regs, mem, i);
    if kind < 8 {
        let t = shift_result(kind, v, flag_set(regs, Flags::C));
        operand_store(with_shift_flags(regs, t), mem, i, t.0)
    } else if kind < 16 {
        (with_flags(regs, !bit_is_set(v, (kind - 8) as u8), false, true, flag_set(regs, Flags::C)), mem)
    } else if kind < 24 {
        operand_store(regs, mem, i, res_value(v, (kind - 16) as u8))
    } else {
        operand_store(regs, mem, i, set_value(v, (kind - 24) as u8))
    }
}

/// Registers with PC moved on by `n` bytes.
pub open spec fn pc_plus(regs: Seq<u8>, n: int) -> Seq<u8> {
    with_word(regs, WordRegisterName::RegPC, ((pc_of(regs) + n) % 0x10000) as u16)
}

/// The byte after the opcode.
pub open spec fn imm8(regs: Seq<u8>, mem: MemoryState) -> u8 {
    mem.read(((pc_of(regs) + 1) % 0x10000) as u16)
}

/// The little-endian word after the opcode.
pub open spec fn imm16(regs: Seq<u8>, mem: MemoryState) -> u16 {
    mem.read_word(((pc_of(regs) + 1) % 0x10000) as u16)
}

/// The register pair of the opcodes 00..3F that name one: BC DE HL SP.
pub open spec fn low_pair(op: u8) -> WordRegisterName {
    if op / 16 == 0 {
        WordRegisterName::RegBC
    } else if op / 16 == 1 {
        WordRegisterName::RegDE
    } else if op / 16 == 2 {
        WordRegisterName::RegHL
    } else {
        WordRegisterName::RegSP
    }
}

/// ADD HL,rr with operand `v`: N=0, H from bit 11, C from bit 15, Z kept.
pub open spec fn add_hl_effect(regs: Seq<u8>, v: u16) -> Seq<u8> {
    let hl = hl_of(regs);
    with_word(
        with_flags(regs, flag_set(regs, Flags::Z), false, hl % 4096 + v % 4096 > 4095, hl + v > 0xFFFF),
        WordRegisterName::RegHL,
        ((hl + v) % 0x10000) as u16,
    )
}

/// ADD SP,e and LD HL,SP+e with offset byte `b` into `destination`.
pub open spec fn add_sp_effect(regs: Seq<u8>, destination: WordRegisterName, b: u8) -> Seq<u8> {
    let sp = reg_word(regs, WordRegisterName::RegSP);
    with_word(
        with_flags(regs, false, false, sp % 16 + b % 16 > 15, sp % 256 + b > 255),
        destination,
        ((sp + spec_signed(b) + 0x10000) % 0x10000) as u16,
    )
}

/// DAA on the register file.
pub open spec fn daa_effect(regs: Seq<u8>) -> Seq<u8> {
    let t = spec_daa(a_of(regs), flag_set(regs, Flags::N), flag_set(regs, Flags::H), flag_set(regs, Flags::C));
    with_byte(with_flags(regs, t.0 == 0, flag_set(regs, Flags::N), false, t.1), ByteRegisterName::RegA, t.0)
}

/// What the opcodes 00..3F do.
pub open spec fn low_effect(op: u8, regs: Seq<u8>, mem: MemoryState, next: (Seq<u8>, MemoryState)) -> bool {
    let n = imm8(regs, mem);
    let p1 = pc_plus(regs, 1);
    let p2 = pc_plus(regs, 2);
    let a = a_of(p1);
    let hl = hl_of(p1);
    let z = flag_set(p1, Flags::Z);
    let c = flag_set(p1, Flags::C);
    if op == 0x00 || op == 0x10 {
        next == (p1, mem)
    } else if op == 0x08 {
        next == (pc_plus(regs, 3), mem.write_word(imm16(regs, mem), reg_word(regs, WordRegisterName::RegSP)))
    } else if op == 0x18 || op == 0x20 || op == 0x28 || op == 0x30 || op == 0x38 {
        if op == 0x18 || condition_holds(regs, condition_of(op)) {
            next == (with_word(
                p2,
                WordRegisterName::RegPC,
                ((pc_of(p2) + spec_signed(n) + 0x10000) % 0x10000) as u16,
            ), mem)
        } else {
            next == (p2, mem)
        }
    } else if op % 16 == 1 {
        next == (with_word(pc_plus(regs, 3), low_pair(op), imm16(regs, mem)), mem)
    } else if op % 16 == 9 {
        next == (add_hl_effect(p1, reg_word(p1, low_pair(op))), mem)
    } else if op == 0x02 || op == 0x12 {
        next == (p1, mem.write(reg_word(p1, low_pair(op)), a))
    } else if op == 0x0A || op == 0x1A {
        next == (with_byte(p1, ByteRegisterName::RegA, mem.read(reg_word(p1, low_pair(op)))), mem)
    } else if op == 0x22 || op == 0x32 {
        let next_hl = (if op == 0x22 { (hl + 1) % 0x10000 } else { (hl + 0xFFFF) % 0x10000 }) as u16;
        next == (with_word(p1, WordRegisterName::RegHL, next_hl), mem.write(hl, a))
    } else if op == 0x2A || op == 0x3A {
        let next_hl = (if op == 0x2A { (hl + 1) % 0x10000 } else { (hl + 0xFFFF) % 0x10000 }) as u16;
        next == (with_word(with_byte(p1, ByteRegisterName::RegA, mem.read(hl)), WordRegisterName::RegHL, next_hl), mem)
    } else if op % 16 == 3 {
        next == (with_word(p1, low_pair(op), ((reg_word(regs, low_pair(op)) + 1) % 0x10000) as u16), mem)
    } else if op % 16 == 0xB {
        next == (with_word(p1, low_pair(op), ((reg_word(regs, low_pair(op)) + 0xFFFF) % 0x10000) as u16), mem)
    } else if op % 8 == 4 {
        let t = spec_byte_addition(operand_value(p1, mem, op / 8), 1, false);
        next == operand_store(with_flags(p1, t.1, false, t.3, c), mem, op / 8, t.0)
    } else if op % 8 == 5 {
        let t = spec_byte_subtraction(operand_value(p1, mem, op / 8), 1, false);
        next == operand_store(with_flags(p1, t.1, true, t.3, c), mem, op / 8, t.0)
    } else if op % 8 == 6 {
        next == operand_store(p2, mem, op / 8, n)
    } else if op == 0x27 {
        next == (daa_effect(p1), mem)
    } else if op == 0x2F {
        next == (with_byte(with_flags(p1, z, true, true, c), ByteRegisterName::RegA, (255 - a) as u8), mem)
    } else if op == 0x37 {
        next == (with_flags(p1, z, false, false, true), mem)
    } else if op == 0x3F {
        next == (with_flags(p1, z, false, false, !c), mem)
    } else {
        let t = shift_result(op / 8, a, c);
        next == operand_store(with_shift_flags(p1, t), mem, 7, t.0)
    }
}

/// The register pair of PUSH and POP: BC DE HL AF.
pub open spec fn stack_pair(op: u8) -> WordRegisterName {
    if (op - 0xC0) / 16 == 0 {
        WordRegisterName::RegBC
    } else if (op - 0xC0) / 16 == 1 {
        WordRegisterName::RegDE
    } else if (op - 0xC0) / 16 == 2 {
        WordRegisterName::RegHL
    } else {
        WordRegisterName::RegAF
    }
}

/// What the opcodes C0..FF but the CB prefix do; illegal opcodes only move PC on.
pub open spec fn high_effect(op: u8, regs: Seq<u8>, mem: MemoryState, next: (Seq<u8>, MemoryState)) -> bool {
    let n = imm8(regs, mem);
    let p1 = pc_plus(regs, 1);
    let p3 = pc_plus(regs, 3);
    if op == 0xC3 || op == 0xCD || ((op == 0xC2 || op == 0xCA || op == 0xD2 || op == 0xDA || op == 0xC4
        || op == 0xCC || op == 0xD4 || op == 0xDC) && condition_holds(regs, condition_of(op))) {
        if op % 8 == 2 || op == 0xC3 {
            next == (with_word(p3, WordRegisterName::RegPC, imm16(regs, mem)), mem)
        } else {
            let call = spec_push(p3, mem, WordRegisterName::RegPC);
            next == (with_word(call.0, WordRegisterName::RegPC, imm16(regs, mem)), call.1)
        }
    } else if op == 0xC2 || op == 0xCA || op == 0xD2 || op == 0xDA || op == 0xC4 || op == 0xCC || op
        == 0xD4 || op == 0xDC {
        next == (p3, mem)
    } else if op == 0xC9 || op == 0xD9 || ((op == 0xC0 || op == 0xC8 || op == 0xD0 || op == 0xD8)
        && condition_holds(regs, condition_of(op))) {
        next == (spec_pop(p1, mem, WordRegisterName::RegPC), mem)
    } else if op == 0xC0 || op == 0xC8 || op == 0xD0 || op == 0xD8 {
        next == (p1, mem)
    } else if op % 16 == 1 {
        next == (spec_pop(p1, mem, stack_pair(op)), mem)
    } else if op % 16 == 5 && !is_illegal(op) && op != 0xCD {
        next == spec_push(p1, mem, stack_pair(op))
    } else if op % 8 == 6 {
        next == (alu_effect(((op - 0xC0) / 8) as u8, pc_plus(regs, 2), n), mem)
    } else if op % 8 == 7 {
        let restart = spec_push(p1, mem, WordRegisterName::RegPC);
        next == (with_word(restart.0, WordRegisterName::RegPC, (op - 0xC7) as u16), restart.1)
    } else if op == 0xE0 {
        next == (pc_plus(regs, 2), mem.write((0xFF00 + n) as u16, a_of(regs)))
    } else if op == 0xF0 {
        next == (with_byte(pc_plus(regs, 2), ByteRegisterName::RegA, mem.read((0xFF00 + n) as u16)), mem)
    } else if op == 0xE2 {
        next == (p1, mem.write((0xFF00 + reg_byte(p1, ByteRegisterName::RegC)) as u16, a_of(p1)))
    } else if op == 0xF2 {
        next == (with_byte(
            p1,
            ByteRegisterName::RegA,
            mem.read((0xFF00 + reg_byte(p1, ByteRegisterName::RegC)) as u16),
        ), mem)
    } else if op == 0xE8 {
        next == (add_sp_effect(pc_plus(regs, 2), WordRegisterName::RegSP, n), mem)
    } else if op == 0xF8 {
        next == (add_sp_effect(pc_plus(regs, 2), WordRegisterName::RegHL, n), mem)
    } else if op == 0xE9 {
        next == (with_word(p1, WordRegisterName::RegPC, hl_of(p1)), mem)
    } else if op == 0xF9 {
        next == (with_word(p1, WordRegisterName::RegSP, hl_of(p1)), mem)
    } else if op == 0xEA {
        next == (p3, mem.write(imm16(regs, mem), a_of(p3)))
    } else if op == 0xFA {
        next == (with_byte(p3, ByteRegisterName::RegA, mem.read(imm16(regs, mem))), mem)
    } else if op == 0xCB {
        true
    } else {
        next == (p1, mem)
    }
}

/// What the instruction at PC does to the registers and the bus.
pub open spec fn step_effect(regs: Seq<u8>, mem: MemoryState, next: (Seq<u8>, MemoryState)) -> bool {
    let op = mem.read(pc_of(regs));
    let cb = mem.read(((pc_of(regs) + 1) % 0x10000) as u16);
    if op == 0x76 {
        next == (pc_plus(regs, 1), mem)
    } else if 0x40 <= op < 0x80 {
        next == load_effect(op, pc_plus(regs, 1), mem)
    } else if 0x80 <= op < 0xC0 {
        next == (alu_effect(((op - 0x80) / 8) as u8, pc_plus(regs, 1), operand_value(pc_plus(regs, 1), mem, op % 8)), mem)
    } else if op == 0xCB {
        next == cb_effect(cb, pc_plus(regs, 2), mem)
    } else if op < 0x40 {
        low_effect(op, regs, mem, next)
    } else {
        high_effect(op, regs, mem, next)
    }
}

/// One pass of the execute loop from (`c0`, `m0`) to (`c1`, `m1`) costing
/// `cost` machine cycles: an interrupt served, a halted or stopped pass, or one
/// instruction followed by its timer ticks.
pub open spec fn cpu_ran(c0: &Cpu, m0: MemoryState, c1: &Cpu, m1: MemoryState, cost: u8) -> bool {
    &&& ({
        let regs = c0.registers@;
        let mem = m0;
        let op = mem.read(pc_of(regs));
        let cb = mem.read(((pc_of(regs) + 1) % 0x10000) as u16);
        if c0.ime && pending_interrupts(mem) != 0 {
            &&& cost == 0
            &&& !c1.ime && !c1.halted && !c1.stopped
            &&& (c1.registers@, m1) == serviced(regs, mem)
        } else if c0.halted || c0.stopped {
            &&& cost == 0
            &&& c1.registers@ == regs
            &&& c1.ime == c0.ime
            &&& if !c0.ime && mem.io[0x0F] % 32 != 0 {
                !c1.halted && !c1.stopped && m1 == mem
            } else {
                c1.halted == c0.halted && c1.stopped
                    == c0.stopped && m1 == ticked_n(mem, 4)
            }
        } else {
            &&& cost == instruction_cycles(
                op,
                cb,
                is_conditional(op) && condition_holds(regs, condition_of(op)),
            )
            &&& c1.halted == (op == 0x76)
            &&& c1.stopped == (op == 0x10)
            &&& c1.enable_ime_after_next == (op == 0xFB)
            &&& c1.ime == (op != 0xF3 && (c0.ime || c0.enable_ime_after_next
                || op == 0xD9))
            &&& exists|after: MemoryState|
                #[trigger] step_effect(regs, mem, (c1.registers@, after)) && m1
                    == ticked_n(after, (4 * cost) as nat)
        }
    })
}

impl Cpu {
    /// The byte after the opcode.
    fn byte_operand(&self, memory: &MemoryMap) -> (r: Byte)
        requires
            self.wf(),
            memory.wf(),
        ensures
            r == memory@.read(((pc_of(self.registers@) + 1) % 0x10000) as u16),
    {
        let address = self.registers.read_word(WordRegisterName::RegPC);
        memory.read(address.wrapping_add(1))
    }

    /// The little-endian word after the opcode.
    fn word_operand(&self, memory: &MemoryMap) -> (r: Word)
        requires
            self.wf(),
            memory.wf(),
        ensures
            r == memory@.read_word(((pc_of(self.registers@) + 1) % 0x10000) as u16),
    {
        let address = self.registers.read_word(WordRegisterName::RegPC);
        memory.read_word(address.wrapping_add(1))
    }

    /// The opcode at PC.
    fn fetch(&self, memory: &MemoryMap) -> (r: Byte)
        requires
            self.wf(),
            memory.wf(),
        ensures
            r == memory@.read(pc_of(self.registers@)),
    {
        let address = self.registers.read_word(WordRegisterName::RegPC);
        memory.read(address)
    }

    /// One of ADD ADC SUB SBC AND XOR OR CP, by `kind` 0..7, on `src`.
    fn alu<T: ReadByte>(&mut self, memory: &MemoryMap, kind: u8, src: T)
        requires
            old(self).wf(),
            memory.wf(),
        ensures
            final(self).wf(),
            final(self).same_control(old(self)),
            final(self).registers@ == alu_effect(kind, old(self).registers@, src.value_in(old(self).registers@, memory@)),
    {
        if kind == 0 {
            self.add_byte(memory, src, false);
        } else if kind == 1 {
            self.add_byte(memory, src, true);
        } else if kind == 2 {
            self.sub_byte(memory, src, false);
        } else if kind == 3 {
            self.sub_byte(memory, src, true);
        } else if kind == 4 {
            self.and(memory, src);
        } else if kind == 5 {
            self.xor(memory, src);
        } else if kind == 6 {
            self.or(memory, src);
        } else {
            self.cp(memory, src);
        }
    }

    /// The CB table entry `op` applied to `item`.
    fn cb_apply<T: ReadByte + WriteByte>(&mut self, memory: &mut MemoryMap, op: u8, item: T)
        requires
            old(self).wf(),
            old(memory).wf(),
        ensures
            final(self).wf(),
            final(memory).wf(),
            final(self).same_control(old(self)),
            ({
                let regs = old(self).registers@;
                let mem = old(memory)@;
                let v = item.value_in(regs, mem);
                let kind = op / 8;
                if kind < 8 {
                    let t = shift_result(kind, v, flag_set(regs, Flags::C));
                    (final(self).registers@, final(memory)@) == item.stored(with_shift_flags(regs, t), mem, t.0)
                } else if kind < 16 {
                    final(self).registers@ == with_flags(
                        regs,
                        !bit_is_set(v, (kind - 8) as u8),
                        false,
                        true,
                        flag_set(regs, Flags::C),
                    ) && final(memory)@ == mem
                } else if kind < 24 {
                    (final(self).registers@, final(memory)@) == item.stored(regs, mem, res_value(v, (kind - 16) as u8))
                } else {
                    (final(self).registers@, final(memory)@) == item.stored(regs, mem, set_value(v, (kind - 24) as u8))
                }
            }),
    {
        let kind = op / 8;
        if kind == 0 {
            self.rlc(memory, item);
        } else if kind == 1 {
            self.rrc(memory, item);
        } else if kind == 2 {
            self.rl(memory, item);
        } else if kind == 3 {
            self.rr(memory, item);
        } else if kind == 4 {
            self.sla(memory, item);
        } else if kind == 5 {
            self.sra(memory, item);
        } else if kind == 6 {
            self.swap(memory, item);
        } else if kind == 7 {
            self.srl(memory, item);
        } else if kind < 16 {
            self.bit(memory, kind - 8, item);
        } else if kind < 24 {
            self.res(memory, kind - 16, item);
        } else {
            self.set(memory, kind - 24, item);
        }
    }

    /// Runs the CB-prefixed instruction `operand`; PC already points past the
    /// prefix. Returns its machine cycles, prefix included.
    pub fn step_cb(&mut self, memory: &mut MemoryMap, operand: Byte) -> (cost: u8)
        requires
            old(self).wf(),
            old(memory).wf(),
        ensures
            final(self).wf(),
            final(memory).wf(),
            final(self).same_control(old(self)),
            cost == cb_cycles(operand),
            (final(self).registers@, final(memory)@) == cb_effect(
                operand,
                pc_plus(old(self).registers@, 1),
                old(memory)@,
            ),
    {
        self.registers.step_pc(1);
        let index = operand % 8;
        if index == 6 {
            self.cb_apply(memory, operand, ByteRegisterIndirect::new(WordRegisterName::RegHL));
            if 0x40 <= operand && operand < 0x80 {
                3
            } else {
                4
            }
        } else {
            self.cb_apply(memory, operand, ByteRegister::new(operand_register_of(index)));
            2
        }
    }

    /// LD r,r' for the opcodes 40..7F but HALT.
    fn execute_load_block(&mut self, memory: &mut MemoryMap, op: u8)
        requires
            old(self).wf(),
            old(memory).wf(),
            0x40 <= op < 0x80,
            op != 0x76,
        ensures
            final(self).wf(),
            final(memory).wf(),
            final(self).same_control(old(self)),
            (final(self).registers@, final(memory)@) == load_effect(op, old(self).registers@, old(memory)@),
    {
        let destination = (op - 0x40) / 8;
        let source = op % 8;
        if source == 6 {
            self.ld_byte(
                memory,
                ByteRegister::new(operand_register_of(destination)),
                ByteRegisterIndirect::new(WordRegisterName::RegHL),
            );
        } else if destination == 6 {
            self.ld_byte(
                memory,
                ByteRegisterIndirect::new(WordRegisterName::RegHL),
                ByteRegister::new(operand_register_of(source)),
            );
        } else {
            self.ld_byte(
                memory,
                ByteRegister::new(operand_register_of(destination)),
                ByteRegister::new(operand_register_of(source)),
            );
        }
    }

    /// The opcodes 00..3F. Returns their machine cycles.
    #[verifier::spinoff_prover]
    #[verifier::rlimit(60)]
    fn execute_low(&mut self, memory: &mut MemoryMap, op: u8) -> (cost: u8)
        requires
            old(self).wf(),
            old(memory).wf(),
            op < 0x40,
        ensures
            final(self).wf(),
            final(memory).wf(),
            final(self).same_control(old(self)),
            low_effect(op, old(self).registers@, old(memory)@, (final(self).registers@, final(memory)@)),
            cost == instruction_cycles(
                op,
                0,
                is_conditional(op) && condition_holds(old(self).registers@, condition_of(op)),
            ),
    {
        let column = op % 16;
        let pair = if op / 16 == 0 {
            WordRegisterName::RegBC
        } else if op / 16 == 1 {
            WordRegisterName::RegDE
        } else if op / 16 == 2 {
            WordRegisterName::RegHL
        } else {
            WordRegisterName::RegSP
        };
        if op == 0x00 || op == 0x10 {
            self.registers.step_pc(1);
            self.nop();
            1
        } else if op == 0x08 {
            let address = self.word_operand(memory);
            self.registers.step_pc(3);
            self.ld_word(memory, WordImmediateIndirect::new(address), WordRegister::new(WordRegisterName::RegSP));
            5
        } else if op == 0x18 || op == 0x20 || op == 0x28 || op == 0x30 || op == 0x38 {
            let offset = self.byte_operand(memory);
            self.registers.step_pc(2);
            let signed: i8 = if offset < 128 { offset as i8 } else { (offset as i16 - 256) as i8 };
            assert(signed as int == spec_signed(offset));
            let condition = if op == 0x18 { ConditionCodes::NA } else { condition_code_of(op) };
            let branched = self.jr(signed, condition);
            if branched { 3 } else { 2 }
        } else if column == 1 {
            let value = self.word_operand(memory);
            self.registers.step_pc(3);
            self.ld_word(memory, WordRegister::new(pair), WordImmediate::new(value));
            3
        } else if column == 9 {
            self.registers.step_pc(1);
            self.add_hl_word(memory, WordRegister::new(pair));
            2
        } else if op == 0x02 || op == 0x12 {
            self.registers.step_pc(1);
            self.ld_byte(memory, ByteRegisterIndirect::new(pair), ByteRegister::new(ByteRegisterName::RegA));
            2
        } else if op == 0x0A || op == 0x1A {
            self.registers.step_pc(1);
            self.ld_byte(memory, ByteRegister::new(ByteRegisterName::RegA), ByteRegisterIndirect::new(pair));
            2
        } else if op == 0x22 {
            self.registers.step_pc(1);
            self.ld_byte_0x22(memory);
            2
        } else if op == 0x2A {
            self.registers.step_pc(1);
            self.ld_byte_0x2a(memory);
            2
        } else if op == 0x32 {
            self.registers.step_pc(1);
            self.ld_byte_0x32(memory);
            2
        } else if op == 0x3A {
            self.registers.step_pc(1);
            self.ld_byte_0x3a(memory);
            2
        } else if column == 3 {
            self.registers.step_pc(1);
            self.inc_word(memory, WordRegister::new(pair));
            2
        } else if column == 0xB {
            self.registers.step_pc(1);
            self.dec_word(memory, WordRegister::new(pair));
            2
        } else if column == 4 || column == 0xC {
            self.registers.step_pc(1);
            let index = op / 8;
            if index == 6 {
                self.inc_byte(memory, ByteRegisterIndirect::new(WordRegisterName::RegHL));
                3
            } else {
                self.inc_byte(memory, ByteRegister::new(operand_register_of(index)));
                1
            }
        } else if column == 5 || column == 0xD {
            self.registers.step_pc(1);
            let index = op / 8;
            if index == 6 {
                self.dec_byte(memory, ByteRegisterIndirect::new(WordRegisterName::RegHL));
                3
            } else {
                self.dec_byte(memory, ByteRegister::new(operand_register_of(index)));
                1
            }
        } else if column == 6 || column == 0xE {
            let value = self.byte_operand(memory);
            self.registers.step_pc(2);
            let index = op / 8;
            if index == 6 {
                self.ld_byte(memory, ByteRegisterIndirect::new(WordRegisterName::RegHL), ByteImmediate::new(value));
                3
            } else {
                self.ld_byte(memory, ByteRegister::new(operand_register_of(index)), ByteImmediate::new(value));
                2
            }
        } else {
            self.registers.step_pc(1);
            let accumulator = ByteRegister::new(ByteRegisterName::RegA);
            if op == 0x07 {
                self.rlc(memory, accumulator);
            } else if op == 0x0F {
                self.rrc(memory, accumulator);
            } else if op == 0x17 {
                self.rl(memory, accumulator);
            } else if op == 0x1F {
                self.rr(memory, accumulator);
            } else if op == 0x27 {
                self.daa();
            } else if op == 0x2F {
                self.cpl();
            } else if op == 0x37 {
                self.scf();
            } else {
                self.ccf();
            }
            1
        }
    }

    /// The opcodes C0..DF but the CB prefix: jumps, calls, returns, stack and
    /// immediate arithmetic. Returns their machine cycles.
    fn execute_branching(&mut self, memory: &mut MemoryMap, op: u8) -> (cost: u8)
        requires
            old(self).wf(),
            old(memory).wf(),
            0xC0 <= op < 0xE0,
            op != 0xCB,
        ensures
            final(self).wf(),
            final(memory).wf(),
            final(self).same_control(old(self)),
            high_effect(op, old(self).registers@, old(memory)@, (final(self).registers@, final(memory)@)),
            cost == instruction_cycles(
                op,
                0,
                is_conditional(op) && condition_holds(old(self).registers@, condition_of(op)),
            ),
            is_illegal(op) ==> final(memory)@ == old(memory)@ && final(self).registers@ == with_word(
                old(self).registers@,
                WordRegisterName::RegPC,
                ((pc_of(old(self).registers@) + 1) % 0x10000) as u16,
            ),
    {
        if op % 16 == 1 || op % 16 == 5 || op == 0xC9 || op == 0xD9 || op % 8 == 6 || op % 8 == 7 {
            self.execute_stack_or_immediate(memory, op)
        } else {
            self.execute_control_transfer(memory, op)
        }
    }

    /// JP, CALL and RET (conditional or not), RETI, and the illegal opcodes of
    /// C0..DF.
    #[verifier::spinoff_prover]
    #[verifier::rlimit(60)]
    fn execute_control_transfer(&mut self, memory: &mut MemoryMap, op: u8) -> (cost: u8)
        requires
            old(self).wf(),
            old(memory).wf(),
            0xC0 <= op < 0xE0,
            op != 0xCB,
            !(op % 16 == 1 || op % 16 == 5 || op == 0xC9 || op == 0xD9 || op % 8 == 6 || op % 8 == 7),
        ensures
            final(self).wf(),
            final(memory).wf(),
            final(self).same_control(old(self)),
            high_effect(op, old(self).registers@, old(memory)@, (final(self).registers@, final(memory)@)),
            cost == instruction_cycles(
                op,
                0,
                is_conditional(op) && condition_holds(old(self).registers@, condition_of(op)),
            ),
            is_illegal(op) ==> final(memory)@ == old(memory)@ && final(self).registers@ == with_word(
                old(self).registers@,
                WordRegisterName::RegPC,
                ((pc_of(old(self).registers@) + 1) % 0x10000) as u16,
            ),
    {
        let column = op % 8;
        if op == 0xD3 || op == 0xDB || op == 0xDD {
            self.registers.step_pc(1);
            1
        } else if op == 0xC3 {
            let address = self.word_operand(memory);
            self.registers.step_pc(3);
            self.jp(memory, WordImmediate::new(address), ConditionCodes::NA);
            4
        } else if op == 0xCD {
            let address = self.word_operand(memory);
            self.registers.step_pc(3);
            self.call(memory, address, ConditionCodes::NA);
            6
        } else if column == 0 {
            self.registers.step_pc(1);
            let branched = self.ret(memory, condition_code_of(op));
            if branched { 5 } else { 2 }
        } else if column == 2 {
            let address = self.word_operand(memory);
            self.registers.step_pc(3);
            let branched = self.jp(memory, WordImmediate::new(address), condition_code_of(op));
            if branched { 4 } else { 3 }
        } else {
            let address = self.word_operand(memory);
            self.registers.step_pc(3);
            let branched = self.call(memory, address, condition_code_of(op));
            if branched { 6 } else { 3 }
        }
    }

    /// POP, PUSH, RET, RETI, immediate arithmetic and RST in C0..DF.
    #[verifier::spinoff_prover]
    #[verifier::rlimit(60)]
    fn execute_stack_or_immediate(&mut self, memory: &mut MemoryMap, op: u8) -> (cost: u8)
        requires
            old(self).wf(),
            old(memory).wf(),
            0xC0 <= op < 0xE0,
            op % 16 == 1 || op % 16 == 5 || op == 0xC9 || op == 0xD9 || op % 8 == 6 || op % 8 == 7,
        ensures
            final(self).wf(),
            final(memory).wf(),
            final(self).same_control(old(self)),
            high_effect(op, old(self).registers@, old(memory)@, (final(self).registers@, final(memory)@)),
            cost == instruction_cycles(
                op,
                0,
                is_conditional(op) && condition_holds(old(self).registers@, condition_of(op)),
            ),
            is_illegal(op) ==> final(memory)@ == old(memory)@ && final(self).registers@ == with_word(
                old(self).registers@,
                WordRegisterName::RegPC,
                ((pc_of(old(self).registers@) + 1) % 0x10000) as u16,
            ),
    {
        let column = op % 8;
        let pair = if (op - 0xC0) / 16 == 0 {
            WordRegisterName::RegBC
        } else if (op - 0xC0) / 16 == 1 {
            WordRegisterName::RegDE
        } else if (op - 0xC0) / 16 == 2 {
            WordRegisterName::RegHL
        } else {
            WordRegisterName::RegAF
        };
        if op == 0xC9 || op == 0xD9 {
            self.registers.step_pc(1);
            self.ret(memory, ConditionCodes::NA);
            4
        } else if op % 16 == 1 {
            self.registers.step_pc(1);
            self.pop(memory, pair);
            3
        } else if op % 16 == 5 {
            self.registers.step_pc(1);
            self.push(memory, pair);
            4
        } else if column == 6 {
            let value = self.byte_operand(memory);
            self.registers.step_pc(2);
            self.alu(memory, (op - 0xC0) / 8, ByteImmediate::new(value));
            2
        } else {
            self.registers.step_pc(1);
            self.rst(memory, (op - 0xC7) as u16);
            4
        }
    }

    /// The opcodes E0..FF: high-page loads, SP arithmetic, indirect jumps,
    /// DI and EI, stack and immediate arithmetic. Returns their machine cycles.
    #[verifier::spinoff_prover]
    #[verifier::rlimit(60)]
    fn execute_high_page(&mut self, memory: &mut MemoryMap, op: u8) -> (cost: u8)
        requires
            old(self).wf(),
            old(memory).wf(),
            op >= 0xE0,
        ensures
            final(self).wf(),
            final(memory).wf(),
            final(self).same_control(old(self)),
            high_effect(op, old(self).registers@, old(memory)@, (final(self).registers@, final(memory)@)),
            cost == instruction_cycles(
                op,
                0,
                is_conditional(op) && condition_holds(old(self).registers@, condition_of(op)),
            ),
            is_illegal(op) ==> final(memory)@ == old(memory)@ && final(self).registers@ == with_word(
                old(self).registers@,
                WordRegisterName::RegPC,
                ((pc_of(old(self).registers@) + 1) % 0x10000) as u16,
            ),
    {
        let column = op % 8;
        let pair = if (op - 0xC0) / 16 == 0 {
            WordRegisterName::RegBC
        } else if (op - 0xC0) / 16 == 1 {
            WordRegisterName::RegDE
        } else if (op - 0xC0) / 16 == 2 {
            WordRegisterName::RegHL
        } else {
            WordRegisterName::RegAF
        };
        if op == 0xE3 || op == 0xE4 || op == 0xEB || op == 0xEC || op == 0xED || op == 0xF4
            || op == 0xFC || op == 0xFD {
            self.registers.step_pc(1);
            1
        } else if op % 16 == 1 {
            self.registers.step_pc(1);
            self.pop(memory, pair);
            3
        } else if op % 16 == 5 {
            self.registers.step_pc(1);
            self.push(memory, pair);
            4
        } else if column == 6 {
            let value = self.byte_operand(memory);
            self.registers.step_pc(2);
            self.alu(memory, (op - 0xC0) / 8, ByteImmediate::new(value));
            2
        } else if column == 7 {
            self.registers.step_pc(1);
            self.rst(memory, (op - 0xC7) as u16);
            4
        } else if op == 0xE0 {
            let offset = self.byte_operand(memory);
            self.registers.step_pc(2);
            self.ld_byte(memory, ByteImmediateOffsetIndirect::new(offset), ByteRegister::new(ByteRegisterName::RegA));
            3
        } else if op == 0xF0 {
            let offset = self.byte_operand(memory);
            self.registers.step_pc(2);
            self.ld_byte(memory, ByteRegister::new(ByteRegisterName::RegA), ByteImmediateOffsetIndirect::new(offset));
            3
        } else if op == 0xE2 {
            self.registers.step_pc(1);
            self.ld_byte(memory, ByteRegisterOffsetIndirect::new(ByteRegisterName::RegC), ByteRegister::new(ByteRegisterName::RegA));
            2
        } else if op == 0xF2 {
            self.registers.step_pc(1);
            self.ld_byte(memory, ByteRegister::new(ByteRegisterName::RegA), ByteRegisterOffsetIndirect::new(ByteRegisterName::RegC));
            2
        } else if op == 0xE8 || op == 0xF8 {
            let offset = self.byte_operand(memory);
            self.registers.step_pc(2);
            let signed: i8 = if offset < 128 { offset as i8 } else { (offset as i16 - 256) as i8 };
            assert(signed as int == spec_signed(offset));
            if op == 0xE8 {
                self.add_sp_i8(WordRegisterName::RegSP, signed);
                4
            } else {
                self.add_sp_i8(WordRegisterName::RegHL, signed);
                3
            }
        } else if op == 0xE9 {
            self.registers.step_pc(1);
            self.jp(memory, WordRegister::new(WordRegisterName::RegHL), ConditionCodes::NA);
            1
        } else if op == 0xF9 {
            self.registers.step_pc(1);
            self.ld_word(memory, WordRegister::new(WordRegisterName::RegSP), WordRegister::new(WordRegisterName::RegHL));
            2
        } else if op == 0xEA {
            let address = self.word_operand(memory);
            self.registers.step_pc(3);
            self.ld_byte(memory, ByteImmediateIndirect::new(address), ByteRegister::new(ByteRegisterName::RegA));
            4
        } else if op == 0xFA {
            let address = self.word_operand(memory);
            self.registers.step_pc(3);
            self.ld_byte(memory, ByteRegister::new(ByteRegisterName::RegA), ByteImmediateIndirect::new(address));
            4
        } else {
            self.registers.step_pc(1);
            1
        }
    }

    /// Fetches, decodes and runs the instruction at PC. Returns its machine
    /// cycles and what the execute loop must do after it (HALT, STOP, DI, EI,
    /// RETI). Illegal opcodes run as one-cycle no-ops.
    #[verifier::spinoff_prover]
    #[verifier::rlimit(60)]
    pub fn step(&mut self, memory: &mut MemoryMap) -> (r: StepResult)
        requires
            old(self).wf(),
            old(memory).wf(),
        ensures
            final(self).wf(),
            final(memory).wf(),
            final(self).same_control(old(self)),
            ({
                let regs = old(self).registers@;
                let pc = pc_of(regs);
                let op = old(memory)@.read(pc);
                let cb = old(memory)@.read(((pc + 1) % 0x10000) as u16);
                r == step_result_of(
                    op,
                    instruction_cycles(op, cb, is_conditional(op) && condition_holds(regs, condition_of(op))),
                )
            }),
            step_effect(old(self).registers@, old(memory)@, (final(self).registers@, final(memory)@)),
    {
        let instruction = self.fetch(memory);
        let cost: u8 = if instruction == 0x76 {
            self.registers.step_pc(1);
            1
        } else if 0x40 <= instruction && instruction < 0x80 {
            self.registers.step_pc(1);
            self.execute_load_block(memory, instruction);
            if instruction % 8 == 6 || (0x70 <= instruction && instruction < 0x78) {
                2
            } else {
                1
            }
        } else if 0x80 <= instruction && instruction < 0xC0 {
            self.registers.step_pc(1);
            let kind = (instruction - 0x80) / 8;
            let source = instruction % 8;
            if source == 6 {
                self.alu(memory, kind, ByteRegisterIndirect::new(WordRegisterName::RegHL));
                2
            } else {
                self.alu(memory, kind, ByteRegister::new(operand_register_of(source)));
                1
            }
        } else if instruction == 0xCB {
            let operand = self.byte_operand(memory);
            let ghost regs = self.registers@;
            self.registers.step_pc(1);
            proof {
                assert(pc_plus(pc_plus(regs, 1), 1) =~= pc_plus(regs, 2));
            }
            self.step_cb(memory, operand)
        } else if instruction < 0x40 {
            self.execute_low(memory, instruction)
        } else if instruction < 0xE0 {
            self.execute_branching(memory, instruction)
        } else {
            self.execute_high_page(memory, instruction)
        };
        if instruction == 0x76 {
            StepResult::StepSideEffect(cost, SideEffect::Halt)
        } else if instruction == 0x10 {
            StepResult::StepSideEffect(cost, SideEffect::Stop)
        } else if instruction == 0xF3 {
            StepResult::StepSideEffect(cost, SideEffect::DisableInterrupt)
        } else if instruction == 0xFB {
            StepResult::StepSideEffect(cost, SideEffect::EnableInterruptDelayed)
        } else if instruction == 0xD9 {
            StepResult::StepSideEffect(cost, SideEffect::EnableInterrupt)
        } else {
            StepResult::Step(cost)
        }
    }

    /// Serves the highest-priority pending interrupt if IME allows: IME is
    /// cleared, its IF bit is cleared, PC is pushed and PC jumps to its vector.
    /// Returns whether one was served.
    pub fn service_interrupt(&mut self, memory: &mut MemoryMap) -> (served: bool)
        requires
            old(self).wf(),
            old(memory).wf(),
        ensures
            final(self).wf(),
            final(memory).wf(),
            served == (old(self).ime && pending_interrupts(old(memory)@) != 0),
            served ==> !final(self).ime && (final(self).registers@, final(memory)@) == serviced(
                old(self).registers@,
                old(memory)@,
            ),
            !served ==> final(memory)@ == old(memory)@ && final(self).registers@ == old(self).registers@
                && final(self).ime == old(self).ime,
            final(self).halted == old(self).halted && final(self).stopped == old(self).stopped,
            final(self).enable_ime_after_next == old(self).enable_ime_after_next,
    {
        let reg_if = memory.interrupt_flag();
        let reg_ie = memory.read(0xFFFF);
        let pending = (reg_ie & reg_if) % 32;
        if !self.ime || pending == 0 {
            return false;
        }
        let (bit, vector): (u8, u16) = if pending % 2 == 1 {
            (1, 0x40)
        } else if (pending / 2) % 2 == 1 {
            (2, 0x48)
        } else if (pending / 4) % 2 == 1 {
            (4, 0x50)
        } else if (pending / 8) % 2 == 1 {
            (8, 0x58)
        } else {
            (16, 0x60)
        };
        memory.set_interrupt_flag(reg_if & !bit);
        self.ime = false;
        self.call(memory, vector, ConditionCodes::NA);
        true
    }

    /// Advances the timer one dot, raising the timer interrupt when it fires.
    pub fn tick_timer(&mut self, memory: &mut MemoryMap)
        requires
            old(memory).wf(),
        ensures
            final(memory).wf(),
            final(memory)@ == ticked(old(memory)@),
            final(self).registers@ == old(self).registers@,
            final(self).same_control(old(self)),
    {
        let fire_interrupt = memory.data.timer.tick();
        if fire_interrupt {
            let if_value = memory.interrupt_flag();
            memory.set_interrupt_flag(if_value | 0x4);
        }
    }

    fn tick_timer_dots(&mut self, memory: &mut MemoryMap, dots: u16)
        requires
            old(memory).wf(),
        ensures
            final(memory).wf(),
            final(memory)@ == ticked_n(old(memory)@, dots as nat),
            final(self).registers@ == old(self).registers@,
            final(self).same_control(old(self)),
    {
        let mut i: u16 = 0;
        while i < dots
            invariant
                memory.wf(),
                i <= dots,
                memory@ == ticked_n(old(memory)@, i as nat),
                self.registers@ == old(self).registers@,
                self.same_control(old(self)),
            decreases dots - i,
        {
            self.tick_timer(memory);
            i = i + 1;
        }
    }

    /// One pass of the execute loop. Serves an interrupt (no cycles), idles a
    /// halted or stopped processor, or runs one instruction and ticks the timer
    /// for it. Returns the machine cycles spent running an instruction.
    pub fn run(&mut self, memory: &mut MemoryMap) -> (cost: u8)
        requires
            old(self).wf(),
            old(memory).wf(),
        ensures
            final(self).wf(),
            final(memory).wf(),
            cpu_ran(old(self), old(memory)@, final(self), final(memory)@, cost),
    {
        if self.service_interrupt(memory) {
            self.halted = false;
            self.stopped = false;
            return 0;
        }
        if self.halted || self.stopped {
            if !self.ime {
                let reg_if = memory.interrupt_flag();
                if reg_if % 32 != 0 {
                    self.halted = false;
                    self.stopped = false;
                    return 0;
                }
            }
            self.tick_timer_dots(memory, 4);
            return 0;
        }
        let mut enable_after = self.enable_ime_after_next;
        self.enable_ime_after_next = false;
        let result = self.step(memory);
        let ghost after = memory@;
        let cost = match result {
            StepResult::Step(c) => c,
            StepResult::StepSideEffect(c, effect) => {
                match effect {
                    SideEffect::Halt => {
                        self.halted = true;
                    },
                    SideEffect::Stop => {
                        self.stopped = true;
                    },
                    SideEffect::EnableInterrupt => {
                        self.ime = true;
                    },
                    SideEffect::EnableInterruptDelayed => {
                        self.enable_ime_after_next = true;
                    },
                    SideEffect::DisableInterrupt => {
                        self.ime = false;
                        enable_after = false;
                    },
                }
                c
            },
        };
        self.tick_timer_dots(memory, 4 * cost as u16);
        assert(step_effect(old(self).registers@, old(memory)@, (self.registers@, after)));
        if enable_after {
            self.ime = true;
        }
        cost
    }
}

} // verus!
