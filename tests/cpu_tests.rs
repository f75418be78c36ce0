use dmg_core::cart::Cart;
use dmg_core::cpu::{ByteRegister, ByteRegisterName, Cpu, Flags, StepResult, SideEffect, WordRegisterName};
use dmg_core::joypad::Joypad;
use dmg_core::memory_gb::{MemoryMap, MemoryRegion};


fn blank_rom() -> Vec<u8> {
    vec![0u8; 0x8000]
}

fn machine() -> (Cpu, MemoryMap) {
    let cart = Cart::from_rom(blank_rom()).unwrap();
    let memory = MemoryMap::new(MemoryMap::allocate(cart, Joypad::new()));
    (Cpu::new(), memory)
}

/// Places `program` in work RAM and points PC at it.
fn load_program(cpu: &mut Cpu, memory: &mut MemoryMap, program: &[u8]) {
    for (i, b) in program.iter().enumerate() {
        memory.write(*b, 0xC000 + i as u16);
    }
    cpu.registers.write_word(WordRegisterName::RegPC, 0xC000);
}

fn flags(cpu: &Cpu) -> (bool, bool, bool, bool) {
    (
        cpu.registers.check_flag(Flags::Z),
        cpu.registers.check_flag(Flags::N),
        cpu.registers.check_flag(Flags::H),
        cpu.registers.check_flag(Flags::C),
    )
}

#[test]
fn boot_register_state() {
    let (cpu, _) = machine();
    assert_eq!(cpu.registers.read_byte(ByteRegisterName::RegA), 0x01);
    assert_eq!(cpu.registers.read_byte(ByteRegisterName::RegF), 0xB0);
    assert_eq!(cpu.registers.read_word(WordRegisterName::RegBC), 0x0013);
    assert_eq!(cpu.registers.read_word(WordRegisterName::RegDE), 0x00D8);
    assert_eq!(cpu.registers.read_word(WordRegisterName::RegHL), 0x014D);
    assert_eq!(cpu.registers.read_word(WordRegisterName::RegSP), 0xFFFE);
    assert_eq!(cpu.registers.read_word(WordRegisterName::RegPC), 0x0100);
}

#[test]
fn flag_register_keeps_high_nibble_only() {
    let (mut cpu, _) = machine();
    for b in [0x00u8, 0x0F, 0xFF, 0xA5, 0x5A] {
        cpu.registers.write_byte(ByteRegisterName::RegF, b);
        assert_eq!(cpu.registers.read_byte(ByteRegisterName::RegF), b & 0xF0);
    }
}

#[test]
fn register_pairs_are_little_endian() {
    let (mut cpu, _) = machine();
    cpu.registers.write_word(WordRegisterName::RegBC, 0x1234);
    assert_eq!(cpu.registers.read_byte(ByteRegisterName::RegB), 0x12);
    assert_eq!(cpu.registers.read_byte(ByteRegisterName::RegC), 0x34);
}

#[test]
fn pop_af_masks_flag_low_nibble() {
    let (mut cpu, mut memory) = machine();
    cpu.registers.write_word(WordRegisterName::RegSP, 0xC100);
    memory.write_word(0x12AF, 0xC100);
    load_program(&mut cpu, &mut memory, &[0xF1]);
    let r = cpu.step(&mut memory);
    assert_eq!(r, StepResult::Step(3));
    assert_eq!(cpu.registers.read_byte(ByteRegisterName::RegA), 0x12);
    assert_eq!(cpu.registers.read_byte(ByteRegisterName::RegF), 0xA0);
    assert_eq!(cpu.registers.read_word(WordRegisterName::RegSP), 0xC102);
}

#[test]
fn add_sets_half_carry() {
    let (mut cpu, mut memory) = machine();
    cpu.registers.write_byte(ByteRegisterName::RegA, 0x0F);
    cpu.registers.write_byte(ByteRegisterName::RegB, 0x01);
    load_program(&mut cpu, &mut memory, &[0x80]);
    assert_eq!(cpu.step(&mut memory), StepResult::Step(1));
    assert_eq!(cpu.registers.read_byte(ByteRegisterName::RegA), 0x10);
    assert_eq!(flags(&cpu), (false, false, true, false));
}

#[test]
fn sub_borrows_from_zero() {
    let (mut cpu, mut memory) = machine();
    cpu.registers.write_byte(ByteRegisterName::RegA, 0x00);
    load_program(&mut cpu, &mut memory, &[0xD6, 0x01]);
    assert_eq!(cpu.step(&mut memory), StepResult::Step(2));
    assert_eq!(cpu.registers.read_byte(ByteRegisterName::RegA), 0xFF);
    assert_eq!(flags(&cpu), (false, true, true, true));
}

#[test]
fn daa_after_add() {
    let (mut cpu, mut memory) = machine();
    cpu.registers.write_byte(ByteRegisterName::RegA, 0x45);
    load_program(&mut cpu, &mut memory, &[0xC6, 0x38, 0x27]);
    cpu.step(&mut memory);
    assert_eq!(cpu.registers.read_byte(ByteRegisterName::RegA), 0x7D);
    cpu.step(&mut memory);
    assert_eq!(cpu.registers.read_byte(ByteRegisterName::RegA), 0x83);
    let (z, _, h, c) = flags(&cpu);
    assert_eq!((z, h, c), (false, false, false));
}

#[test]
fn daa_after_subtraction_keeps_carry() {
    let (mut cpu, mut memory) = machine();
    cpu.registers.write_byte(ByteRegisterName::RegA, 0x10);
    load_program(&mut cpu, &mut memory, &[0xD6, 0x20, 0x27]);
    cpu.step(&mut memory);
    assert_eq!(cpu.registers.read_byte(ByteRegisterName::RegA), 0xF0);
    cpu.step(&mut memory);
    assert_eq!(cpu.registers.read_byte(ByteRegisterName::RegA), 0x90);
    assert!(cpu.registers.check_flag(Flags::C));
}

#[test]
fn add_then_sub_round_trips() {
    for (a, b) in [(0u8, 0u8), (200, 100), (1, 255), (0x80, 0x80), (37, 19)] {
        let (sum, _, _, _, carry) = Cpu::byte_addition(a, b, false);
        let (back, _, _, _, borrow) = Cpu::byte_subtraction(sum, b, false);
        assert_eq!(back, a);
        assert_eq!(borrow, carry);
    }
}

#[test]
fn byte_addition_formula() {
    assert_eq!(Cpu::byte_addition(0xFF, 0x00, true), (0x00, true, false, true, true));
    assert_eq!(Cpu::byte_addition(0x3A, 0xC6, false), (0x00, true, false, true, true));
    assert_eq!(Cpu::byte_subtraction(0x3E, 0x0F, true), (0x2E, false, true, true, false));
}

#[test]
fn scf_then_ccf_and_ccf_twice() {
    let (mut cpu, _) = machine();
    cpu.registers.set_flag_off(Flags::C);
    cpu.scf();
    assert!(cpu.registers.check_flag(Flags::C));
    cpu.ccf();
    assert!(!cpu.registers.check_flag(Flags::C));
    for initial in [false, true] {
        cpu.registers.set_flag(Flags::C, initial);
        cpu.ccf();
        cpu.ccf();
        assert_eq!(cpu.registers.check_flag(Flags::C), initial);
        assert!(!cpu.registers.check_flag(Flags::N));
        assert!(!cpu.registers.check_flag(Flags::H));
    }
}

#[test]
fn logic_ops_set_flags() {
    let (mut cpu, memory) = machine();
    cpu.registers.write_byte(ByteRegisterName::RegA, 0xF0);
    cpu.registers.write_byte(ByteRegisterName::RegB, 0x0F);
    cpu.and(&memory, ByteRegister::new(ByteRegisterName::RegB));
    assert_eq!(cpu.registers.read_byte(ByteRegisterName::RegA), 0x00);
    assert_eq!(flags(&cpu), (true, false, true, false));
    cpu.registers.write_byte(ByteRegisterName::RegA, 0xF0);
    cpu.xor(&memory, ByteRegister::new(ByteRegisterName::RegB));
    assert_eq!(cpu.registers.read_byte(ByteRegisterName::RegA), 0xFF);
    assert_eq!(flags(&cpu), (false, false, false, false));
    cpu.or(&memory, ByteRegister::new(ByteRegisterName::RegB));
    assert_eq!(cpu.registers.read_byte(ByteRegisterName::RegA), 0xFF);
}

#[test]
fn rotates_and_shifts() {
    let (mut cpu, mut memory) = machine();
    let b = ByteRegisterName::RegB;
    cpu.registers.write_byte(b, 0x85);
    cpu.rlc(&mut memory, ByteRegister::new(b));
    assert_eq!(cpu.registers.read_byte(b), 0x0B);
    assert!(cpu.registers.check_flag(Flags::C));
    cpu.rr(&mut memory, ByteRegister::new(b));
    assert_eq!(cpu.registers.read_byte(b), 0x85);
    assert!(cpu.registers.check_flag(Flags::C));
    cpu.sra(&mut memory, ByteRegister::new(b));
    assert_eq!(cpu.registers.read_byte(b), 0xC2);
    cpu.srl(&mut memory, ByteRegister::new(b));
    assert_eq!(cpu.registers.read_byte(b), 0x61);
    cpu.sla(&mut memory, ByteRegister::new(b));
    assert_eq!(cpu.registers.read_byte(b), 0xC2);
    cpu.swap(&mut memory, ByteRegister::new(b));
    assert_eq!(cpu.registers.read_byte(b), 0x2C);
    assert!(!cpu.registers.check_flag(Flags::C));
    cpu.rrc(&mut memory, ByteRegister::new(b));
    assert_eq!(cpu.registers.read_byte(b), 0x16);
    cpu.registers.set_flag_on(Flags::C);
    cpu.rl(&mut memory, ByteRegister::new(b));
    assert_eq!(cpu.registers.read_byte(b), 0x2D);
}

#[test]
fn bit_res_set() {
    let (mut cpu, mut memory) = machine();
    let c = ByteRegisterName::RegC;
    cpu.registers.write_byte(c, 0b0000_0100);
    cpu.bit(&memory, 2, ByteRegister::new(c));
    assert!(!cpu.registers.check_flag(Flags::Z));
    cpu.bit(&memory, 3, ByteRegister::new(c));
    assert!(cpu.registers.check_flag(Flags::Z));
    assert!(cpu.registers.check_flag(Flags::H));
    cpu.set(&mut memory, 7, ByteRegister::new(c));
    assert_eq!(cpu.registers.read_byte(c), 0x84);
    cpu.res(&mut memory, 2, ByteRegister::new(c));
    assert_eq!(cpu.registers.read_byte(c), 0x80);
}

#[test]
fn add_hl_carries_from_bits_11_and_15() {
    let (mut cpu, mut memory) = machine();
    cpu.registers.write_word(WordRegisterName::RegHL, 0x8FFF);
    cpu.registers.write_word(WordRegisterName::RegDE, 0x8001);
    load_program(&mut cpu, &mut memory, &[0x19]);
    cpu.step(&mut memory);
    assert_eq!(cpu.registers.read_word(WordRegisterName::RegHL), 0x1000);
    assert!(cpu.registers.check_flag(Flags::H));
    assert!(cpu.registers.check_flag(Flags::C));
    assert!(!cpu.registers.check_flag(Flags::N));
}

#[test]
fn add_sp_signed_offset() {
    let (mut cpu, _) = machine();
    cpu.registers.write_word(WordRegisterName::RegSP, 0x00FF);
    cpu.add_sp_i8(WordRegisterName::RegSP, 1);
    assert_eq!(cpu.registers.read_word(WordRegisterName::RegSP), 0x0100);
    assert_eq!(flags(&cpu), (false, false, true, true));
    cpu.add_sp_i8(WordRegisterName::RegHL, -2);
    assert_eq!(cpu.registers.read_word(WordRegisterName::RegHL), 0x00FE);
}

#[test]
fn inc_dec_word_and_byte() {
    let (mut cpu, mut memory) = machine();
    cpu.registers.write_word(WordRegisterName::RegBC, 0x0000);
    load_program(&mut cpu, &mut memory, &[0x0B, 0x03, 0x3C, 0x3D]);
    cpu.step(&mut memory);
    assert_eq!(cpu.registers.read_word(WordRegisterName::RegBC), 0xFFFF);
    cpu.step(&mut memory);
    assert_eq!(cpu.registers.read_word(WordRegisterName::RegBC), 0x0000);
    cpu.registers.write_byte(ByteRegisterName::RegA, 0x0F);
    cpu.step(&mut memory);
    assert_eq!(cpu.registers.read_byte(ByteRegisterName::RegA), 0x10);
    assert!(cpu.registers.check_flag(Flags::H));
    cpu.step(&mut memory);
    assert_eq!(cpu.registers.read_byte(ByteRegisterName::RegA), 0x0F);
    assert!(cpu.registers.check_flag(Flags::N));
}

#[test]
fn jumps_calls_and_returns() {
    let (mut cpu, mut memory) = machine();
    cpu.registers.write_word(WordRegisterName::RegSP, 0xD000);
    // CALL C010; at C010: RET
    load_program(&mut cpu, &mut memory, &[0xCD, 0x10, 0xC0]);
    memory.write(0xC9, 0xC010);
    assert_eq!(cpu.step(&mut memory), StepResult::Step(6));
    assert_eq!(cpu.registers.read_word(WordRegisterName::RegPC), 0xC010);
    assert_eq!(memory.read_word(0xCFFE), 0xC003);
    assert_eq!(cpu.step(&mut memory), StepResult::Step(4));
    assert_eq!(cpu.registers.read_word(WordRegisterName::RegPC), 0xC003);
    assert_eq!(cpu.registers.read_word(WordRegisterName::RegSP), 0xD000);
}

#[test]
fn jr_taken_and_untaken_timing() {
    let (mut cpu, mut memory) = machine();
    // JR NZ,-2 with Z set: not taken; then JR +2
    load_program(&mut cpu, &mut memory, &[0x20, 0xFE, 0x18, 0x02]);
    cpu.registers.set_flag_on(Flags::Z);
    assert_eq!(cpu.step(&mut memory), StepResult::Step(2));
    assert_eq!(cpu.registers.read_word(WordRegisterName::RegPC), 0xC002);
    assert_eq!(cpu.step(&mut memory), StepResult::Step(3));
    assert_eq!(cpu.registers.read_word(WordRegisterName::RegPC), 0xC006);
}

#[test]
fn instruction_timing_constants() {
    let cases: [(&[u8], u8); 8] = [
        (&[0x00], 1),
        (&[0xC3, 0x00, 0xC0], 4),
        (&[0x08, 0x00, 0xC1], 5),
        (&[0xCB, 0x46], 3),
        (&[0xCB, 0x86], 4),
        (&[0xCB, 0x11], 2),
        (&[0x36, 0x12], 3),
        (&[0xF8, 0x01], 3),
    ];
    for (program, cycles) in cases.iter() {
        let (mut cpu, mut memory) = machine();
        cpu.registers.write_word(WordRegisterName::RegHL, 0xC800);
        load_program(&mut cpu, &mut memory, program);
        let cost = match cpu.step(&mut memory) {
            StepResult::Step(c) => c,
            StepResult::StepSideEffect(c, _) => c,
        };
        assert_eq!(cost, *cycles);
    }
}

#[test]
fn illegal_opcode_is_a_one_cycle_nop() {
    let (mut cpu, mut memory) = machine();
    load_program(&mut cpu, &mut memory, &[0xD3]);
    let a = cpu.registers.read_byte(ByteRegisterName::RegA);
    assert_eq!(cpu.step(&mut memory), StepResult::Step(1));
    assert_eq!(cpu.registers.read_word(WordRegisterName::RegPC), 0xC001);
    assert_eq!(cpu.registers.read_byte(ByteRegisterName::RegA), a);
}

#[test]
fn side_effect_instructions() {
    let (mut cpu, mut memory) = machine();
    load_program(&mut cpu, &mut memory, &[0x76, 0x10, 0xF3, 0xFB]);
    assert_eq!(cpu.step(&mut memory), StepResult::StepSideEffect(1, SideEffect::Halt));
    assert_eq!(cpu.step(&mut memory), StepResult::StepSideEffect(1, SideEffect::Stop));
    assert_eq!(cpu.step(&mut memory), StepResult::StepSideEffect(1, SideEffect::DisableInterrupt));
    assert_eq!(cpu.step(&mut memory), StepResult::StepSideEffect(1, SideEffect::EnableInterruptDelayed));
}

#[test]
fn ei_takes_effect_after_next_instruction() {
    let (mut cpu, mut memory) = machine();
    memory.write(0x00, 0xFFFF);
    load_program(&mut cpu, &mut memory, &[0xFB, 0x00, 0x00]);
    assert_eq!(cpu.run(&mut memory), 1);
    assert!(!cpu.ime);
    assert_eq!(cpu.run(&mut memory), 1);
    assert!(cpu.ime);
}

#[test]
fn interrupts_served_in_priority_order() {
    let (mut cpu, mut memory) = machine();
    load_program(&mut cpu, &mut memory, &[0x00]);
    cpu.registers.write_word(WordRegisterName::RegSP, 0xD000);
    memory.write(0x03, 0xFFFF);
    memory.write(0x03, 0xFF0F);
    cpu.ime = true;
    assert_eq!(cpu.run(&mut memory), 0);
    assert_eq!(cpu.registers.read_word(WordRegisterName::RegPC), 0x40);
    assert_eq!(memory.read(0xFF0F), 0x02);
    assert!(!cpu.ime);
    assert_eq!(memory.read_word(0xCFFE), 0xC000);
}

#[test]
fn reti_enables_interrupts_at_once() {
    let (mut cpu, mut memory) = machine();
    cpu.registers.write_word(WordRegisterName::RegSP, 0xCFFE);
    memory.write_word(0xC123, 0xCFFE);
    load_program(&mut cpu, &mut memory, &[0xD9]);
    cpu.run(&mut memory);
    assert!(cpu.ime);
    assert_eq!(cpu.registers.read_word(WordRegisterName::RegPC), 0xC123);
}

#[test]
fn halt_wakes_on_pending_flag_without_ime() {
    let (mut cpu, mut memory) = machine();
    load_program(&mut cpu, &mut memory, &[0x76, 0x00]);
    memory.write(0x00, 0xFF0F);
    cpu.run(&mut memory);
    assert!(cpu.halted);
    assert_eq!(cpu.run(&mut memory), 0);
    assert!(cpu.halted);
    memory.write(0x04, 0xFF0F);
    assert_eq!(cpu.run(&mut memory), 0);
    assert!(!cpu.halted);
}

#[test]
fn hl_increment_and_decrement_loads() {
    let (mut cpu, mut memory) = machine();
    cpu.registers.write_word(WordRegisterName::RegHL, 0xC800);
    cpu.registers.write_byte(ByteRegisterName::RegA, 0x5A);
    cpu.ld_byte_0x22(&mut memory);
    assert_eq!(memory.read(0xC800), 0x5A);
    assert_eq!(cpu.registers.read_word(WordRegisterName::RegHL), 0xC801);
    cpu.ld_byte_0x32(&mut memory);
    assert_eq!(cpu.registers.read_word(WordRegisterName::RegHL), 0xC800);
    cpu.ld_byte_0x3a(&mut memory);
    assert_eq!(cpu.registers.read_word(WordRegisterName::RegHL), 0xC7FF);
    cpu.registers.write_word(WordRegisterName::RegHL, 0xC800);
    cpu.registers.write_byte(ByteRegisterName::RegA, 0);
    cpu.ld_byte_0x2a(&mut memory);
    assert_eq!(cpu.registers.read_byte(ByteRegisterName::RegA), 0x5A);
}

#[test]
fn timer_interrupt_via_cpu_ticks() {
    let (mut cpu, mut memory) = machine();
    memory.write(0x00, 0xFF0F);
    memory.write(0x05, 0xFF07);
    memory.write(0x00, 0xFF04);
    memory.write(0xFE, 0xFF06);
    memory.write(0xFF, 0xFF05);
    for _ in 0..16 {
        cpu.tick_timer(&mut memory);
    }
    assert_eq!(memory.read(0xFF05), 0x00);
    assert_eq!(memory.read(0xFF0F) & 0x04, 0);
    cpu.tick_timer(&mut memory);
    assert_eq!(memory.read(0xFF05), 0xFE);
    assert_eq!(memory.read(0xFF0F) & 0x04, 0x04);
}

#[test]
fn rst_pushes_return_and_jumps() {
    let (mut cpu, mut memory) = machine();
    cpu.registers.write_word(WordRegisterName::RegSP, 0xD000);
    load_program(&mut cpu, &mut memory, &[0xEF]);
    assert_eq!(cpu.step(&mut memory), StepResult::Step(4));
    assert_eq!(cpu.registers.read_word(WordRegisterName::RegPC), 0x0028);
    assert_eq!(memory.read_word(0xCFFE), 0xC001);
}

#[test]
fn high_page_loads() {
    let (mut cpu, mut memory) = machine();
    cpu.registers.write_byte(ByteRegisterName::RegA, 0x42);
    load_program(&mut cpu, &mut memory, &[0xE0, 0x80, 0xAF, 0xF0, 0x80]);
    assert_eq!(cpu.step(&mut memory), StepResult::Step(3));
    assert_eq!(memory.read(0xFF80), 0x42);
    cpu.step(&mut memory);
    assert_eq!(cpu.registers.read_byte(ByteRegisterName::RegA), 0x00);
    assert!(cpu.registers.check_flag(Flags::Z));
    assert_eq!(cpu.step(&mut memory), StepResult::Step(3));
    assert_eq!(cpu.registers.read_byte(ByteRegisterName::RegA), 0x42);
}

#[test]
fn push_then_pop_moves_a_pair() {
    let (mut cpu, mut memory) = machine();
    cpu.registers.write_word(WordRegisterName::RegSP, 0xD000);
    cpu.registers.write_word(WordRegisterName::RegBC, 0xBEEF);
    load_program(&mut cpu, &mut memory, &[0xC5, 0xD1]);
    assert_eq!(cpu.step(&mut memory), StepResult::Step(4));
    assert_eq!(cpu.registers.read_word(WordRegisterName::RegSP), 0xCFFE);
    assert_eq!(cpu.step(&mut memory), StepResult::Step(3));
    assert_eq!(cpu.registers.read_word(WordRegisterName::RegDE), 0xBEEF);
    assert_eq!(cpu.registers.read_word(WordRegisterName::RegSP), 0xD000);
}

#[test]
fn jp_c_follows_the_carry_flag() {
    let (mut cpu, mut memory) = machine();
    load_program(&mut cpu, &mut memory, &[0xDA, 0x00, 0xC8]);
    cpu.registers.set_flag_on(Flags::Z);
    cpu.registers.set_flag_off(Flags::C);
    assert_eq!(cpu.step(&mut memory), StepResult::Step(3));
    assert_eq!(cpu.registers.read_word(WordRegisterName::RegPC), 0xC003);
    cpu.registers.write_word(WordRegisterName::RegPC, 0xC000);
    cpu.registers.set_flag_on(Flags::C);
    assert_eq!(cpu.step(&mut memory), StepResult::Step(4));
    assert_eq!(cpu.registers.read_word(WordRegisterName::RegPC), 0xC800);
}
