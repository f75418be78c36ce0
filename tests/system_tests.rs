use dmg_core::apu::{Apu, DutyCycle};
use dmg_core::cart::{Cart, CartError, MapperKind};
use dmg_core::cpu::Cpu;
use dmg_core::input::{ButtonState, DummyDevice, InputHandler};
use dmg_core::joypad::{Joypad, JoypadMode};
use dmg_core::memory_gb::{ByteExt, MemoryMap, MemoryRegion};
use dmg_core::ppu::{Color, ColorIndex, Ppu, RenderMode, Tile};
use dmg_core::scheduler::{Scheduler, Slice};
use dmg_core::special_registers::Timer;

fn rom_with(kind: u8, ram_code: u8, banks: usize) -> Vec<u8> {
    let mut rom = Vec::new();
    for bank in 0..banks {
        rom.extend(std::iter::repeat(bank as u8).take(0x4000));
    }
    rom[0x0147] = kind;
    rom[0x0149] = ram_code;
    rom
}

fn memory_with(rom: Vec<u8>) -> MemoryMap {
    let cart = Cart::from_rom(rom).unwrap();
    MemoryMap::new(MemoryMap::allocate(cart, Joypad::new()))
}

fn plain_memory() -> MemoryMap {
    memory_with(vec![0u8; 0x8000])
}

#[test]
fn cart_errors() {
    assert!(matches!(Cart::from_rom(vec![0u8; 0x100]), Err(CartError::Truncated)));
    let mut rom = vec![0u8; 0x8000];
    rom[0x0149] = 6;
    assert!(matches!(Cart::from_rom(rom), Err(CartError::ImpossibleRamSize(6))));
    let mut rom = vec![0u8; 0x8000];
    rom[0x0147] = 0x05;
    assert!(matches!(Cart::from_rom(rom), Err(CartError::UnsupportedMapper(0x05))));
}

#[test]
fn cart_ram_sizes() {
    for (code, banks) in [(0u8, 0usize), (1, 0), (2, 1), (3, 4), (4, 16), (5, 8)] {
        let cart = Cart::from_rom(rom_with(0x03, code, 2)).unwrap();
        assert_eq!(cart.kind(), MapperKind::Mbc1);
        let ram = cart.ram_image();
        assert_eq!(ram.len(), banks * 0x2000);
        assert!(ram.iter().all(|b| *b == 0xFF));
    }
}

#[test]
fn no_mbc_ignores_writes() {
    let mut memory = memory_with(rom_with(0x00, 0, 2));
    assert_eq!(memory.read(0x4000), 1);
    memory.write(0x02, 0x2000);
    assert_eq!(memory.read(0x4000), 1);
    assert_eq!(memory.read(0xA000), 0xFF);
}

#[test]
fn mbc1_banking_and_ram_gate() {
    let mut memory = memory_with(rom_with(0x03, 2, 8));
    assert_eq!(memory.read(0x4000), 1);
    memory.write(0x03, 0x2000);
    assert_eq!(memory.read(0x4000), 3);
    memory.write(0x00, 0x2000);
    assert_eq!(memory.read(0x4000), 1);
    assert_eq!(memory.read(0x0000), 0);
    assert_eq!(memory.read(0xA000), 0xFF);
    memory.write(0x42, 0xA000);
    assert_eq!(memory.read(0xA000), 0xFF);
    memory.write(0x1A, 0x0000);
    memory.write(0x42, 0xA000);
    assert_eq!(memory.read(0xA000), 0x42);
    memory.write(0x00, 0x0000);
    assert_eq!(memory.read(0xA000), 0xFF);
}

#[test]
fn mbc3_rtc_select_reads_open_bus() {
    let mut memory = memory_with(rom_with(0x13, 3, 4));
    memory.write(0x02, 0x2000);
    assert_eq!(memory.read(0x4000), 2);
    memory.write(0x0A, 0x0000);
    memory.write(0x01, 0x4000);
    memory.write(0x77, 0xA000);
    assert_eq!(memory.read(0xA000), 0x77);
    memory.write(0x08, 0x4000);
    assert_eq!(memory.read(0xA000), 0xFF);
    memory.write(0x11, 0xA000);
    memory.write(0x01, 0x4000);
    assert_eq!(memory.read(0xA000), 0x77);
}

#[test]
fn mbc5_bank_zero_is_literal() {
    let mut memory = memory_with(rom_with(0x19, 0, 4));
    assert_eq!(memory.read(0x4000), 1);
    memory.write(0x00, 0x2000);
    assert_eq!(memory.read(0x4000), 0);
    memory.write(0x03, 0x2000);
    assert_eq!(memory.read(0x4000), 3);
    memory.write(0x01, 0x3000);
    assert_eq!(memory.read(0x4000), 0xFF);
}

#[test]
fn wram_word_round_trip() {
    let mut memory = plain_memory();
    for w in [0x0000u16, 0x1234, 0xFFFF, 0xBEEF] {
        memory.write_word(w, 0xC000);
        assert_eq!(memory.read_word(0xC000), w);
        assert_eq!(memory.read(0xC000), (w & 0xFF) as u8);
        assert_eq!(memory.read(0xC001), (w >> 8) as u8);
    }
}

#[test]
fn echo_ram_mirrors_work_ram() {
    let mut memory = plain_memory();
    memory.write(0x99, 0xC123);
    assert_eq!(memory.read(0xE123), 0x99);
    memory.write(0x11, 0xFDFF);
    assert_eq!(memory.read(0xDDFF), 0x11);
}

#[test]
fn unusable_region_reads_ff_and_drops_writes() {
    let mut memory = plain_memory();
    memory.write(0x12, 0xFEA0);
    assert_eq!(memory.read(0xFEA0), 0xFF);
    assert_eq!(memory.read(0xFEFF), 0xFF);
}

#[test]
fn div_write_reads_zero() {
    let mut memory = plain_memory();
    let mut cpu = Cpu::new();
    for _ in 0..1000 {
        cpu.tick_timer(&mut memory);
    }
    assert_eq!(memory.read(0xFF04), 3);
    memory.write(0x5A, 0xFF04);
    assert_eq!(memory.read(0xFF04), 0);
    assert!(memory.div_reset);
}

#[test]
fn timer_counts_falling_edges() {
    let mut timer = Timer::new();
    timer.write_control(0x05);
    timer.write_divider(0);
    for _ in 0..16 {
        timer.tick();
    }
    assert_eq!(timer.read_counter(), 1);
    for _ in 16..256 {
        timer.tick();
    }
    assert_eq!(timer.read_counter(), 16);
    assert_eq!(timer.read_divider(), 1);
}

#[test]
fn timer_overflow_reloads_modulo_one_dot_later() {
    let mut timer = Timer::new();
    timer.write_control(0x05);
    timer.write_divider(0);
    timer.write_modulo(0xFE);
    timer.write_counter(0xFE);
    let mut fired_at = None;
    let mut reached_ff_at = None;
    for dot in 0..64 {
        if timer.tick() {
            fired_at = Some(dot);
            break;
        }
        if timer.read_counter() == 0xFF && reached_ff_at.is_none() {
            reached_ff_at = Some(dot);
        }
    }
    assert_eq!(reached_ff_at, Some(15));
    assert_eq!(fired_at, Some(32));
    assert_eq!(timer.read_counter(), 0xFE);
}

#[test]
fn timer_control_masks_and_disable() {
    let mut timer = Timer::new();
    timer.write_control(0xFA);
    assert_eq!(timer.read_control(), 0x02);
    for _ in 0..1024 {
        timer.tick();
    }
    assert_eq!(timer.read_counter(), 0);
}

#[test]
fn dma_copies_160_bytes_to_oam() {
    let mut memory = plain_memory();
    for i in 0..0xA0u16 {
        memory.write(i as u8, 0xC000 + i);
    }
    memory.write(0xC0, 0xFF46);
    for i in 0..0xA0u16 {
        assert_eq!(memory.read(0xFE00 + i), i as u8);
    }
}

#[test]
fn serial_bytes_are_collected() {
    let mut memory = plain_memory();
    memory.write(b'O', 0xFF01);
    memory.write(b'K', 0xFF01);
    assert_eq!(memory.take_serial_output(), vec![b'O', b'K']);
    assert!(memory.take_serial_output().is_empty());
}

#[test]
fn joypad_modes() {
    let mut memory = plain_memory();
    memory.data.joypad.button_values = 0b1101_1110;
    memory.write(0x20, 0xFF00);
    assert_eq!(memory.data.joypad.mode, JoypadMode::Buttons);
    assert_eq!(memory.read(0xFF00), 0x20 | 0x0E);
    memory.write(0x10, 0xFF00);
    assert_eq!(memory.read(0xFF00), 0x10 | 0x0D);
    memory.write(0x00, 0xFF00);
    assert_eq!(memory.read(0xFF00), 0x0F);
    memory.write(0x30, 0xFF00);
    assert_eq!(memory.data.joypad.mode, JoypadMode::Unselected);
}

#[test]
fn input_poll_raises_joypad_interrupt() {
    let mut memory = plain_memory();
    memory.write(0x00, 0xFF0F);
    let mut handler = InputHandler::new();
    let mut idle = DummyDevice {};
    let idle_state = InputHandler::get_button_state(&mut idle);
    assert_eq!(idle_state, 0xFF);
    let a_pressed = InputHandler::pack_buttons(
        ButtonState::Pressed,
        ButtonState::Unpressed,
        ButtonState::Unpressed,
        ButtonState::Unpressed,
        ButtonState::Unpressed,
        ButtonState::Unpressed,
        ButtonState::Unpressed,
        ButtonState::Pressed,
    );
    assert_eq!(a_pressed, 0x7E);
    handler.poll(&mut memory, &vec![idle_state]);
    assert_eq!(memory.read(0xFF0F), 0x00);
    handler.poll(&mut memory, &vec![idle_state, a_pressed]);
    assert_eq!(memory.data.joypad.button_values, 0x7E);
    assert_eq!(memory.read(0xFF0F), 0x10);
    memory.write(0x00, 0xFF0F);
    handler.poll(&mut memory, &vec![a_pressed]);
    assert_eq!(memory.read(0xFF0F), 0x00);
}

#[test]
fn signed_bytes() {
    assert_eq!(0x7Fu8.interpret_as_signed(), 127);
    assert_eq!(0x80u8.interpret_as_signed(), -128);
    assert_eq!(0xFEu8.interpret_as_signed(), -2);
}

#[test]
fn palettes_and_colors() {
    assert_eq!(ColorIndex::Three.apply_palette(0xE4), Color::D);
    assert_eq!(ColorIndex::One.apply_palette(0x1B), Color::C);
    assert_eq!(ColorIndex::from_bits(true, false), ColorIndex::Two);
    assert_eq!(ColorIndex::from_value(4), None);
    assert_eq!(Color::from_value(2), Some(Color::C));
    assert!(Color::B.is_blank_color(0x01));
    assert_eq!(Color::from_bits(true, true).to_value(), 3);
    assert_eq!(RenderMode::PixelDraw.mode_number(), 3);
    assert_eq!(Ppu::viewport_of(200, 120), ((200, 120), (103, 7)));
}

#[test]
fn tile_color_index() {
    let mut memory = plain_memory();
    memory.write(0b1000_0001, 0x8000);
    memory.write(0b1000_0000, 0x8001);
    let tile = Tile::from_address(&memory, 0x8000);
    assert_eq!(tile.color_index(0, 0), Some(ColorIndex::Three));
    assert_eq!(tile.color_index(7, 0), Some(ColorIndex::One));
    assert_eq!(tile.color_index(3, 0), Some(ColorIndex::Blank));
    assert_eq!(tile.color_index(8, 0), None);
}

/// Runs the graphics unit until it publishes a frame; returns the dots spent.
fn run_frame(ppu: &mut Ppu, memory: &mut MemoryMap) -> u32 {
    let mut dots = 0;
    loop {
        dots += ppu.run(memory);
        if ppu.frame_is_ready() {
            return dots;
        }
    }
}

fn sprite_scene(behind: bool) -> Color {
    let mut memory = plain_memory();
    memory.write(0x93, 0xFF40);
    memory.write(0xE4, 0xFF47);
    memory.write(0xE4, 0xFF48);
    memory.write(0x00, 0xFF42);
    memory.write(0x00, 0xFF43);
    for line in 0..8u16 {
        memory.write(0xFF, 0x8000 + 2 * line);
        memory.write(0x00, 0x8001 + 2 * line);
        memory.write(0xFF, 0x8010 + 2 * line);
        memory.write(0xFF, 0x8011 + 2 * line);
    }
    memory.write(16, 0xFE00);
    memory.write(8, 0xFE01);
    memory.write(1, 0xFE02);
    memory.write(if behind { 0x80 } else { 0x00 }, 0xFE03);
    let mut ppu = Ppu::new();
    run_frame(&mut ppu, &mut memory);
    run_frame(&mut ppu, &mut memory);
    ppu.display_handle()[0]
}

#[test]
fn sprite_behind_background_keeps_background() {
    assert_eq!(sprite_scene(true), Color::B);
    assert_eq!(sprite_scene(false), Color::D);
}

#[test]
fn frame_is_70224_dots_and_ly_stays_in_range() {
    let mut memory = plain_memory();
    memory.write(0x91, 0xFF40);
    memory.write(0x40 | 0x08, 0xFF41);
    memory.write(100, 0xFF45);
    let mut ppu = Ppu::new();
    run_frame(&mut ppu, &mut memory);
    assert_eq!(run_frame(&mut ppu, &mut memory), 70224);
    let mut saw_coincidence = false;
    for _ in 0..20000 {
        ppu.run(&mut memory);
        let ly = memory.read(0xFF44);
        let stat = memory.read(0xFF41);
        assert!(ly <= 153);
        assert_eq!(stat & 0x04 != 0, ly == 100);
        assert_eq!(stat & 0x03, ppu.current_mode.mode_number());
        saw_coincidence |= ly == 100;
    }
    assert!(saw_coincidence);
}

#[test]
fn vblank_raises_interrupt() {
    let mut memory = plain_memory();
    memory.write(0x91, 0xFF40);
    memory.write(0x00, 0xFF0F);
    let mut ppu = Ppu::new();
    run_frame(&mut ppu, &mut memory);
    memory.write(0x00, 0xFF0F);
    run_frame(&mut ppu, &mut memory);
    assert_eq!(memory.read(0xFF0F) & 0x01, 0x01);
    assert_eq!(memory.read(0xFF44), 144);
}

#[test]
fn lcd_off_holds_line_zero() {
    let mut memory = plain_memory();
    memory.write(0x00, 0xFF40);
    let mut ppu = Ppu::new();
    assert_eq!(ppu.run(&mut memory), 4);
    assert_eq!(memory.read(0xFF44), 0);
    assert_eq!(ppu.current_mode, RenderMode::OAMScan);
    assert_eq!(ppu.current_dot, 0);
}

#[test]
fn apu_trigger_and_master_switch() {
    let mut memory = plain_memory();
    let mut apu = Apu::new();
    memory.write(0x80, 0xFF26);
    memory.write(0x80, 0xFF11);
    memory.write(0xF0, 0xFF12);
    memory.write(0x00, 0xFF13);
    memory.write(0x87, 0xFF14);
    let (first, second, _) = apu.update_waves(&mut memory);
    assert_eq!(first.duty_cycle, DutyCycle::Half);
    assert_eq!(first.volume, 15);
    assert_eq!(first.period, 0x700);
    assert_eq!(second.volume, 0);
    assert!(!memory.data.apu_state.ch1_to_trigger);
    memory.write(0x00, 0xFF26);
    let (first, _, _) = apu.update_waves(&mut memory);
    assert_eq!(first.volume, 0);
}

#[test]
fn apu_wave_channel_samples() {
    let mut memory = plain_memory();
    let mut apu = Apu::new();
    memory.write(0x80, 0xFF26);
    memory.write(0x80, 0xFF1A);
    memory.write(0x40, 0xFF1C);
    memory.write(0x9A, 0xFF30);
    memory.write(0x80, 0xFF1E);
    let (_, _, wave) = apu.update_waves(&mut memory);
    assert_eq!(wave.samples.len(), 32);
    assert_eq!(wave.samples[0], 0x9 >> 1);
    assert_eq!(wave.samples[1], 0xA >> 1);
    assert_eq!(wave.full_scale, 7);
}

#[test]
fn apu_length_timer_silences_channel() {
    let mut memory = plain_memory();
    let mut apu = Apu::new();
    let mut cpu = Cpu::new();
    memory.write(0x80, 0xFF26);
    memory.write(0x3F, 0xFF16);
    memory.write(0xF0, 0xFF17);
    memory.write(0xC0, 0xFF19);
    let (_, second, _) = apu.update_waves(&mut memory);
    assert_eq!(second.volume, 15);
    let mut silenced = false;
    for _ in 0..(8192 * 4 / 256 + 4) {
        for _ in 0..256 {
            cpu.tick_timer(&mut memory);
        }
        let (_, second, _) = apu.update_waves(&mut memory);
        if second.volume == 0 {
            silenced = true;
            break;
        }
    }
    assert!(silenced);
}

#[test]
fn pending_trigger_survives_a_later_write() {
    let mut memory = plain_memory();
    memory.write(0x80, 0xFF14);
    memory.write(0x03, 0xFF14);
    assert!(memory.data.apu_state.ch1_to_trigger);
    memory.write(0x80, 0xFF19);
    assert!(memory.data.apu_state.ch2_to_trigger);
}

#[test]
fn master_off_keeps_channel_state() {
    let mut memory = plain_memory();
    let mut apu = Apu::new();
    memory.write(0x80, 0xFF26);
    memory.write(0xA0, 0xFF12);
    memory.write(0x34, 0xFF13);
    memory.write(0x82, 0xFF14);
    apu.update_waves(&mut memory);
    let before = apu.channel_1;
    memory.write(0x00, 0xFF26);
    memory.write(0x80, 0xFF19);
    apu.catchup_registers(&mut memory);
    assert!(!apu.channel_1.active);
    assert_eq!(apu.channel_1.volume, before.volume);
    assert_eq!(apu.channel_1.period, before.period);
    assert_eq!(apu.channel_1.length_timer, before.length_timer);
    assert!(memory.data.apu_state.ch2_to_trigger);
}

#[test]
fn wave_channel_trigger_with_dac_on() {
    let mut memory = plain_memory();
    let mut apu = Apu::new();
    memory.write(0x80, 0xFF26);
    memory.write(0x80, 0xFF1A);
    memory.write(0x21, 0xFF1D);
    memory.write(0x85, 0xFF1E);
    apu.catchup_registers(&mut memory);
    assert!(apu.channel_3.active);
    assert_eq!(apu.channel_3.period, 0x521);
    assert!(!memory.data.apu_state.ch3_to_trigger);
}

#[test]
fn scheduler_alternates_cpu_debt_and_ppu_payment() {
    let mut memory = plain_memory();
    memory.write(0x91, 0xFF40);
    memory.write(0x00, 0xFFFF);
    let mut cpu = Cpu::new();
    cpu.registers.write_word(dmg_core::cpu::WordRegisterName::RegPC, 0xC000);
    let mut ppu = Ppu::new();
    let mut scheduler = Scheduler::new();
    assert_eq!(scheduler.step(&mut cpu, &mut ppu, &mut memory), Slice::Cpu(1));
    assert_eq!(scheduler.debt, 4);
    assert_eq!(scheduler.step(&mut cpu, &mut ppu, &mut memory), Slice::Ppu(24));
    assert_eq!(scheduler.debt, -20);
    assert!(matches!(scheduler.step(&mut cpu, &mut ppu, &mut memory), Slice::Cpu(_)));
}

#[test]
fn scheduler_unlocks_a_halted_cpu_with_a_ppu_granule() {
    let mut memory = plain_memory();
    memory.write(0x91, 0xFF40);
    memory.write(0x00, 0xFFFF);
    memory.write(0x00, 0xFF0F);
    let mut cpu = Cpu::new();
    cpu.halted = true;
    let mut ppu = Ppu::new();
    let mut scheduler = Scheduler::new();
    assert_eq!(scheduler.step(&mut cpu, &mut ppu, &mut memory), Slice::Cpu(0));
    assert!(scheduler.cpu_locked);
    assert_eq!(scheduler.debt, 0);
    assert!(matches!(scheduler.step(&mut cpu, &mut ppu, &mut memory), Slice::PpuUnlock(_)));
    assert!(!scheduler.cpu_locked);
    assert_eq!(scheduler.debt, 0);
}
