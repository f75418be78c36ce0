use vstd::prelude::*;
use crate::apu_registers::ApuRegisters;
use crate::memory_gb::{MemoryMap, MemoryRegion, MemoryState};

verus! {

pub const LENGTH_TIMER_EXPIRY: u8 = 64;

pub const WAVE_RAM_BASE_ADDRESS: u16 = 0xFF30;

/// Marks the per-channel parameter snapshots handed to an audio backend.
pub trait IsWave {
}

/// The share of a square wave's period spent high.
#[derive(Clone, Copy, PartialEq, Eq, Structural, Debug)]
pub enum DutyCycle {
    Eighth,
    Quarter,
    Half,
    ThreeQuarter,
}

pub open spec fn duty_of(length_and_duty: u8) -> DutyCycle {
    if length_and_duty / 64 == 0 {
        DutyCycle::Eighth
    } else if length_and_duty / 64 == 1 {
        DutyCycle::Quarter
    } else if length_and_duty / 64 == 2 {
        DutyCycle::Half
    } else {
        DutyCycle::ThreeQuarter
    }
}

/// A square channel's parameters: duty, volume 0..15 (0 while silent) and the
/// 11-bit period; its frequency is 131072 / (2048 - period) Hz.
#[derive(Clone, Copy, PartialEq, Eq, Structural, Debug)]
pub struct SquareSnapshot {
    pub duty_cycle: DutyCycle,
    pub volume: u8,
    pub period: u16,
}

impl IsWave for SquareSnapshot {
}

/// The wave channel's parameters: 32 samples already shifted by the output
/// level, the largest value a sample can take, and the 11-bit period; its
/// frequency is 65536 / (2048 - period) Hz.
pub struct WaveSnapshot {
    pub samples: Vec<u8>,
    pub full_scale: u8,
    pub period: u16,
}

impl IsWave for WaveSnapshot {
}

/// The state that the sound unit keeps for one channel.
#[derive(Clone, Copy, PartialEq, Eq, Structural, Debug)]
pub struct ChannelState {
    pub volume: u8,
    pub length_timer: u8,
    pub period: u16,
    pub active: bool,
}

/// A channel after a trigger: volume and period reloaded, the length timer
/// reloaded if it ran out, the channel on if `on`.
pub open spec fn triggered(c: ChannelState, volume: u8, period: u16, length: u8, on: bool) -> ChannelState {
    ChannelState {
        volume,
        period,
        length_timer: if c.length_timer >= LENGTH_TIMER_EXPIRY || c.length_timer == 0 {
            length
        } else {
            c.length_timer
        },
        active: on,
    }
}

/// A length-timer step: the timer counts up to 64 and then silences the channel.
pub open spec fn length_step(c: ChannelState, enabled: bool) -> ChannelState {
    if enabled && c.length_timer < LENGTH_TIMER_EXPIRY {
        ChannelState {
            length_timer: (c.length_timer + 1) as u8,
            active: c.active && c.length_timer + 1 != LENGTH_TIMER_EXPIRY,
            ..c
        }
    } else {
        c
    }
}

/// A volume-envelope step at DIV-APU count `counter`: every 8 * pace ticks the
/// volume moves one step toward 15 or 0.
pub open spec fn envelope_step(c: ChannelState, pace: u8, increasing: bool, counter: u32) -> ChannelState {
    if pace > 0 && counter as int % (8 * pace as int) == 0 {
        if increasing && c.volume < 15 {
            ChannelState { volume: (c.volume + 1) as u8, ..c }
        } else if !increasing && c.volume > 0 {
            ChannelState { volume: (c.volume - 1) as u8, ..c }
        } else {
            c
        }
    } else {
        c
    }
}

pub open spec fn pow2(step: u8) -> int
    decreases step,
{
    if step == 0 {
        1
    } else {
        2 * pow2((step - 1) as u8)
    }
}

/// The period after one sweep step: NR10 bit 3 set subtracts, clear adds.
pub open spec fn swept_period(period: u16, subtract: bool, step: u8) -> int {
    if subtract {
        period - period as int / pow2(step)
    } else {
        period + period as int / pow2(step)
    }
}

/// A frequency-sweep step at DIV-APU count `counter`: every 4 * pace ticks the
/// period moves; a result of 0 or above 0x7FF silences the channel.
pub open spec fn sweep_step(c: ChannelState, pace: u8, subtract: bool, step: u8, counter: u32) -> ChannelState {
    if c.active && pace > 0 && counter as int % (4 * pace as int) == 0 {
        let p = swept_period(c.period, subtract, step);
        if p > 0x7FF || p == 0 {
            ChannelState { active: false, ..c }
        } else {
            ChannelState { period: p as u16, ..c }
        }
    } else {
        c
    }
}

/// Sample `k` of the wave channel: byte k/2 of wave RAM, high nibble first,
/// shifted right by `shift`.
pub open spec fn wave_sample(ram: Seq<u8>, k: int, shift: u8) -> u8 {
    if k % 2 == 0 {
        (ram[k / 2] / 16) >> shift
    } else {
        (ram[k / 2] % 16) >> shift
    }
}

/// A channel after the latches of its registers are consumed.
pub open spec fn channel_events(
    c: ChannelState,
    length_update: bool,
    length: u8,
    trigger: bool,
    volume: u8,
    period: u16,
    on: bool,
    period_update: bool,
) -> ChannelState {
    let l = if length_update { ChannelState { length_timer: length, ..c } } else { c };
    let t = if trigger { triggered(l, volume, period, length, on) } else { l };
    if period_update { ChannelState { period, ..t } } else { t }
}

/// The part of the sound unit that DIV-APU ticks and register events change,
/// with the registers they read and write.
#[derive(Clone, Copy, PartialEq, Eq, Structural, Debug)]
pub struct ApuTickState {
    pub channel_1: ChannelState,
    pub channel_2: ChannelState,
    pub channel_3: ChannelState,
    pub sweep_pace: u8,
    pub counter: u32,
    pub regs: ApuRegisters,
}

/// One DIV-APU tick: the counter advances; then the channel-1 sweep (its
/// period written back to NR13/NR14), the length timers on even counts, and
/// the volume envelopes of the square channels.
pub open spec fn tick_spec(t: ApuTickState) -> ApuTickState {
    let r = t.regs;
    let counter = t.counter.wrapping_add(1);
    let s1 = sweep_step(t.channel_1, t.sweep_pace, (r.nr10 / 8) % 2 == 1, r.nr10 % 8, counter);
    let even = counter % 2 == 0;
    let l1 = if even { length_step(s1, (r.nr14 / 64) % 2 == 1) } else { s1 };
    let l2 = if even { length_step(t.channel_2, (r.nr24 / 64) % 2 == 1) } else { t.channel_2 };
    let l3 = if even { length_step(t.channel_3, (r.nr34 / 64) % 2 == 1) } else { t.channel_3 };
    ApuTickState {
        channel_1: envelope_step(l1, r.nr12 % 8, (r.nr12 / 8) % 2 == 1, counter),
        channel_2: envelope_step(l2, r.nr22 % 8, (r.nr22 / 8) % 2 == 1, counter),
        channel_3: l3,
        sweep_pace: t.sweep_pace,
        counter,
        regs: ApuRegisters {
            nr13: (s1.period % 256) as u8,
            nr14: (r.nr14 - r.nr14 % 8 + s1.period / 256) as u8,
            ..r
        },
    }
}

/// `n` DIV-APU ticks in a row.
pub open spec fn ticks(t: ApuTickState, n: nat) -> ApuTickState
    decreases n,
{
    if n == 0 {
        t
    } else {
        tick_spec(ticks(t, (n - 1) as nat))
    }
}

/// The falling edges of DIV bit 4 as DIV steps `steps` times from `start`:
/// a value of 31 mod 32 is followed by one with bit 4 clear.
pub open spec fn edges_between(start: u8, steps: nat) -> nat
    decreases steps,
{
    if steps == 0 {
        0
    } else {
        edges_between(start, (steps - 1) as nat) + if ((start + steps - 1) % 256) % 32 == 31 {
            1nat
        } else {
            0
        }
    }
}

/// The DIV-APU ticks owed when DIV moved from `previous` to `current`: after
/// a DIV reset, one if bit 4 fell between the two; otherwise every falling
/// edge on the way.
pub open spec fn owed_ticks(previous: u8, current: u8, reset: bool) -> nat {
    if reset {
        if (previous / 16) % 2 == 1 && (current / 16) % 2 == 0 { 1 } else { 0 }
    } else {
        edges_between(previous, ((current - previous + 256) % 256) as nat)
    }
}

/// All three channels after the register latches are consumed, and the
/// registers with every latch cleared.
pub open spec fn events_spec(t: ApuTickState) -> ApuTickState {
    let r = t.regs;
    ApuTickState {
        channel_1: channel_events(
            t.channel_1,
            r.ch1_length_timer_to_update,
            r.nr11 % 64,
            r.ch1_to_trigger,
            r.nr12 / 16,
            (r.nr13 + 256 * (r.nr14 % 8)) as u16,
            true,
            r.ch1_period_to_update,
        ),
        channel_2: channel_events(
            t.channel_2,
            r.ch2_length_timer_to_update,
            r.nr21 % 64,
            r.ch2_to_trigger,
            r.nr22 / 16,
            (r.nr23 + 256 * (r.nr24 % 8)) as u16,
            true,
            r.ch2_period_to_update,
        ),
        channel_3: channel_events(
            t.channel_3,
            r.ch3_length_timer_to_update,
            r.nr31 % 64,
            r.ch3_to_trigger,
            t.channel_3.volume,
            (r.nr33 + 256 * (r.nr34 % 8)) as u16,
            r.nr30 >= 128,
            r.ch3_period_to_update,
        ),
        sweep_pace: if r.ch1_to_trigger { (r.nr10 / 16) % 8 } else { t.sweep_pace },
        counter: t.counter,
        regs: ApuRegisters {
            ch1_to_trigger: false,
            ch2_to_trigger: false,
            ch3_to_trigger: false,
            ch1_period_to_update: false,
            ch2_period_to_update: false,
            ch3_period_to_update: false,
            ch1_length_timer_to_update: false,
            ch2_length_timer_to_update: false,
            ch3_length_timer_to_update: false,
            ..r
        },
    }
}

/// The sound unit and bus after `catchup_registers`. With NR52 bit 7 clear
/// only the three channels go silent. Otherwise the latches are consumed,
/// wave RAM and the output level are reloaded, and the owed DIV-APU ticks run.
pub open spec fn caught_up(old_apu: &Apu, mem: MemoryState, new_apu: &Apu, new_mem: MemoryState) -> bool {
    if !mem.apu.master_audio_is_enabled_spec() {
        &&& new_apu.channel_1 == (ChannelState { active: false, ..old_apu.channel_1 })
        &&& new_apu.channel_2 == (ChannelState { active: false, ..old_apu.channel_2 })
        &&& new_apu.channel_3 == (ChannelState { active: false, ..old_apu.channel_3 })
        &&& new_apu.channel_1_sweep_pace == old_apu.channel_1_sweep_pace
        &&& new_apu.divider_counter == old_apu.divider_counter
        &&& new_apu.divider_previous == old_apu.divider_previous
        &&& new_apu.channel_3_volume_shift == old_apu.channel_3_volume_shift
        &&& new_apu.channel_3_wave_ram@ == old_apu.channel_3_wave_ram@
        &&& new_mem == mem
    } else {
        let current = (mem.timer.divider.value / 256) as u8;
        let n = owed_ticks(old_apu.divider_previous, current, mem.div_reset);
        let t = ticks(events_spec(old_apu.tick_state(mem.apu)), n);
        &&& new_apu.tick_state(new_mem.apu) == t
        &&& new_apu.channel_3_wave_ram@ == Seq::new(16, |i: int| mem.read((WAVE_RAM_BASE_ADDRESS + i) as u16))
        &&& new_apu.channel_3_volume_shift == volume_shift_of((mem.apu.nr32 / 32) % 4)
        &&& new_apu.divider_previous == current
        &&& new_mem == (MemoryState { apu: new_mem.apu, div_reset: false, ..mem })
    }
}

/// The sound unit's own state beside the registers.
pub struct Apu {
    pub channel_1: ChannelState,
    pub channel_1_sweep_pace: u8,
    pub channel_2: ChannelState,
    pub channel_3: ChannelState,
    pub channel_3_volume_shift: u8,
    pub channel_3_wave_ram: Vec<u8>,
    pub divider_previous: u8,
    pub divider_counter: u32,
}

/// The right shift that NR32's output level applies to wave samples: 4 mutes.
pub open spec fn volume_shift_of(level: u8) -> u8 {
    if level == 0 {
        4
    } else {
        (level - 1) as u8
    }
}

fn divide_by_pow2(value: u16, step: u8) -> (r: u16)
    requires
        step < 8,
    ensures
        r == value as int / pow2(step),
        r <= value,
{
    let mut r = value;
    let mut i: u8 = 0;
    while i < step
        invariant
            i <= step,
            step < 8,
            r == value as int / pow2(i),
            r <= value,
        decreases step - i,
    {
        proof {
            assert(pow2((i + 1) as u8) == 2 * pow2(i));
            lemma_pow2_positive(i);
            vstd::arithmetic::div_mod::lemma_div_denominator(value as int, pow2(i), 2);
        }
        r = r / 2;
        i = i + 1;
    }
    r
}

proof fn lemma_pow2_positive(step: u8)
    ensures
        pow2(step) > 0,
    decreases step,
{
    if step > 0 {
        lemma_pow2_positive((step - 1) as u8);
    }
}

impl Apu {
    pub open spec fn tick_state(&self, regs: ApuRegisters) -> ApuTickState {
        ApuTickState {
            channel_1: self.channel_1,
            channel_2: self.channel_2,
            channel_3: self.channel_3,
            sweep_pace: self.channel_1_sweep_pace,
            counter: self.divider_counter,
            regs,
        }
    }

    pub open spec fn wf(&self) -> bool {
        &&& self.channel_3_wave_ram@.len() == 16
        &&& self.channel_3_volume_shift <= 4
        &&& self.channel_1.period < 2048
        &&& self.channel_1_sweep_pace < 8
    }

    /// All channels silent and zeroed.
    pub fn new() -> (r: Apu)
        ensures
            r.wf(),
            !r.channel_1.active && !r.channel_2.active && !r.channel_3.active,
            r.divider_counter == 0,
            r.divider_previous == 0,
            r.channel_3_wave_ram@ == Seq::new(16, |_i: int| 0u8),
    {
        let silent = ChannelState { volume: 0, length_timer: 0, period: 0, active: false };
        let mut wave_ram: Vec<u8> = Vec::new();
        let mut i: usize = 0;
        while i < 16
            invariant
                i <= 16,
                wave_ram@ == Seq::new(i as nat, |_i: int| 0u8),
            decreases 16 - i,
        {
            wave_ram.push(0);
            i = i + 1;
        }
        Apu {
            channel_1: silent,
            channel_1_sweep_pace: 0,
            channel_2: silent,
            channel_3: silent,
            channel_3_volume_shift: 4,
            channel_3_wave_ram: wave_ram,
            divider_previous: 0,
            divider_counter: 0,
        }
    }

    fn trigger(c: ChannelState, volume: u8, period: u16, length: u8, on: bool) -> (r: ChannelState)
        ensures
            r == triggered(c, volume, period, length, on),
    {
        ChannelState {
            volume,
            period,
            length_timer: if c.length_timer >= LENGTH_TIMER_EXPIRY || c.length_timer == 0 {
                length
            } else {
                c.length_timer
            },
            active: on,
        }
    }

    fn step_length(c: ChannelState, enabled: bool) -> (r: ChannelState)
        ensures
            r == length_step(c, enabled),
    {
        if enabled && c.length_timer < LENGTH_TIMER_EXPIRY {
            let length_timer = c.length_timer + 1;
            ChannelState { length_timer, active: c.active && length_timer != LENGTH_TIMER_EXPIRY, ..c }
        } else {
            c
        }
    }

    fn step_envelope(c: ChannelState, pace: u8, increasing: bool, counter: u32) -> (r: ChannelState)
        requires
            pace < 8,
        ensures
            r == envelope_step(c, pace, increasing, counter),
    {
        if pace > 0 && counter % (8 * pace as u32) == 0 {
            if increasing && c.volume < 15 {
                ChannelState { volume: c.volume + 1, ..c }
            } else if !increasing && c.volume > 0 {
                ChannelState { volume: c.volume - 1, ..c }
            } else {
                c
            }
        } else {
            c
        }
    }

    fn step_sweep(c: ChannelState, pace: u8, subtract: bool, step: u8, counter: u32) -> (r: ChannelState)
        requires
            pace < 8,
            step < 8,
            c.period < 2048,
        ensures
            r == sweep_step(c, pace, subtract, step, counter),
            r.period < 2048,
    {
        if c.active && pace > 0 && counter % (4 * pace as u32) == 0 {
            let delta = divide_by_pow2(c.period, step);
            let p: u32 = if subtract { (c.period - delta) as u32 } else { c.period as u32 + delta as u32 };
            if p > 0x7FF || p == 0 {
                ChannelState { active: false, ..c }
            } else {
                ChannelState { period: p as u16, ..c }
            }
        } else {
            c
        }
    }

    /// One DIV-APU tick: the counter advances; then the channel-1 sweep (its
    /// period written back to NR13/NR14), the length timers on even counts, and
    /// the volume envelopes of the square channels.
    #[verifier::spinoff_prover]
    #[verifier::rlimit(60)]
    pub fn div_apu_tick(&mut self, regs: &mut ApuRegisters)
        requires
            old(self).wf(),
        ensures
            final(self).wf(),
            final(self).tick_state(*final(regs)) == tick_spec(old(self).tick_state(*old(regs))),
            final(self).channel_1_sweep_pace == old(self).channel_1_sweep_pace,
            final(self).channel_3_volume_shift == old(self).channel_3_volume_shift,
            final(self).channel_3_wave_ram@ == old(self).channel_3_wave_ram@,
            final(self).divider_previous == old(self).divider_previous,
    {
        let ghost before = self.tick_state(*regs);
        let ghost expected = tick_spec(before);
        let counter = self.divider_counter.wrapping_add(1);
        self.divider_counter = counter;
        let swept = Apu::step_sweep(
            self.channel_1,
            self.channel_1_sweep_pace,
            regs.channel_1_sweep_increasing(),
            regs.channel_1_sweep_step(),
            counter,
        );
        self.channel_1 = swept;
        regs.nr13 = (swept.period % 256) as u8;
        regs.nr14 = regs.nr14 - regs.nr14 % 8 + (swept.period / 256) as u8;
        if counter % 2 == 0 {
            self.channel_1 = Apu::step_length(self.channel_1, regs.channel_1_length_timer_enabled());
            self.channel_2 = Apu::step_length(self.channel_2, regs.channel_2_length_timer_enabled());
            self.channel_3 = Apu::step_length(self.channel_3, regs.channel_3_length_timer_enabled());
        }
        self.channel_1 = Apu::step_envelope(
            self.channel_1,
            regs.channel_1_volume_sweep_pace(),
            regs.channel_1_volume_sweep_increasing(),
            counter,
        );
        self.channel_2 = Apu::step_envelope(
            self.channel_2,
            regs.channel_2_volume_sweep_pace(),
            regs.channel_2_volume_sweep_increasing(),
            counter,
        );
        assert(self.channel_1 == expected.channel_1);
        assert(self.channel_2 == expected.channel_2);
        assert(self.channel_3 == expected.channel_3);
        assert(*regs == expected.regs);
    }

    fn consume_events(
        c: ChannelState,
        length_update: bool,
        length: u8,
        trigger: bool,
        volume: u8,
        period: u16,
        on: bool,
        period_update: bool,
    ) -> (r: ChannelState)
        ensures
            r == channel_events(c, length_update, length, trigger, volume, period, on, period_update),
    {
        let mut channel = c;
        if length_update {
            channel.length_timer = length;
        }
        if trigger {
            channel = Apu::trigger(channel, volume, period, length, on);
        }
        if period_update {
            channel.period = period;
        }
        channel
    }

    /// Consumes the latches that CPU writes left: length reloads, triggers
    /// (channel 3 only turns on with its DAC on) and period reloads.
    fn apply_register_events(&mut self, regs: &mut ApuRegisters)
        requires
            old(self).wf(),
        ensures
            final(self).wf(),
            final(self).tick_state(*final(regs)) == events_spec(old(self).tick_state(*old(regs))),
            final(self).channel_3_volume_shift == old(self).channel_3_volume_shift,
            final(self).channel_3_wave_ram@ == old(self).channel_3_wave_ram@,
            final(self).divider_previous == old(self).divider_previous,
            final(self).divider_counter == old(self).divider_counter,
    {
        self.channel_1 = Apu::consume_events(
            self.channel_1,
            regs.ch1_length_timer_to_update,
            regs.channel_1_length_timer(),
            regs.ch1_to_trigger,
            regs.channel_1_initial_volume(),
            regs.channel_1_period(),
            true,
            regs.ch1_period_to_update,
        );
        if regs.ch1_to_trigger {
            self.channel_1_sweep_pace = regs.channel_1_sweep_pace();
        }
        self.channel_2 = Apu::consume_events(
            self.channel_2,
            regs.ch2_length_timer_to_update,
            regs.channel_2_length_timer(),
            regs.ch2_to_trigger,
            regs.channel_2_initial_volume(),
            regs.channel_2_period(),
            true,
            regs.ch2_period_to_update,
        );
        self.channel_3 = Apu::consume_events(
            self.channel_3,
            regs.ch3_length_timer_to_update,
            regs.channel_3_length_timer(),
            regs.ch3_to_trigger,
            self.channel_3.volume,
            regs.channel_3_period(),
            regs.channel_3_dac_enabled(),
            regs.ch3_period_to_update,
        );
        regs.ch1_to_trigger = false;
        regs.ch2_to_trigger = false;
        regs.ch3_to_trigger = false;
        regs.ch1_period_to_update = false;
        regs.ch2_period_to_update = false;
        regs.ch3_period_to_update = false;
        regs.ch1_length_timer_to_update = false;
        regs.ch2_length_timer_to_update = false;
        regs.ch3_length_timer_to_update = false;
    }

    /// Brings the sound unit up to date with the registers: with NR52 bit 7
    /// clear every channel goes silent; otherwise the write latches are
    /// consumed, wave RAM and the output level are reloaded, and one DIV-APU
    /// tick runs for each falling edge of DIV bit 4 since the last call.
    #[verifier::spinoff_prover]
    #[verifier::rlimit(60)]
    pub fn catchup_registers(&mut self, memory: &mut MemoryMap)
        requires
            old(self).wf(),
            old(memory).wf(),
        ensures
            final(self).wf(),
            final(memory).wf(),
            caught_up(old(self), old(memory)@, final(self), final(memory)@),
    {
        let mut regs = memory.data.apu_state;
        if !regs.master_audio_is_enabled() {
            self.channel_1.active = false;
            self.channel_2.active = false;
            self.channel_3.active = false;
            return;
        }
        self.apply_register_events(&mut regs);
        let ghost events = self.tick_state(regs);
        let mut wave: Vec<u8> = Vec::new();
        let mut i: u16 = 0;
        while i < 16
            invariant
                memory.wf(),
                i <= 16,
                wave@.len() == i,
                forall|j: int| 0 <= j < i ==> #[trigger] wave@[j] == memory@.read((WAVE_RAM_BASE_ADDRESS + j) as u16),
            decreases 16 - i,
        {
            wave.push(memory.read(WAVE_RAM_BASE_ADDRESS + i));
            i = i + 1;
        }
        self.channel_3_wave_ram = wave;
        proof {
            assert(self.channel_3_wave_ram@ =~= Seq::new(
                16,
                |i: int| old(memory)@.read((WAVE_RAM_BASE_ADDRESS + i) as u16),
            ));
        }
        let level = regs.channel_3_output_level();
        self.channel_3_volume_shift = if level == 0 { 4 } else { level - 1 };
        let current = memory.data.timer.read_divider();
        let start = self.divider_previous;
        if memory.div_reset {
            if (start / 16) % 2 == 1 && (current / 16) % 2 == 0 {
                self.div_apu_tick(&mut regs);
                proof {
                    assert(ticks(events, 1) == tick_spec(ticks(events, 0)));
                }
            }
            memory.div_reset = false;
        } else {
            let steps: u8 = current.wrapping_sub(start);
            let mut k: u8 = 0;
            while k < steps
                invariant
                    self.wf(),
                    k <= steps,
                    steps == (current - start + 256) % 256,
                    self.tick_state(regs) == ticks(events, edges_between(start, k as nat)),
                    self.channel_3_volume_shift == volume_shift_of((old(memory)@.apu.nr32 / 32) % 4),
                    self.channel_3_wave_ram@ == Seq::new(
                        16,
                        |i: int| old(memory)@.read((WAVE_RAM_BASE_ADDRESS + i) as u16),
                    ),
                    self.divider_previous == start,
                decreases steps - k,
            {
                let value = start.wrapping_add(k);
                if value % 32 == 31 {
                    self.div_apu_tick(&mut regs);
                }
                proof {
                    let e = edges_between(start, k as nat);
                    assert(edges_between(start, (k + 1) as nat) == e + if ((start + k) % 256) % 32 == 31 { 1nat } else { 0 });
                    if value % 32 == 31 {
                        assert(ticks(events, e + 1) == tick_spec(ticks(events, e)));
                    }
                }
                k = k + 1;
            }
        }
        self.divider_previous = current;
        memory.data.apu_state = regs;
    }

    /// A square channel's snapshot: duty from bits 7..6 of its length/duty
    /// register, volume 0 while the channel is silent.
    fn square_snapshot(channel: ChannelState, length_and_duty: u8) -> (r: SquareSnapshot)
        ensures
            r.duty_cycle == duty_of(length_and_duty),
            r.volume == if channel.active { channel.volume } else { 0 },
            r.period == channel.period,
    {
        let selector = length_and_duty / 64;
        let duty_cycle = if selector == 0 {
            DutyCycle::Eighth
        } else if selector == 1 {
            DutyCycle::Quarter
        } else if selector == 2 {
            DutyCycle::Half
        } else {
            DutyCycle::ThreeQuarter
        };
        SquareSnapshot {
            duty_cycle,
            volume: if channel.active { channel.volume } else { 0 },
            period: channel.period,
        }
    }

    /// The wave channel's snapshot: each wave-RAM byte gives two samples, high
    /// nibble first, shifted right by the output level (muted while silent).
    fn wave_snapshot(&self) -> (r: WaveSnapshot)
        requires
            self.wf(),
        ensures
            ({
                let shift = if self.channel_3.active { self.channel_3_volume_shift } else { 4 };
                &&& r.samples@.len() == 32
                &&& forall|k: int|
                    0 <= k < 32 ==> #[trigger] r.samples@[k] == wave_sample(self.channel_3_wave_ram@, k, shift)
                &&& r.full_scale == 15u8 >> shift
                &&& r.period == self.channel_3.period
            }),
    {
        let shift: u8 = if self.channel_3.active { self.channel_3_volume_shift } else { 4 };
        let mut samples: Vec<u8> = Vec::new();
        let mut i: usize = 0;
        while i < 16
            invariant
                self.wf(),
                i <= 16,
                shift <= 4,
                shift == if self.channel_3.active { self.channel_3_volume_shift } else { 4 },
                samples@.len() == 2 * i,
                forall|k: int|
                    0 <= k < 2 * i ==> #[trigger] samples@[k] == wave_sample(self.channel_3_wave_ram@, k, shift),
            decreases 16 - i,
        {
            let byte = self.channel_3_wave_ram[i];
            samples.push((byte / 16) >> shift);
            samples.push((byte % 16) >> shift);
            i = i + 1;
        }
        WaveSnapshot { samples, full_scale: 15u8 >> shift, period: self.channel_3.period }
    }

    /// Catches up with the registers, then reports the parameters of the two
    /// square channels and the wave channel.
    pub fn update_waves(&mut self, memory: &mut MemoryMap) -> (r: (SquareSnapshot, SquareSnapshot, WaveSnapshot))
        requires
            old(self).wf(),
            old(memory).wf(),
        ensures
            final(self).wf(),
            final(memory).wf(),
            caught_up(old(self), old(memory)@, final(self), final(memory)@),
            r.0 == (SquareSnapshot {
                duty_cycle: duty_of(final(memory)@.apu.nr11),
                volume: if final(self).channel_1.active { final(self).channel_1.volume } else { 0 },
                period: final(self).channel_1.period,
            }),
            r.1 == (SquareSnapshot {
                duty_cycle: duty_of(final(memory)@.apu.nr21),
                volume: if final(self).channel_2.active { final(self).channel_2.volume } else { 0 },
                period: final(self).channel_2.period,
            }),
            ({
                let shift = if final(self).channel_3.active { final(self).channel_3_volume_shift } else { 4 };
                &&& r.2.samples@.len() == 32
                &&& forall|k: int|
                    0 <= k < 32 ==> #[trigger] r.2.samples@[k] == wave_sample(final(self).channel_3_wave_ram@, k, shift)
                &&& r.2.full_scale == 15u8 >> shift
                &&& r.2.period == final(self).channel_3.period
            }),
    {
        self.catchup_registers(memory);
        let first = Apu::square_snapshot(self.channel_1, memory.data.apu_state.read_nr11());
        let second = Apu::square_snapshot(self.channel_2, memory.data.apu_state.read_nr21());
        let wave = self.wave_snapshot();
        (first, second, wave)
    }
}

} // verus!
