use nes_emu::apu::Apu;
use nes_emu::apu::Dmc;
use nes_emu::apu::Noise;
use nes_emu::apu::Pulse;
use nes_emu::apu::Triangle;
use nes_emu::apu::LENGTH_TABLE;
use nes_emu::apu::NOISE_PERIOD_TABLE;

fn steps(apu: &mut Apu, n: u32) {
    for _ in 0..n {
        apu.step();
    }
}

#[test]
fn noise_lfsr_full_period() {
    let mut noise = Noise::new();
    assert_eq!(noise.shift_register, 1);
    // a period of zero steps the register on every clock
    for i in 1..=32767u32 {
        noise.clock_timer();
        assert!(noise.shift_register > 0 && noise.shift_register <= 0x7FFF);
        if i < 32767 {
            assert_ne!(noise.shift_register, 1, "came back after {} steps", i);
        }
    }
    assert_eq!(noise.shift_register, 1);
}

#[test]
fn noise_lfsr_short_period() {
    let mut noise = Noise::new();
    noise.mode = true;
    let mut period = 0u32;
    loop {
        noise.clock_timer();
        period += 1;
        if noise.shift_register == 1 {
            break;
        }
        assert!(period < 93, "no return within 93 steps");
    }
    assert!(period <= 93);
    assert_eq!(period, 93);
}

#[test]
fn noise_lfsr_first_steps() {
    let mut noise = Noise::new();
    noise.clock_timer();
    // bit 0 xor bit 1 of 1 is 1, which enters at bit 14
    assert_eq!(noise.shift_register, 0x4000);
    noise.clock_timer();
    assert_eq!(noise.shift_register, 0x2000);
    let mut short = Noise::new();
    short.mode = true;
    short.clock_timer();
    assert_eq!(short.shift_register, 0x4000);
}

#[test]
fn noise_timer_counts_down() {
    let mut apu = Apu::new();
    apu.write_register(0x400E, 0x02);
    assert_eq!(apu.noise.timer_period, NOISE_PERIOD_TABLE[2]);
    assert_eq!(apu.noise.timer_period, 16);
    apu.noise.clock_timer(); // reloads and steps
    assert_eq!(apu.noise.timer_counter, 16);
    assert_eq!(apu.noise.shift_register, 0x4000);
    for _ in 0..16 {
        apu.noise.clock_timer();
    }
    assert_eq!(apu.noise.timer_counter, 0);
    assert_eq!(apu.noise.shift_register, 0x4000);
    apu.noise.clock_timer();
    assert_eq!(apu.noise.shift_register, 0x2000);
}

#[test]
fn apu_power_on_state() {
    let mut apu = Apu::new();
    assert_eq!(apu.read_register(0x4015), 0);
    assert_eq!(apu.channel_outputs(), (0, 0, 0, 0, 0));
    assert!(!apu.frame_interrupt());
    assert_eq!(apu.noise.shift_register, 1);
    assert_eq!(Pulse::new()._get_output(), 0);
    assert_eq!(Triangle::new()._get_output(), 0);
    assert_eq!(Noise::new()._get_output(), 0);
    assert_eq!(Dmc::new()._get_output(), 0);
}

#[test]
fn length_counter_load_and_status() {
    let mut apu = Apu::new();
    apu.write_register(0x4015, 0x0F);
    apu.write_register(0x4003, 0x08); // index 1
    apu.write_register(0x4007, 0xF8); // index 31
    apu.write_register(0x400B, 0x00); // index 0
    apu.write_register(0x400F, 0x10); // index 2
    assert_eq!(apu.pulse1.length_counter, 254);
    assert_eq!(apu.pulse2.length_counter, 30);
    assert_eq!(apu.triangle.length_counter, 10);
    assert_eq!(apu.noise.length_counter, 20);
    assert_eq!(apu.pulse1.length_counter, LENGTH_TABLE[1]);
    assert_eq!(apu.read_register(0x4015), 0x0F);
    assert!(apu.pulse1.envelope_start);
    assert!(apu.triangle.linear_counter_reload);
}

#[test]
fn disabling_a_channel_clears_its_length() {
    let mut apu = Apu::new();
    apu.write_register(0x4015, 0x0F);
    apu.write_register(0x4003, 0x08);
    apu.write_register(0x4007, 0x08);
    apu.write_register(0x400B, 0x08);
    apu.write_register(0x400F, 0x08);
    apu.write_register(0x4015, 0x0A);
    assert_eq!(apu.pulse1.length_counter, 0);
    assert_eq!(apu.pulse2.length_counter, 254);
    assert_eq!(apu.triangle.length_counter, 0);
    assert_eq!(apu.noise.length_counter, 254);
    assert_eq!(apu.read_register(0x4015), 0x0A);
}

#[test]
fn register_writes_reach_the_channels() {
    let mut apu = Apu::new();
    apu.write_register(0x4000, 0b10_1_1_0111);
    assert_eq!(apu.pulse1.duty, 2);
    assert!(apu.pulse1.envelope_loop);
    assert!(apu.pulse1.constant_volume);
    assert_eq!(apu.pulse1.volume, 7);
    assert_eq!(apu.pulse1.envelope_period, 7);
    apu.write_register(0x4005, 0b1_101_1_011);
    assert!(apu.pulse2.sweep_enabled);
    assert_eq!(apu.pulse2.sweep_period, 5);
    assert!(apu.pulse2.sweep_negate);
    assert_eq!(apu.pulse2.sweep_shift, 3);
    apu.write_register(0x4002, 0xAB);
    apu.write_register(0x4003, 0x05);
    assert_eq!(apu.pulse1.timer_period, 0x5AB);
    apu.write_register(0x4008, 0xFF);
    assert_eq!(apu.triangle.linear_counter_period, 0x7F);
    apu.write_register(0x400A, 0x34);
    apu.write_register(0x400B, 0x02);
    assert_eq!(apu.triangle.timer_period, 0x234);
    apu.write_register(0x400C, 0x3F);
    assert!(apu.noise.envelope_loop);
    assert!(apu.noise.constant_volume);
    assert_eq!(apu.noise.volume, 15);
    apu.write_register(0x400E, 0x8F);
    assert!(apu.noise.mode);
    assert_eq!(apu.noise.timer_period, 4068);
    apu.write_register(0x4010, 0xCF);
    assert!(apu.dmc.irq_enabled);
    assert!(apu.dmc.loop_flag);
    assert_eq!(apu.dmc.rate, 15);
    apu.write_register(0x4011, 0xFF);
    assert_eq!(apu.dmc._get_output(), 0x7F);
    apu.write_register(0x4012, 0x01);
    assert_eq!(apu.dmc.sample_address, 0xC040);
    apu.write_register(0x4013, 0x01);
    assert_eq!(apu.dmc.sample_length, 0x11);
    // holes in the register file are ignored
    apu.write_register(0x4009, 0xFF);
    apu.write_register(0x400D, 0xFF);
    apu.write_register(0x4014, 0xFF);
    apu.write_register(0x4016, 0xFF);
    assert_eq!(apu.triangle.timer_period, 0x234);
    assert_eq!(apu.read_register(0x4000), 0);
}

#[test]
fn pulse_output_follows_duty() {
    let mut apu = Apu::new();
    apu.write_register(0x4015, 0x01);
    apu.write_register(0x4000, 0b01_0_1_1001); // duty 1, constant volume 9
    apu.write_register(0x4002, 0x08);
    apu.write_register(0x4003, 0x08);
    // duty 1 is 0 1 1 0 0 0 0 0
    let expected = [0u8, 9, 9, 0, 0, 0, 0, 0];
    for step in 0..8 {
        apu.pulse1.sequence_pos = step;
        assert_eq!(apu.pulse1._get_output(), expected[step as usize]);
    }
    // a period under 8 silences the channel
    apu.write_register(0x4002, 0x07);
    apu.pulse1.sequence_pos = 1;
    assert_eq!(apu.pulse1._get_output(), 0);
}

#[test]
fn pulse_timer_advances_sequence() {
    let mut pulse = Pulse::new();
    pulse.timer_period = 2;
    pulse.clock_timer(); // reload, step
    assert_eq!((pulse.timer_counter, pulse.sequence_pos), (2, 1));
    pulse.clock_timer();
    pulse.clock_timer();
    assert_eq!((pulse.timer_counter, pulse.sequence_pos), (0, 1));
    pulse.clock_timer();
    assert_eq!((pulse.timer_counter, pulse.sequence_pos), (2, 2));
    pulse.sequence_pos = 7;
    pulse.timer_counter = 0;
    pulse.clock_timer();
    assert_eq!(pulse.sequence_pos, 0);
}

#[test]
fn triangle_output_and_sequence() {
    let mut tri = Triangle::new();
    tri.enabled = true;
    tri.length_counter = 5;
    tri.linear_counter = 5;
    assert_eq!(tri._get_output(), 15);
    tri.clock_timer();
    assert_eq!(tri.sequence_pos, 1);
    assert_eq!(tri._get_output(), 14);
    tri.sequence_pos = 16;
    assert_eq!(tri._get_output(), 0);
    tri.sequence_pos = 31;
    assert_eq!(tri._get_output(), 15);
    tri.clock_timer();
    assert_eq!(tri.sequence_pos, 0);
    // the sequence stands still while a counter is zero
    tri.linear_counter = 0;
    tri.clock_timer();
    assert_eq!(tri.sequence_pos, 0);
    assert_eq!(tri._get_output(), 0);
}

#[test]
fn envelope_decays_and_loops() {
    let mut pulse = Pulse::new();
    pulse.envelope_period = 1;
    pulse.envelope_start = true;
    pulse.clock_envelope();
    assert_eq!((pulse.envelope_counter, pulse.envelope_divider), (15, 1));
    assert!(!pulse.envelope_start);
    pulse.clock_envelope();
    assert_eq!((pulse.envelope_counter, pulse.envelope_divider), (15, 0));
    pulse.clock_envelope();
    assert_eq!((pulse.envelope_counter, pulse.envelope_divider), (14, 1));
    pulse.envelope_counter = 0;
    pulse.envelope_divider = 0;
    pulse.clock_envelope();
    assert_eq!(pulse.envelope_counter, 0);
    pulse.envelope_loop = true;
    pulse.envelope_divider = 0;
    pulse.clock_envelope();
    assert_eq!(pulse.envelope_counter, 15);

    let mut noise = Noise::new();
    noise.envelope_start = true;
    noise.envelope_period = 3;
    noise.clock_envelope();
    assert_eq!((noise.envelope_counter, noise.envelope_divider), (15, 3));
}

#[test]
fn noise_output() {
    let mut noise = Noise::new();
    noise.enabled = true;
    noise.length_counter = 1;
    noise.constant_volume = true;
    noise.volume = 11;
    // bit 0 of the register set: silent
    assert_eq!(noise._get_output(), 0);
    noise.shift_register = 0x4000;
    assert_eq!(noise._get_output(), 11);
    noise.constant_volume = false;
    noise.envelope_counter = 6;
    assert_eq!(noise._get_output(), 6);
}

#[test]
fn four_step_sequence_raises_interrupt() {
    let mut apu = Apu::new();
    apu.write_register(0x4015, 0x01);
    apu.write_register(0x4003, 0x00); // length 10
    // the counter steps on cycles 0, 7457, 14914 and 22371
    steps(&mut apu, 1);
    assert_eq!(apu.frame_sequence, 1);
    assert_eq!(apu.pulse1.length_counter, 10);
    steps(&mut apu, 7457);
    assert_eq!(apu.frame_sequence, 2);
    assert_eq!(apu.pulse1.length_counter, 9);
    steps(&mut apu, 7457);
    assert_eq!(apu.frame_sequence, 3);
    assert_eq!(apu.pulse1.length_counter, 9);
    assert!(!apu.frame_interrupt());
    steps(&mut apu, 7457);
    assert_eq!(apu.frame_sequence, 0);
    assert_eq!(apu.pulse1.length_counter, 8);
    assert!(apu.frame_interrupt());
    // reading the status reports and acknowledges it
    assert_eq!(apu.read_register(0x4015) & 0x40, 0x40);
    assert_eq!(apu.read_register(0x4015) & 0x40, 0);
}

#[test]
fn five_step_sequence_has_long_last_step() {
    let mut apu = Apu::new();
    apu.write_register(0x4017, 0x80);
    apu.write_register(0x4015, 0x01);
    apu.write_register(0x4003, 0x00); // length 10
    steps(&mut apu, 1 + 7457);
    assert_eq!(apu.pulse1.length_counter, 9);
    steps(&mut apu, 7457);
    steps(&mut apu, 7457);
    // position 3 is idle
    assert_eq!(apu.frame_sequence, 4);
    assert_eq!(apu.pulse1.length_counter, 9);
    assert!(!apu.frame_interrupt());
    steps(&mut apu, 7457);
    assert_eq!(apu.frame_sequence, 0);
    assert_eq!(apu.pulse1.length_counter, 8);
    assert!(!apu.frame_interrupt());
}

#[test]
fn inhibit_suppresses_frame_interrupt() {
    let mut apu = Apu::new();
    apu.write_register(0x4017, 0x40);
    steps(&mut apu, 4 * 7457);
    assert!(!apu.frame_interrupt());
    // setting inhibit acknowledges a raised interrupt
    let mut raised = Apu::new();
    steps(&mut raised, 3 * 7457 + 1);
    assert!(raised.frame_interrupt());
    raised.write_register(0x4017, 0x40);
    assert!(!raised.frame_interrupt());
}

#[test]
fn linear_counter_reloads_and_counts() {
    let mut apu = Apu::new();
    apu.write_register(0x4008, 0x03);
    apu.write_register(0x400B, 0x00);
    apu.clock_linear_counter();
    assert_eq!(apu.triangle.linear_counter, 3);
    apu.triangle.linear_counter_reload = false;
    apu.clock_linear_counter();
    assert_eq!(apu.triangle.linear_counter, 2);
    apu.clock_linear_counter();
    apu.clock_linear_counter();
    apu.clock_linear_counter();
    assert_eq!(apu.triangle.linear_counter, 0);
}

#[test]
fn clock_helpers() {
    let mut apu = Apu::new();
    apu.write_register(0x4015, 0x0F);
    apu.write_register(0x4003, 0x18); // index 3: 2
    apu.write_register(0x400F, 0x18);
    apu.clock_length_counters();
    assert_eq!(apu.pulse1.length_counter, 1);
    apu.clock_length_counters();
    apu.clock_length_counters();
    assert_eq!(apu.pulse1.length_counter, 0);
    assert_eq!(apu.noise.length_counter, 0);
    apu.clock_envelopes();
    assert_eq!(apu.pulse1.envelope_counter, 15);
    assert_eq!(apu.noise.envelope_counter, 15);
    // both sweep units are clocked; the first takes one more on the way down
    apu.write_register(0x4001, 0x89);
    apu.write_register(0x4005, 0x89);
    apu.write_register(0x4002, 0x40);
    apu.write_register(0x4006, 0x40);
    apu.clock_sweeps();
    assert_eq!(apu.pulse1.timer_period, 0x40 - 0x20 - 1);
    assert_eq!(apu.pulse2.timer_period, 0x40 - 0x20);
    apu.clock_frame_counter();
    assert_eq!(apu.frame_sequence, 1);
}

#[test]
fn pulse_timers_run_at_half_rate() {
    let mut apu = Apu::new();
    apu.pulse1.timer_period = 100;
    apu.triangle.timer_period = 100;
    apu.pulse1.timer_counter = 50;
    apu.triangle.timer_counter = 50;
    steps(&mut apu, 10);
    assert_eq!(apu.pulse1.timer_counter, 45);
    assert_eq!(apu.triangle.timer_counter, 40);
    assert_eq!(apu.cycles, 10);
    apu.step_many(6);
    assert_eq!(apu.pulse1.timer_counter, 42);
    assert_eq!(apu.triangle.timer_counter, 34);
}

#[test]
fn reset_restores_power_on() {
    let mut apu = Apu::new();
    apu.write_register(0x4015, 0x1F);
    apu.write_register(0x4003, 0x08);
    apu.write_register(0x4011, 0x40);
    steps(&mut apu, 100);
    apu.reset();
    assert_eq!(apu.cycles, 0);
    assert_eq!(apu.read_register(0x4015), 0);
    assert_eq!(apu.channel_outputs(), (0, 0, 0, 0, 0));
    assert_eq!(apu.noise.shift_register, 1);
}

#[test]
fn sweep_raises_the_period_until_it_mutes() {
    let mut apu = Apu::new();
    apu.write_register(0x4015, 0x01);
    apu.write_register(0x4000, 0x7F); // duty 1, constant volume 15
    apu.write_register(0x4001, 0x81); // enabled, every clock, up, shift 1
    apu.write_register(0x4002, 0x00);
    apu.write_register(0x4003, 0x09); // period $100, length 254
    apu.pulse1.sequence_pos = 1;
    assert_eq!(apu.pulse1._get_output(), 15);
    let mut periods = Vec::new();
    for _ in 0..7 {
        apu.pulse1.clock_sweep();
        periods.push(apu.pulse1.timer_period);
    }
    assert_eq!(periods, vec![0x180, 0x240, 0x360, 0x510, 0x798, 0x798, 0x798]);
    // the next target would not fit 11 bits: the channel is silent
    assert_eq!(apu.pulse1.target_period(), 0x798 + 0x3CC);
    assert_eq!(apu.pulse1._get_output(), 0);
}

#[test]
fn sweep_divider_and_reload() {
    let mut pulse = Pulse::new();
    pulse.timer_period = 0x100;
    pulse.write(1, 0xA1); // enabled, period 2, up, shift 1
    assert!(pulse.sweep_reload);
    pulse.clock_sweep(); // the divider had run out: the period moves
    assert_eq!((pulse.timer_period, pulse._sweep_counter, pulse.sweep_reload), (0x180, 2, false));
    pulse.clock_sweep();
    pulse.clock_sweep();
    assert_eq!((pulse.timer_period, pulse._sweep_counter), (0x180, 0));
    pulse.clock_sweep();
    assert_eq!((pulse.timer_period, pulse._sweep_counter), (0x240, 2));
    // a write asks for a reload, which comes without moving the period
    pulse.write(1, 0xB1);
    pulse.clock_sweep();
    assert_eq!((pulse.timer_period, pulse._sweep_counter), (0x240, 3));
}

#[test]
fn sweep_needs_enable_and_shift() {
    let mut pulse = Pulse::new();
    pulse.timer_period = 0x100;
    pulse.write(1, 0x01); // disabled
    pulse.clock_sweep();
    assert_eq!(pulse.timer_period, 0x100);
    pulse.write(1, 0x80); // shift 0
    pulse.clock_sweep();
    assert_eq!(pulse.timer_period, 0x100);
    // a period under 8 is silent and does not move
    pulse.timer_period = 7;
    pulse.write(1, 0x81);
    pulse.clock_sweep();
    assert_eq!(pulse.timer_period, 7);
    // sweeping down stops at zero
    let mut low = Pulse::new();
    low.ones_complement = true;
    low.timer_period = 8;
    low.write(1, 0x88 | 0x07);
    assert_eq!(low.target_period(), 7);
    low.sweep_shift = 0;
    assert_eq!(low.target_period(), 0);
}

#[test]
fn half_frames_clock_the_sweep() {
    let mut apu = Apu::new();
    apu.write_register(0x4005, 0x81);
    apu.write_register(0x4006, 0x00);
    apu.write_register(0x4007, 0x01); // period $100
    // quarter frame on cycle 0, half frame on cycle 7457
    steps(&mut apu, 7457);
    assert_eq!(apu.pulse2.timer_period, 0x100);
    steps(&mut apu, 1);
    assert_eq!(apu.pulse2.timer_period, 0x180);
    steps(&mut apu, 2 * 7457);
    assert_eq!(apu.pulse2.timer_period, 0x240);
}
