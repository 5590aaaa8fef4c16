//! The audio unit: two pulse channels, a triangle, a noise generator and the
//! delta channel's registers, driven by a frame counter.

use vstd::prelude::*;
use crate::bits::bit;

verus! {

/// Length counter loads, indexed by the top five bits of a length write.
pub const LENGTH_TABLE: [u8; 32] = [
    10, 254, 20, 2, 40, 4, 80, 6, 160, 8, 60, 10, 14, 12, 26, 14,
    12, 16, 24, 18, 48, 20, 96, 22, 192, 24, 72, 26, 16, 28, 32, 30,
];

/// Noise timer periods, indexed by the low four bits of the period write.
pub const NOISE_PERIOD_TABLE: [u16; 16] = [
    4, 8, 16, 32, 64, 96, 128, 160, 202, 254, 380, 508, 762, 1016, 2034, 4068,
];

/// The four pulse waveforms, eight steps each, one row after the other.
pub const DUTY_TABLE: [u8; 32] = [
    0, 1, 0, 0, 0, 0, 0, 0,
    0, 1, 1, 0, 0, 0, 0, 0,
    0, 1, 1, 1, 1, 0, 0, 0,
    1, 0, 0, 1, 1, 1, 1, 1,
];

/// The triangle waveform: 15 down to 0, then 0 up to 15.
pub const TRIANGLE_TABLE: [u8; 32] = [
    15, 14, 13, 12, 11, 10, 9, 8, 7, 6, 5, 4, 3, 2, 1, 0,
    0, 1, 2, 3, 4, 5, 6, 7, 8, 9, 10, 11, 12, 13, 14, 15,
];

/// CPU cycles between two steps of the frame counter.
pub const FRAME_STEP_CYCLES: u64 = 7457;

/// The length a length write loads: the table entry for its top five bits.
pub open spec fn length_load(value: u8) -> u8 {
    LENGTH_TABLE@[(value / 8) as int]
}

/// A timer period with its low byte replaced.
pub open spec fn with_timer_low(period: u16, value: u8) -> u16 {
    ((period / 0x100) * 0x100 + value) as u16
}

/// A timer period with its high three bits replaced.
pub open spec fn with_timer_high(period: u16, value: u8) -> u16 {
    (period % 0x100 + (value % 8) * 0x100) as u16
}

/// A counter that stops at zero, one step on.
pub open spec fn count_down(counter: u8) -> u8 {
    if counter > 0 {
        (counter - 1) as u8
    } else {
        0
    }
}

/// What a shift count divides by: two to its power, the count taken
/// modulo 8.
pub open spec fn shift_weight(shift: u8) -> int {
    let count = shift % 8;
    if count == 0 {
        1
    } else if count == 1 {
        2
    } else if count == 2 {
        4
    } else if count == 3 {
        8
    } else if count == 4 {
        16
    } else if count == 5 {
        32
    } else if count == 6 {
        64
    } else {
        128
    }
}

/// An envelope generator: the start flag, the decay level and the divider.
pub struct Envelope {
    pub start: bool,
    pub counter: u8,
    pub divider: u8,
}

/// One clock of an envelope. A pending start reloads level 15 and the
/// divider. Otherwise the divider counts down; when it was already zero it
/// reloads, and the level drops by one, or wraps from 0 to 15 in loop mode.
pub open spec fn envelope_clock(e: Envelope, period: u8, repeat: bool) -> Envelope {
    if e.start {
        Envelope { start: false, counter: 15, divider: period }
    } else if e.divider > 0 {
        Envelope { divider: (e.divider - 1) as u8, ..e }
    } else {
        Envelope {
            divider: period,
            counter: if e.counter > 0 {
                (e.counter - 1) as u8
            } else if repeat {
                15
            } else {
                0
            },
            ..e
        }
    }
}

/// The noise shift register one step on. The feedback is bit 0 xor bit 1, or
/// bit 0 xor bit 6 in short mode; the register moves right and the feedback
/// enters at bit 14.
pub open spec fn lfsr_next(register: u16, short_mode: bool) -> u16 {
    let tap: u16 = if short_mode { (register / 64) % 2 } else { (register / 2) % 2 };
    let feedback: u16 = ((register % 2 + tap) % 2) as u16;
    ((register % 0x8000) / 2 + feedback * 0x4000) as u16
}

/// The noise shift register after `n` steps.
pub open spec fn lfsr_iterate(register: u16, short_mode: bool, n: nat) -> u16
    decreases n,
{
    if n == 0 {
        register
    } else {
        lfsr_iterate(lfsr_next(register, short_mode), short_mode, (n - 1) as nat)
    }
}

/// The shift register stays within its fifteen bits, and once it holds a
/// one it never runs empty, in either mode.
pub proof fn lemma_lfsr_never_stalls(register: u16, short_mode: bool, n: nat)
    requires
        0 < register <= 0x7FFF,
    ensures
        0 < lfsr_iterate(register, short_mode, n) <= 0x7FFF,
    decreases n,
{
    if n > 0 {
        lemma_lfsr_never_stalls(lfsr_next(register, short_mode), short_mode, (n - 1) as nat);
    }
}

/// Running the shift register `a + b` steps is running it `a` steps and
/// then `b` steps.
pub proof fn lemma_lfsr_steps_compose(register: u16, short_mode: bool, a: nat, b: nat)
    ensures
        lfsr_iterate(register, short_mode, a + b) == lfsr_iterate(
            lfsr_iterate(register, short_mode, a),
            short_mode,
            b,
        ),
    decreases a,
{
    if a > 0 {
        lemma_lfsr_steps_compose(lfsr_next(register, short_mode), short_mode, (a - 1) as nat, b);
    }
}

/// Two to the power `k`.
pub open spec fn doubling(k: nat) -> nat
    decreases k,
{
    if k == 0 {
        1
    } else {
        2 * doubling((k - 1) as nat)
    }
}

/// The shift register after `2^k` steps, found by doubling.
pub open spec fn lfsr_doubled(register: u16, short_mode: bool, k: nat) -> u16
    decreases k,
{
    if k == 0 {
        lfsr_next(register, short_mode)
    } else {
        lfsr_doubled(lfsr_doubled(register, short_mode, (k - 1) as nat), short_mode, (k - 1) as nat)
    }
}

/// The shift register after `2^k + ... + 2 + 1` steps.
pub open spec fn lfsr_ladder(register: u16, short_mode: bool, k: nat) -> u16
    decreases k,
{
    if k == 0 {
        lfsr_doubled(register, short_mode, 0)
    } else {
        lfsr_ladder(lfsr_doubled(register, short_mode, k), short_mode, (k - 1) as nat)
    }
}

proof fn lemma_lfsr_doubled(register: u16, short_mode: bool, k: nat)
    ensures
        lfsr_doubled(register, short_mode, k) == lfsr_iterate(register, short_mode, doubling(k)),
    decreases k,
{
    if k == 0 {
        assert(lfsr_iterate(lfsr_next(register, short_mode), short_mode, 0) == lfsr_next(
            register,
            short_mode,
        ));
    } else {
        let j = (k - 1) as nat;
        lemma_lfsr_doubled(register, short_mode, j);
        lemma_lfsr_doubled(lfsr_doubled(register, short_mode, j), short_mode, j);
        lemma_lfsr_steps_compose(register, short_mode, doubling(j), doubling(j));
    }
}

proof fn lemma_lfsr_ladder(register: u16, short_mode: bool, k: nat)
    ensures
        lfsr_ladder(register, short_mode, k) == lfsr_iterate(
            register,
            short_mode,
            (doubling(k + 1) - 1) as nat,
        ),
        doubling(k + 1) >= 2,
    decreases k,
{
    lemma_lfsr_doubled(register, short_mode, k);
    if k == 0 {
        assert(doubling(1) == 2 * doubling(0));
    } else {
        let j = (k - 1) as nat;
        lemma_lfsr_ladder(lfsr_doubled(register, short_mode, k), short_mode, j);
        assert(doubling(k + 1) == 2 * doubling(k));
        lemma_lfsr_steps_compose(register, short_mode, doubling(k), (doubling(k) - 1) as nat);
    }
}

proof fn lemma_doubling_15()
    ensures
        doubling(0) == 1,
        doubling(3) == 8,
        doubling(5) == 32,
        doubling(6) == 64,
        doubling(7) == 128,
        doubling(9) == 512,
        doubling(10) == 1024,
        doubling(12) == 4096,
        doubling(15) == 32768,
{
    assert(doubling(0) == 1);
    assert(doubling(1) == 2);
    assert(doubling(2) == 4);
    assert(doubling(3) == 8);
    assert(doubling(4) == 16);
    assert(doubling(5) == 32);
    assert(doubling(6) == 64);
    assert(doubling(7) == 128);
    assert(doubling(8) == 256);
    assert(doubling(9) == 512);
    assert(doubling(10) == 1024);
    assert(doubling(11) == 2048);
    assert(doubling(12) == 4096);
    assert(doubling(13) == 8192);
    assert(doubling(14) == 16384);
}

/// The period of the noise generator. Started from 1, the shift register
/// is back at 1 after 32767 steps in long mode, which is every state it can
/// take but zero, and after 93 steps in short mode.
pub proof fn lemma_lfsr_period()
    ensures
        lfsr_iterate(1, false, 32767) == 1,
        lfsr_iterate(1, true, 93) == 1,
{
    assert(lfsr_ladder(1, false, 14) == 1) by (bit_vector);
    lemma_lfsr_ladder(1, false, 14);
    lemma_doubling_15();
    assert(lfsr_iterate(1, true, 93) == 1) by (bit_vector);
}

/// Whether the shift register, started from 1, is back at 1 after `k`
/// steps.
pub open spec fn lfsr_returns(short_mode: bool, k: nat) -> bool {
    lfsr_iterate(1, short_mode, k) == 1
}

/// A register that returns after `d` steps returns after every multiple
/// of `d`.
proof fn lemma_returns_multiple(short_mode: bool, d: nat, q: nat)
    requires
        lfsr_returns(short_mode, d),
    ensures
        lfsr_returns(short_mode, d * q),
    decreases q,
{
    if q > 0 {
        lemma_returns_multiple(short_mode, d, (q - 1) as nat);
        assert(d * q == d * (q - 1) + d) by (nonlinear_arith);
        lemma_lfsr_steps_compose(1, short_mode, d * ((q - 1) as nat), d);
    } else {
        assert(d * q == 0) by (nonlinear_arith)
            requires
                q == 0,
        ;
    }
}

/// A register that returns after `a` steps and after `b` steps returns
/// after the remainder of `a` by `b`.
proof fn lemma_returns_remainder(short_mode: bool, a: nat, b: nat)
    requires
        lfsr_returns(short_mode, a),
        lfsr_returns(short_mode, b),
        b > 0,
    ensures
        lfsr_returns(short_mode, a % b),
{
    let q = a / b;
    let r = a % b;
    vstd::arithmetic::div_mod::lemma_fundamental_div_mod(a as int, b as int);
    lemma_returns_multiple(short_mode, b, q);
    lemma_lfsr_steps_compose(1, short_mode, b * q, r);
}

/// A register that returns after `a` steps and after `b` steps returns
/// after a common divisor of the two.
proof fn lemma_returns_common_divisor(short_mode: bool, a: nat, b: nat) -> (g: nat)
    requires
        lfsr_returns(short_mode, a),
        lfsr_returns(short_mode, b),
        a > 0,
    ensures
        g > 0,
        lfsr_returns(short_mode, g),
        a % g == 0,
        b % g == 0,
    decreases b,
{
    if b == 0 {
        a
    } else {
        lemma_returns_remainder(short_mode, a, b);
        let g = lemma_returns_common_divisor(short_mode, b, a % b);
        let q = a / b;
        let r = a % b;
        vstd::arithmetic::div_mod::lemma_fundamental_div_mod(a as int, b as int);
        // g divides b and r, hence b * q + r
        vstd::arithmetic::div_mod::lemma_fundamental_div_mod(b as int, g as int);
        vstd::arithmetic::div_mod::lemma_fundamental_div_mod(r as int, g as int);
        let whole = (b / g) * q + r / g;
        assert(a == g * whole) by (nonlinear_arith)
            requires
                a == b * q + r,
                b == g * (b / g),
                r == g * (r / g),
                whole == (b / g) * q + r / g,
        ;
        vstd::arithmetic::div_mod::lemma_mod_multiples_basic(whole as int, g as int);
        assert(a % g == 0) by {
            assert(g * whole == whole * g) by (nonlinear_arith);
        }
        g
    }
}

/// A register that returns after a divisor of `m` steps returns after `m`
/// steps.
proof fn lemma_returns_at_multiple(short_mode: bool, g: nat, m: nat)
    requires
        g > 0,
        lfsr_returns(short_mode, g),
        m % g == 0,
    ensures
        lfsr_returns(short_mode, m),
{
    vstd::arithmetic::div_mod::lemma_fundamental_div_mod(m as int, g as int);
    lemma_returns_multiple(short_mode, g, m / g);
}

proof fn lemma_divisors(g: u16)
    by (bit_vector)
    requires
        g != 0,
    ensures
        g < 32767 && 32767u16 % g == 0 ==> 217u16 % g == 0 || 1057u16 % g == 0 || 4681u16 % g == 0,
        g < 93 && 93u16 % g == 0 ==> 3u16 % g == 0 || 31u16 % g == 0,
{
}

/// The register is not back at 1 after 217, 1057 or 4681 steps in long
/// mode, nor after 3 or 31 steps in short mode: the numbers of steps that
/// every shorter period would have to divide.
proof fn lemma_no_early_return()
    ensures
        !lfsr_returns(false, 217),
        !lfsr_returns(false, 1057),
        !lfsr_returns(false, 4681),
        !lfsr_returns(true, 3),
        !lfsr_returns(true, 31),
{
    lemma_doubling_15();
    // 217 = 128 + 64 + 16 + 8 + 1
    let a1 = lfsr_doubled(1, false, 7);
    let a2 = lfsr_doubled(a1, false, 6);
    let a3 = lfsr_doubled(a2, false, 4);
    let a4 = lfsr_doubled(a3, false, 3);
    let a5 = lfsr_doubled(a4, false, 0);
    assert(lfsr_doubled(
        lfsr_doubled(lfsr_doubled(lfsr_doubled(lfsr_doubled(1, false, 7), false, 6), false, 4), false, 3),
        false,
        0,
    ) != 1) by (bit_vector);
    lemma_lfsr_doubled(1, false, 7);
    lemma_lfsr_doubled(a1, false, 6);
    lemma_lfsr_doubled(a2, false, 4);
    lemma_lfsr_doubled(a3, false, 3);
    lemma_lfsr_doubled(a4, false, 0);
    lemma_lfsr_steps_compose(1, false, 128, 64);
    lemma_lfsr_steps_compose(1, false, 192, 16);
    lemma_lfsr_steps_compose(1, false, 208, 8);
    lemma_lfsr_steps_compose(1, false, 216, 1);
    // 1057 = 1024 + 32 + 1
    let b1 = lfsr_doubled(1, false, 10);
    let b2 = lfsr_doubled(b1, false, 5);
    assert(lfsr_doubled(lfsr_doubled(lfsr_doubled(1, false, 10), false, 5), false, 0) != 1)
        by (bit_vector);
    lemma_lfsr_doubled(1, false, 10);
    lemma_lfsr_doubled(b1, false, 5);
    lemma_lfsr_doubled(b2, false, 0);
    lemma_lfsr_steps_compose(1, false, 1024, 32);
    lemma_lfsr_steps_compose(1, false, 1056, 1);
    // 4681 = 4096 + 512 + 64 + 8 + 1
    let c1 = lfsr_doubled(1, false, 12);
    let c2 = lfsr_doubled(c1, false, 9);
    let c3 = lfsr_doubled(c2, false, 6);
    let c4 = lfsr_doubled(c3, false, 3);
    assert(lfsr_doubled(
        lfsr_doubled(lfsr_doubled(lfsr_doubled(lfsr_doubled(1, false, 12), false, 9), false, 6), false, 3),
        false,
        0,
    ) != 1) by (bit_vector);
    lemma_lfsr_doubled(1, false, 12);
    lemma_lfsr_doubled(c1, false, 9);
    lemma_lfsr_doubled(c2, false, 6);
    lemma_lfsr_doubled(c3, false, 3);
    lemma_lfsr_doubled(c4, false, 0);
    lemma_lfsr_steps_compose(1, false, 4096, 512);
    lemma_lfsr_steps_compose(1, false, 4608, 64);
    lemma_lfsr_steps_compose(1, false, 4672, 8);
    lemma_lfsr_steps_compose(1, false, 4680, 1);
    assert(lfsr_iterate(1, true, 3) != 1) by (bit_vector);
    assert(lfsr_iterate(1, true, 31) != 1) by (bit_vector);
}

/// The period of the noise generator is exact. Started from 1, the shift
/// register is not back at 1 before step 32767 in long mode, nor before
/// step 93 in short mode.
pub proof fn lemma_lfsr_period_is_least(short_mode: bool, k: nat)
    requires
        0 < k,
        k < (if short_mode { 93nat } else { 32767nat }),
    ensures
        lfsr_iterate(1, short_mode, k) != 1,
{
    if lfsr_returns(short_mode, k) {
        lemma_lfsr_period();
        lemma_no_early_return();
        let period: nat = if short_mode { 93 } else { 32767 };
        let g = lemma_returns_common_divisor(short_mode, k, period);
        // a divisor of k is no larger than k
        if g > k {
            vstd::arithmetic::div_mod::lemma_small_mod(k, g);
        }
        lemma_divisors(g as u16);
        if short_mode {
            if 3nat % g == 0 {
                lemma_returns_at_multiple(true, g, 3);
            } else {
                lemma_returns_at_multiple(true, g, 31);
            }
        } else {
            if 217nat % g == 0 {
                lemma_returns_at_multiple(false, g, 217);
            } else if 1057nat % g == 0 {
                lemma_returns_at_multiple(false, g, 1057);
            } else {
                lemma_returns_at_multiple(false, g, 4681);
            }
        }
    }
}

pub struct Pulse {
    pub enabled: bool,
    pub duty: u8,
    pub volume: u8,
    pub constant_volume: bool,
    pub envelope_loop: bool,
    pub envelope_period: u8,
    pub envelope_counter: u8,
    pub envelope_divider: u8,
    pub envelope_start: bool,
    pub sweep_enabled: bool,
    pub sweep_period: u8,
    pub sweep_negate: bool,
    pub sweep_shift: u8,
    pub _sweep_counter: u8,
    /// Whether the sweep divider reloads at its next clock.
    pub sweep_reload: bool,
    /// Whether a downward sweep takes one more than the shifted period, as
    /// the first pulse channel does.
    pub ones_complement: bool,
    pub timer_period: u16,
    pub timer_counter: u16,
    pub length_counter: u8,
    pub sequence_pos: u8,
}

impl Pulse {
    /// A silent channel with every register clear.
    pub open spec fn spec_new() -> Pulse {
        Pulse {
            enabled: false,
            duty: 0,
            volume: 0,
            constant_volume: false,
            envelope_loop: false,
            envelope_period: 0,
            envelope_counter: 0,
            envelope_divider: 0,
            envelope_start: false,
            sweep_enabled: false,
            sweep_period: 0,
            sweep_negate: false,
            sweep_shift: 0,
            _sweep_counter: 0,
            sweep_reload: false,
            ones_complement: false,
            timer_period: 0,
            timer_counter: 0,
            length_counter: 0,
            sequence_pos: 0,
        }
    }

    /// The channel's length counter.
    pub open spec fn spec_length(self) -> u8 {
        self.length_counter
    }

    /// The channel after one timer clock: the timer counts down, and on
    /// reaching zero reloads and moves the waveform one of its 8 steps on.
    pub open spec fn spec_clock_timer(self) -> Pulse {
        if self.timer_counter == 0 {
            Pulse {
                timer_counter: self.timer_period,
                sequence_pos: ((self.sequence_pos + 1) % 8) as u8,
                ..self
            }
        } else {
            Pulse { timer_counter: (self.timer_counter - 1) as u16, ..self }
        }
    }

    /// What the sweep unit would change the period by: the period shifted
    /// right by the shift count.
    pub open spec fn sweep_change(self) -> int {
        self.timer_period as int / shift_weight(self.sweep_shift)
    }

    /// The period that the sweep unit aims at: the period plus the change,
    /// or, sweeping down, minus the change, and one less on the first
    /// channel, but never below zero.
    pub open spec fn sweep_target(self) -> int {
        if self.sweep_negate {
            let down = self.timer_period - self.sweep_change() - if self.ones_complement {
                1int
            } else {
                0int
            };
            if down < 0 { 0 } else { down }
        } else {
            self.timer_period + self.sweep_change()
        }
    }

    /// Whether the sweep unit silences the channel: the period is under 8,
    /// or the target period does not fit the timer's 11 bits.
    pub open spec fn sweep_muting(self) -> bool {
        self.timer_period < 8 || self.sweep_target() > 0x7FF
    }

    /// The channel after one sweep clock. If the divider has run out and
    /// the sweep is enabled with a shift count other than zero and does not
    /// silence the channel, the period moves to the target. Then the
    /// divider reloads from the sweep period if it had run out or a reload
    /// was asked for, and else counts down.
    pub open spec fn spec_clock_sweep(self) -> Pulse {
        Pulse {
            timer_period: if self._sweep_counter == 0 && self.sweep_enabled && self.sweep_shift % 8
                != 0 && !self.sweep_muting() {
                self.sweep_target() as u16
            } else {
                self.timer_period
            },
            _sweep_counter: if self._sweep_counter == 0 || self.sweep_reload {
                self.sweep_period
            } else {
                (self._sweep_counter - 1) as u8
            },
            sweep_reload: false,
            ..self
        }
    }

    /// The channel's level, 0 to 15. It is silent while disabled, while its
    /// length counter is zero, while the sweep unit silences it and on the
    /// low steps of its waveform; else it plays the constant volume or the
    /// envelope level.
    pub open spec fn spec_output(self) -> u8 {
        if !self.enabled || self.length_counter == 0 || self.sweep_muting() {
            0
        } else if DUTY_TABLE@[(self.duty % 4) * 8 + self.sequence_pos % 8] == 0 {
            0
        } else if self.constant_volume {
            self.volume
        } else {
            self.envelope_counter
        }
    }

    /// The channel's envelope generator.
    pub open spec fn spec_envelope(self) -> Envelope {
        Envelope {
            start: self.envelope_start,
            counter: self.envelope_counter,
            divider: self.envelope_divider,
        }
    }

    /// The channel after one envelope clock. See [`envelope_clock`].
    pub open spec fn spec_clock_envelope(self) -> Pulse {
        let e = envelope_clock(self.spec_envelope(), self.envelope_period, self.envelope_loop);
        Pulse {
            envelope_start: e.start,
            envelope_counter: e.counter,
            envelope_divider: e.divider,
            ..self
        }
    }

    /// The channel after one length clock.
    pub open spec fn spec_clock_length(self) -> Pulse {
        Pulse { length_counter: count_down(self.length_counter), ..self }
    }

    /// The channel after a write to one of its four registers, `register`
    /// being the low two address bits: 0 duty and envelope, 1 sweep, which
    /// also asks the sweep divider to reload, 2 timer low, 3 timer high
    /// with length load and envelope restart.
    pub open spec fn spec_write(self, register: u16, value: u8) -> Pulse {
        if register == 0 {
            Pulse {
                duty: value / 64,
                envelope_loop: bit(value as int, 32),
                constant_volume: bit(value as int, 16),
                volume: value % 16,
                envelope_period: value % 16,
                ..self
            }
        } else if register == 1 {
            Pulse {
                sweep_enabled: value >= 128,
                sweep_period: (value / 16) % 8,
                sweep_negate: bit(value as int, 8),
                sweep_shift: value % 8,
                sweep_reload: true,
                ..self
            }
        } else if register == 2 {
            Pulse { timer_period: with_timer_low(self.timer_period, value), ..self }
        } else {
            Pulse {
                timer_period: with_timer_high(self.timer_period, value),
                length_counter: length_load(value),
                envelope_start: true,
                ..self
            }
        }
    }

    /// The channel after the enable bit is written: a disabled channel loses
    /// its length.
    pub open spec fn spec_set_enabled(self, enabled: bool) -> Pulse {
        Pulse {
            enabled,
            length_counter: if enabled { self.length_counter } else { 0 },
            ..self
        }
    }

    pub fn new() -> (r: Self)
        ensures
            r == Pulse::spec_new(),
    {
        Pulse {
            enabled: false,
            duty: 0,
            volume: 0,
            constant_volume: false,
            envelope_loop: false,
            envelope_period: 0,
            envelope_counter: 0,
            envelope_divider: 0,
            envelope_start: false,
            sweep_enabled: false,
            sweep_period: 0,
            sweep_negate: false,
            sweep_shift: 0,
            _sweep_counter: 0,
            sweep_reload: false,
            ones_complement: false,
            timer_period: 0,
            timer_counter: 0,
            length_counter: 0,
            sequence_pos: 0,
        }
    }

    /// Clocks the timer. See [`Pulse::spec_clock_timer`].
    pub fn clock_timer(&mut self)
        ensures
            *final(self) == old(self).spec_clock_timer(),
    {
        if self.timer_counter == 0 {
            self.timer_counter = self.timer_period;
            self.sequence_pos = (self.sequence_pos % 8 + 1) % 8;
        } else {
            self.timer_counter -= 1;
        }
    }

    /// The channel's level. See [`Pulse::spec_output`].
    pub fn _get_output(&self) -> (r: u8)
        ensures
            r == self.spec_output(),
    {
        if !self.enabled || self.length_counter == 0 || self.timer_period < 8
            || self.target_period() > 0x7FF {
            return 0;
        }
        let step: u8 = DUTY_TABLE[((self.duty % 4) * 8 + self.sequence_pos % 8) as usize];
        if step == 0 {
            0
        } else if self.constant_volume {
            self.volume
        } else {
            self.envelope_counter
        }
    }

    /// Clocks the envelope. See [`Pulse::spec_clock_envelope`].
    pub fn clock_envelope(&mut self)
        ensures
            *final(self) == old(self).spec_clock_envelope(),
    {
        if self.envelope_start {
            self.envelope_start = false;
            self.envelope_counter = 15;
            self.envelope_divider = self.envelope_period;
        } else if self.envelope_divider > 0 {
            self.envelope_divider -= 1;
        } else {
            self.envelope_divider = self.envelope_period;
            if self.envelope_counter > 0 {
                self.envelope_counter -= 1;
            } else if self.envelope_loop {
                self.envelope_counter = 15;
            }
        }
    }

    /// Clocks the length counter.
    pub fn clock_length(&mut self)
        ensures
            *final(self) == old(self).spec_clock_length(),
    {
        if self.length_counter > 0 {
            self.length_counter -= 1;
        }
    }

    /// The period that the sweep unit aims at. See [`Pulse::sweep_target`].
    pub fn target_period(&self) -> (r: u32)
        ensures
            r == self.sweep_target(),
    {
        let weight: u32 = match self.sweep_shift % 8 {
            0 => 1,
            1 => 2,
            2 => 4,
            3 => 8,
            4 => 16,
            5 => 32,
            6 => 64,
            _ => 128,
        };
        let period: u32 = self.timer_period as u32;
        let change: u32 = period / weight;
        if self.sweep_negate {
            let extra: u32 = if self.ones_complement { 1 } else { 0 };
            if period >= change + extra {
                period - change - extra
            } else {
                0
            }
        } else {
            period + change
        }
    }

    /// Clocks the sweep unit. See [`Pulse::spec_clock_sweep`].
    pub fn clock_sweep(&mut self)
        ensures
            *final(self) == old(self).spec_clock_sweep(),
    {
        let target = self.target_period();
        if self._sweep_counter == 0 && self.sweep_enabled && self.sweep_shift % 8 != 0
            && self.timer_period >= 8 && target <= 0x7FF {
            self.timer_period = target as u16;
        }
        if self._sweep_counter == 0 || self.sweep_reload {
            self._sweep_counter = self.sweep_period;
        } else {
            self._sweep_counter -= 1;
        }
        self.sweep_reload = false;
    }

    /// Writes the enable bit. See [`Pulse::spec_set_enabled`].
    pub fn set_enabled(&mut self, enabled: bool)
        ensures
            *final(self) == old(self).spec_set_enabled(enabled),
    {
        self.enabled = enabled;
        if !enabled {
            self.length_counter = 0;
        }
    }

    /// Writes one of the channel's registers. See [`Pulse::spec_write`].
    pub fn write(&mut self, register: u16, value: u8)
        ensures
            *final(self) == old(self).spec_write(register, value),
    {
        if register == 0 {
            self.duty = value / 64;
            self.envelope_loop = (value / 32) % 2 == 1;
            self.constant_volume = (value / 16) % 2 == 1;
            self.volume = value % 16;
            self.envelope_period = value % 16;
        } else if register == 1 {
            self.sweep_enabled = value >= 128;
            self.sweep_period = (value / 16) % 8;
            self.sweep_negate = (value / 8) % 2 == 1;
            self.sweep_shift = value % 8;
            self.sweep_reload = true;
        } else if register == 2 {
            self.timer_period = (self.timer_period / 0x100) * 0x100 + value as u16;
        } else {
            self.timer_period = self.timer_period % 0x100 + (value as u16 % 8) * 0x100;
            self.length_counter = LENGTH_TABLE[(value / 8) as usize];
            self.envelope_start = true;
        }
    }
}

pub struct Triangle {
    pub enabled: bool,
    pub linear_counter: u8,
    pub linear_counter_period: u8,
    pub linear_counter_reload: bool,
    pub timer_period: u16,
    pub timer_counter: u16,
    pub length_counter: u8,
    pub sequence_pos: u8,
}

impl Triangle {
    /// A silent channel with every register clear.
    pub open spec fn spec_new() -> Triangle {
        Triangle {
            enabled: false,
            linear_counter: 0,
            linear_counter_period: 0,
            linear_counter_reload: false,
            timer_period: 0,
            timer_counter: 0,
            length_counter: 0,
            sequence_pos: 0,
        }
    }

    /// The channel's length counter.
    pub open spec fn spec_length(self) -> u8 {
        self.length_counter
    }

    /// The channel after one timer clock: the timer counts down, and on
    /// reaching zero reloads and, while both the linear and the length
    /// counter run, moves the waveform one of its 32 steps on.
    pub open spec fn spec_clock_timer(self) -> Triangle {
        if self.timer_counter == 0 {
            Triangle {
                timer_counter: self.timer_period,
                sequence_pos: if self.linear_counter > 0 && self.length_counter > 0 {
                    ((self.sequence_pos + 1) % 32) as u8
                } else {
                    self.sequence_pos
                },
                ..self
            }
        } else {
            Triangle { timer_counter: (self.timer_counter - 1) as u16, ..self }
        }
    }

    /// The channel's level, 0 to 15: silent while disabled or while either
    /// counter is zero, else the current step of the waveform.
    pub open spec fn spec_output(self) -> u8 {
        if !self.enabled || self.length_counter == 0 || self.linear_counter == 0 {
            0
        } else {
            TRIANGLE_TABLE@[(self.sequence_pos % 32) as int]
        }
    }

    /// The channel after one linear counter clock: a pending reload loads
    /// the period, else the counter runs down to zero.
    pub open spec fn spec_clock_linear(self) -> Triangle {
        Triangle {
            linear_counter: if self.linear_counter_reload {
                self.linear_counter_period
            } else {
                count_down(self.linear_counter)
            },
            ..self
        }
    }

    /// The channel after one length clock.
    pub open spec fn spec_clock_length(self) -> Triangle {
        Triangle { length_counter: count_down(self.length_counter), ..self }
    }

    /// The channel after a write to one of its registers: 0 linear counter
    /// period, 2 timer low, 3 timer high with length load and linear reload.
    /// Register 1 does not exist.
    pub open spec fn spec_write(self, register: u16, value: u8) -> Triangle {
        if register == 0 {
            Triangle { linear_counter_period: value % 128, ..self }
        } else if register == 2 {
            Triangle { timer_period: with_timer_low(self.timer_period, value), ..self }
        } else if register == 3 {
            Triangle {
                timer_period: with_timer_high(self.timer_period, value),
                length_counter: length_load(value),
                linear_counter_reload: true,
                ..self
            }
        } else {
            self
        }
    }

    /// The channel after the enable bit is written.
    pub open spec fn spec_set_enabled(self, enabled: bool) -> Triangle {
        Triangle {
            enabled,
            length_counter: if enabled { self.length_counter } else { 0 },
            ..self
        }
    }

    pub fn new() -> (r: Self)
        ensures
            r == Triangle::spec_new(),
    {
        Triangle {
            enabled: false,
            linear_counter: 0,
            linear_counter_period: 0,
            linear_counter_reload: false,
            timer_period: 0,
            timer_counter: 0,
            length_counter: 0,
            sequence_pos: 0,
        }
    }

    /// Clocks the timer. See [`Triangle::spec_clock_timer`].
    pub fn clock_timer(&mut self)
        ensures
            *final(self) == old(self).spec_clock_timer(),
    {
        if self.timer_counter == 0 {
            self.timer_counter = self.timer_period;
            if self.linear_counter > 0 && self.length_counter > 0 {
                self.sequence_pos = (self.sequence_pos % 32 + 1) % 32;
            }
        } else {
            self.timer_counter -= 1;
        }
    }

    /// The channel's level. See [`Triangle::spec_output`].
    pub fn _get_output(&self) -> (r: u8)
        ensures
            r == self.spec_output(),
    {
        if !self.enabled || self.length_counter == 0 || self.linear_counter == 0 {
            return 0;
        }
        TRIANGLE_TABLE[(self.sequence_pos % 32) as usize]
    }

    /// Clocks the linear counter. See [`Triangle::spec_clock_linear`].
    pub fn clock_linear(&mut self)
        ensures
            *final(self) == old(self).spec_clock_linear(),
    {
        if self.linear_counter_reload {
            self.linear_counter = self.linear_counter_period;
        } else if self.linear_counter > 0 {
            self.linear_counter -= 1;
        }
    }

    /// Clocks the length counter.
    pub fn clock_length(&mut self)
        ensures
            *final(self) == old(self).spec_clock_length(),
    {
        if self.length_counter > 0 {
            self.length_counter -= 1;
        }
    }

    /// Writes the enable bit. See [`Triangle::spec_set_enabled`].
    pub fn set_enabled(&mut self, enabled: bool)
        ensures
            *final(self) == old(self).spec_set_enabled(enabled),
    {
        self.enabled = enabled;
        if !enabled {
            self.length_counter = 0;
        }
    }

    /// Writes one of the channel's registers. See [`Triangle::spec_write`].
    pub fn write(&mut self, register: u16, value: u8)
        ensures
            *final(self) == old(self).spec_write(register, value),
    {
        if register == 0 {
            self.linear_counter_period = value % 128;
        } else if register == 2 {
            self.timer_period = (self.timer_period / 0x100) * 0x100 + value as u16;
        } else if register == 3 {
            self.timer_period = self.timer_period % 0x100 + (value as u16 % 8) * 0x100;
            self.length_counter = LENGTH_TABLE[(value / 8) as usize];
            self.linear_counter_reload = true;
        }
    }
}

pub struct Noise {
    pub enabled: bool,
    pub mode: bool,
    pub volume: u8,
    pub constant_volume: bool,
    pub envelope_loop: bool,
    pub envelope_period: u8,
    pub envelope_counter: u8,
    pub envelope_divider: u8,
    pub envelope_start: bool,
    pub timer_period: u16,
    pub timer_counter: u16,
    pub length_counter: u8,
    pub shift_register: u16,
}

impl Noise {
    /// A silent channel with every register clear and the shift register
    /// holding 1.
    pub open spec fn spec_new() -> Noise {
        Noise {
            enabled: false,
            mode: false,
            volume: 0,
            constant_volume: false,
            envelope_loop: false,
            envelope_period: 0,
            envelope_counter: 0,
            envelope_divider: 0,
            envelope_start: false,
            timer_period: 0,
            timer_counter: 0,
            length_counter: 0,
            shift_register: 1,
        }
    }

    /// The channel's length counter.
    pub open spec fn spec_length(self) -> u8 {
        self.length_counter
    }

    /// The channel after one timer clock: the timer counts down, and on
    /// reaching zero reloads and steps the shift register by [`lfsr_next`].
    pub open spec fn spec_clock_timer(self) -> Noise {
        if self.timer_counter == 0 {
            Noise {
                timer_counter: self.timer_period,
                shift_register: lfsr_next(self.shift_register, self.mode),
                ..self
            }
        } else {
            Noise { timer_counter: (self.timer_counter - 1) as u16, ..self }
        }
    }

    /// The channel's level, 0 to 15: silent while disabled, while its length
    /// counter is zero and while bit 0 of the shift register is set; else
    /// the constant volume or the envelope level.
    pub open spec fn spec_output(self) -> u8 {
        if !self.enabled || self.length_counter == 0 || self.shift_register % 2 == 1 {
            0
        } else if self.constant_volume {
            self.volume
        } else {
            self.envelope_counter
        }
    }

    /// The channel's envelope generator.
    pub open spec fn spec_envelope(self) -> Envelope {
        Envelope {
            start: self.envelope_start,
            counter: self.envelope_counter,
            divider: self.envelope_divider,
        }
    }

    /// The channel after one envelope clock. See [`envelope_clock`].
    pub open spec fn spec_clock_envelope(self) -> Noise {
        let e = envelope_clock(self.spec_envelope(), self.envelope_period, self.envelope_loop);
        Noise {
            envelope_start: e.start,
            envelope_counter: e.counter,
            envelope_divider: e.divider,
            ..self
        }
    }

    /// The channel after one length clock.
    pub open spec fn spec_clock_length(self) -> Noise {
        Noise { length_counter: count_down(self.length_counter), ..self }
    }

    /// The channel after a write to one of its registers: 0 envelope,
    /// 2 mode and period, 3 length load with envelope restart. Register 1
    /// does not exist.
    pub open spec fn spec_write(self, register: u16, value: u8) -> Noise {
        if register == 0 {
            Noise {
                envelope_loop: bit(value as int, 32),
                constant_volume: bit(value as int, 16),
                volume: value % 16,
                envelope_period: value % 16,
                ..self
            }
        } else if register == 2 {
            Noise {
                mode: value >= 128,
                timer_period: NOISE_PERIOD_TABLE@[(value % 16) as int],
                ..self
            }
        } else if register == 3 {
            Noise { length_counter: length_load(value), envelope_start: true, ..self }
        } else {
            self
        }
    }

    /// The channel after the enable bit is written.
    pub open spec fn spec_set_enabled(self, enabled: bool) -> Noise {
        Noise {
            enabled,
            length_counter: if enabled { self.length_counter } else { 0 },
            ..self
        }
    }

    pub fn new() -> (r: Self)
        ensures
            r == Noise::spec_new(),
    {
        Noise {
            enabled: false,
            mode: false,
            volume: 0,
            constant_volume: false,
            envelope_loop: false,
            envelope_period: 0,
            envelope_counter: 0,
            envelope_divider: 0,
            envelope_start: false,
            timer_period: 0,
            timer_counter: 0,
            length_counter: 0,
            shift_register: 1,
        }
    }

    /// Clocks the timer. See [`Noise::spec_clock_timer`].
    pub fn clock_timer(&mut self)
        ensures
            *final(self) == old(self).spec_clock_timer(),
    {
        if self.timer_counter == 0 {
            self.timer_counter = self.timer_period;
            let tap: u16 = if self.mode {
                (self.shift_register / 64) % 2
            } else {
                (self.shift_register / 2) % 2
            };
            let feedback: u16 = (self.shift_register % 2 + tap) % 2;
            self.shift_register = (self.shift_register % 0x8000) / 2 + feedback * 0x4000;
        } else {
            self.timer_counter -= 1;
        }
    }

    /// The channel's level. See [`Noise::spec_output`].
    pub fn _get_output(&self) -> (r: u8)
        ensures
            r == self.spec_output(),
    {
        if !self.enabled || self.length_counter == 0 || self.shift_register % 2 == 1 {
            return 0;
        }
        if self.constant_volume {
            self.volume
        } else {
            self.envelope_counter
        }
    }

    /// Clocks the envelope. See [`Noise::spec_clock_envelope`].
    pub fn clock_envelope(&mut self)
        ensures
            *final(self) == old(self).spec_clock_envelope(),
    {
        if self.envelope_start {
            self.envelope_start = false;
            self.envelope_counter = 15;
            self.envelope_divider = self.envelope_period;
        } else if self.envelope_divider > 0 {
            self.envelope_divider -= 1;
        } else {
            self.envelope_divider = self.envelope_period;
            if self.envelope_counter > 0 {
                self.envelope_counter -= 1;
            } else if self.envelope_loop {
                self.envelope_counter = 15;
            }
        }
    }

    /// Clocks the length counter.
    pub fn clock_length(&mut self)
        ensures
            *final(self) == old(self).spec_clock_length(),
    {
        if self.length_counter > 0 {
            self.length_counter -= 1;
        }
    }

    /// Writes the enable bit. See [`Noise::spec_set_enabled`].
    pub fn set_enabled(&mut self, enabled: bool)
        ensures
            *final(self) == old(self).spec_set_enabled(enabled),
    {
        self.enabled = enabled;
        if !enabled {
            self.length_counter = 0;
        }
    }

    /// Writes one of the channel's registers. See [`Noise::spec_write`].
    pub fn write(&mut self, register: u16, value: u8)
        ensures
            *final(self) == old(self).spec_write(register, value),
    {
        if register == 0 {
            self.envelope_loop = (value / 32) % 2 == 1;
            self.constant_volume = (value / 16) % 2 == 1;
            self.volume = value % 16;
            self.envelope_period = value % 16;
        } else if register == 2 {
            self.mode = value >= 128;
            self.timer_period = NOISE_PERIOD_TABLE[(value % 16) as usize];
        } else if register == 3 {
            self.length_counter = LENGTH_TABLE[(value / 8) as usize];
            self.envelope_start = true;
        }
    }
}

pub struct Dmc {
    pub enabled: bool,
    pub rate: u8,
    pub direct_load: u8,
    pub sample_address: u16,
    pub sample_length: u16,
    pub _current_address: u16,
    pub bytes_remaining: u16,
    pub _sample_buffer: Option<u8>,
    pub output_level: u8,
    pub _shift_register: u8,
    pub _bits_remaining: u8,
    pub _silence_flag: bool,
    pub irq_enabled: bool,
    pub loop_flag: bool,
    pub interrupt: bool,
}

impl Dmc {
    /// A silent channel with every register clear.
    pub open spec fn spec_new() -> Dmc {
        Dmc {
            enabled: false,
            rate: 0,
            direct_load: 0,
            sample_address: 0,
            sample_length: 0,
            _current_address: 0,
            bytes_remaining: 0,
            _sample_buffer: None,
            output_level: 0,
            _shift_register: 0,
            _bits_remaining: 0,
            _silence_flag: true,
            irq_enabled: false,
            loop_flag: false,
            interrupt: false,
        }
    }

    /// The channel's level, 0 to 127: the last value loaded directly.
    pub open spec fn spec_output(self) -> u8 {
        self.output_level
    }

    /// The channel after the enable bit is written, which also acknowledges
    /// its interrupt.
    pub open spec fn spec_set_enabled(self, enabled: bool) -> Dmc {
        Dmc { enabled, interrupt: false, ..self }
    }

    /// The channel after a write to one of its registers: 0 flags and rate,
    /// 1 direct load of the 7-bit level, 2 sample address in units of 64
    /// bytes above `$C000`, 3 sample length in units of 16 bytes plus one.
    pub open spec fn spec_write(self, register: u16, value: u8) -> Dmc {
        if register == 0 {
            Dmc {
                irq_enabled: value >= 128,
                loop_flag: bit(value as int, 64),
                rate: value % 16,
                ..self
            }
        } else if register == 1 {
            Dmc { direct_load: value % 128, output_level: value % 128, ..self }
        } else if register == 2 {
            Dmc { sample_address: (0xC000 + value * 64) as u16, ..self }
        } else {
            Dmc { sample_length: (value * 16 + 1) as u16, ..self }
        }
    }

    pub fn new() -> (r: Self)
        ensures
            r == Dmc::spec_new(),
    {
        Dmc {
            enabled: false,
            rate: 0,
            direct_load: 0,
            sample_address: 0,
            sample_length: 0,
            _current_address: 0,
            bytes_remaining: 0,
            _sample_buffer: None,
            output_level: 0,
            _shift_register: 0,
            _bits_remaining: 0,
            _silence_flag: true,
            irq_enabled: false,
            loop_flag: false,
            interrupt: false,
        }
    }

    /// The channel's level. See [`Dmc::spec_output`].
    pub fn _get_output(&self) -> (r: u8)
        ensures
            r == self.spec_output(),
    {
        self.output_level
    }

    /// Writes the enable bit. See [`Dmc::spec_set_enabled`].
    pub fn set_enabled(&mut self, enabled: bool)
        ensures
            *final(self) == old(self).spec_set_enabled(enabled),
    {
        self.enabled = enabled;
        self.interrupt = false;
    }

    /// Writes one of the channel's registers. See [`Dmc::spec_write`].
    pub fn write(&mut self, register: u16, value: u8)
        ensures
            *final(self) == old(self).spec_write(register, value),
    {
        if register == 0 {
            self.irq_enabled = value >= 128;
            self.loop_flag = (value / 64) % 2 == 1;
            self.rate = value % 16;
        } else if register == 1 {
            self.direct_load = value % 128;
            self.output_level = value % 128;
        } else if register == 2 {
            self.sample_address = 0xC000 + value as u16 * 64;
        } else {
            self.sample_length = value as u16 * 16 + 1;
        }
    }
}

pub struct Apu {
    pub pulse1: Pulse,
    pub pulse2: Pulse,
    pub triangle: Triangle,
    pub noise: Noise,
    pub dmc: Dmc,
    pub status: u8,
    pub frame_counter: u8,
    pub frame_sequence: u8,
    pub frame_interrupt: bool,
    pub frame_interrupt_inhibit: bool,
    pub cycles: u64,
}

impl Apu {
    /// The unit at power-on: every channel silent, the first pulse channel
    /// set to sweep down by one's complement, the frame counter at the start
    /// of the 4-step sequence, no interrupt pending.
    pub open spec fn spec_new() -> Apu {
        Apu {
            pulse1: Pulse { ones_complement: true, ..Pulse::spec_new() },
            pulse2: Pulse::spec_new(),
            triangle: Triangle::spec_new(),
            noise: Noise::spec_new(),
            dmc: Dmc::spec_new(),
            status: 0,
            frame_counter: 0,
            frame_sequence: 0,
            frame_interrupt: false,
            frame_interrupt_inhibit: false,
            cycles: 0,
        }
    }

    /// Whether the frame counter runs its 5-step sequence.
    pub open spec fn spec_five_step(self) -> bool {
        self.frame_counter >= 128
    }

    /// Whether the frame interrupt is raised.
    pub open spec fn spec_frame_interrupt(self) -> bool {
        self.frame_interrupt
    }

    /// The five channel levels: both pulses, triangle, noise, delta.
    pub open spec fn spec_channel_outputs(self) -> (u8, u8, u8, u8, u8) {
        (
            self.pulse1.spec_output(),
            self.pulse2.spec_output(),
            self.triangle.spec_output(),
            self.noise.spec_output(),
            self.dmc.spec_output(),
        )
    }

    /// The status byte: bits 0-3 tell which length counters run, bit 4
    /// whether sample bytes remain, bit 6 the frame interrupt, bit 7 the
    /// delta channel's interrupt.
    pub open spec fn spec_status(self) -> u8 {
        ((if self.pulse1.length_counter > 0 { 0x01int } else { 0int }) + (if self.pulse2.length_counter
            > 0 { 0x02int } else { 0int }) + (if self.triangle.length_counter > 0 {
            0x04int
        } else {
            0int
        }) + (if self.noise.length_counter > 0 { 0x08int } else { 0int }) + (if self.dmc.bytes_remaining
            > 0 { 0x10int } else { 0int }) + (if self.frame_interrupt { 0x40int } else { 0int }) + (
        if self.dmc.interrupt { 0x80int } else { 0int })) as u8
    }

    /// What a read returns: the status byte at `$4015`, zero elsewhere.
    pub open spec fn spec_read_value(self, addr: u16) -> u8 {
        if addr == 0x4015 {
            self.spec_status()
        } else {
            0
        }
    }

    /// The unit after a read: reading `$4015` acknowledges the frame
    /// interrupt, other reads change nothing.
    pub open spec fn spec_read_register(self, addr: u16) -> Apu {
        if addr == 0x4015 {
            Apu { frame_interrupt: false, ..self }
        } else {
            self
        }
    }

    /// The unit after a write to `$4015`: bits 0-4 enable the channels, a
    /// channel switched off loses its length, and the delta channel's
    /// interrupt is acknowledged.
    pub open spec fn spec_write_enables(self, value: u8) -> Apu {
        Apu {
            pulse1: self.pulse1.spec_set_enabled(bit(value as int, 1)),
            pulse2: self.pulse2.spec_set_enabled(bit(value as int, 2)),
            triangle: self.triangle.spec_set_enabled(bit(value as int, 4)),
            noise: self.noise.spec_set_enabled(bit(value as int, 8)),
            dmc: self.dmc.spec_set_enabled(bit(value as int, 16)),
            ..self
        }
    }

    /// The unit after a write to `$4017`: bit 7 selects the 5-step
    /// sequence, bit 6 inhibits the frame interrupt and acknowledges one
    /// that is raised.
    pub open spec fn spec_write_frame_counter(self, value: u8) -> Apu {
        Apu {
            frame_counter: value,
            frame_interrupt_inhibit: bit(value as int, 64),
            frame_interrupt: self.frame_interrupt && !bit(value as int, 64),
            ..self
        }
    }

    /// The unit after a register write. `$4000-$4003` and `$4004-$4007`
    /// reach the pulse channels, `$4008-$400B` the triangle, `$400C-$400F`
    /// the noise channel, `$4010-$4013` the delta channel, each by the low
    /// two address bits; `$4015` holds the enables and `$4017` the frame
    /// counter. Other addresses are ignored.
    pub open spec fn spec_write_register(self, addr: u16, value: u8) -> Apu {
        let register = (addr - 0x4000) % 4;
        if 0x4000 <= addr <= 0x4003 {
            Apu { pulse1: self.pulse1.spec_write(register as u16, value), ..self }
        } else if 0x4004 <= addr <= 0x4007 {
            Apu { pulse2: self.pulse2.spec_write(register as u16, value), ..self }
        } else if 0x4008 <= addr <= 0x400B {
            Apu { triangle: self.triangle.spec_write(register as u16, value), ..self }
        } else if 0x400C <= addr <= 0x400F {
            Apu { noise: self.noise.spec_write(register as u16, value), ..self }
        } else if 0x4010 <= addr <= 0x4013 {
            Apu { dmc: self.dmc.spec_write(register as u16, value), ..self }
        } else if addr == 0x4015 {
            self.spec_write_enables(value)
        } else if addr == 0x4017 {
            self.spec_write_frame_counter(value)
        } else {
            self
        }
    }

    /// The unit after the three envelopes are clocked.
    pub open spec fn spec_clock_envelopes(self) -> Apu {
        Apu {
            pulse1: self.pulse1.spec_clock_envelope(),
            pulse2: self.pulse2.spec_clock_envelope(),
            noise: self.noise.spec_clock_envelope(),
            ..self
        }
    }

    /// The unit after the triangle's linear counter is clocked.
    pub open spec fn spec_clock_linear_counter(self) -> Apu {
        Apu { triangle: self.triangle.spec_clock_linear(), ..self }
    }

    /// The unit after the four length counters are clocked.
    pub open spec fn spec_clock_length_counters(self) -> Apu {
        Apu {
            pulse1: self.pulse1.spec_clock_length(),
            pulse2: self.pulse2.spec_clock_length(),
            triangle: self.triangle.spec_clock_length(),
            noise: self.noise.spec_clock_length(),
            ..self
        }
    }

    /// The unit after the sweep units of both pulse channels are clocked.
    pub open spec fn spec_clock_sweeps(self) -> Apu {
        Apu {
            pulse1: self.pulse1.spec_clock_sweep(),
            pulse2: self.pulse2.spec_clock_sweep(),
            ..self
        }
    }

    /// A quarter-frame clock: envelopes and linear counter.
    pub open spec fn spec_quarter_frame(self) -> Apu {
        self.spec_clock_envelopes().spec_clock_linear_counter()
    }

    /// A half-frame clock: a quarter-frame clock, then length counters and
    /// sweeps.
    pub open spec fn spec_half_frame(self) -> Apu {
        self.spec_quarter_frame().spec_clock_length_counters().spec_clock_sweeps()
    }

    /// The position in the sequence that follows.
    pub open spec fn spec_next_sequence(self) -> u8 {
        let steps: u8 = if self.spec_five_step() { 5 } else { 4 };
        if self.frame_sequence + 1 >= steps {
            0
        } else {
            (self.frame_sequence + 1) as u8
        }
    }

    /// The unit after one step of the frame counter.
    ///
    /// Positions 0 and 2 give a quarter-frame clock, position 1 a half-frame
    /// clock. In the 4-step sequence position 3 gives a half-frame clock
    /// and raises the frame interrupt unless inhibited. In the 5-step
    /// sequence position 3 is idle and the half-frame clock comes at
    /// position 4, which makes the last step twice as long; no interrupt
    /// is raised.
    pub open spec fn spec_clock_frame_counter(self) -> Apu {
        let five = self.spec_five_step();
        let position = self.frame_sequence;
        let clocked = if position == 0 || position == 2 {
            self.spec_quarter_frame()
        } else if position == 1 {
            self.spec_half_frame()
        } else if position == 3 && !five {
            let c = self.spec_half_frame();
            Apu { frame_interrupt: c.frame_interrupt || !c.frame_interrupt_inhibit, ..c }
        } else if position == 4 && five {
            self.spec_half_frame()
        } else {
            self
        };
        Apu { frame_sequence: self.spec_next_sequence(), ..clocked }
    }

    /// The unit after one CPU cycle. On even cycles the pulse and noise
    /// timers are clocked; the triangle timer is clocked on every cycle;
    /// every [`FRAME_STEP_CYCLES`] cycles the frame counter steps. The
    /// cycle count then advances, wrapping at 2^64.
    pub open spec fn spec_step(self) -> Apu {
        let timed = if self.cycles % 2 == 0 {
            Apu {
                pulse1: self.pulse1.spec_clock_timer(),
                pulse2: self.pulse2.spec_clock_timer(),
                noise: self.noise.spec_clock_timer(),
                ..self
            }
        } else {
            self
        };
        let timed = Apu { triangle: timed.triangle.spec_clock_timer(), ..timed };
        let framed = if self.cycles % FRAME_STEP_CYCLES == 0 {
            timed.spec_clock_frame_counter()
        } else {
            timed
        };
        Apu { cycles: if self.cycles == u64::MAX { 0 } else { (self.cycles + 1) as u64 }, ..framed }
    }

    /// The unit after `n` CPU cycles.
    pub open spec fn spec_step_n(self, n: nat) -> Apu
        decreases n,
    {
        if n == 0 {
            self
        } else {
            self.spec_step().spec_step_n((n - 1) as nat)
        }
    }

    pub fn new() -> (r: Self)
        ensures
            r == Apu::spec_new(),
    {
        let mut first = Pulse::new();
        first.ones_complement = true;
        Apu {
            pulse1: first,
            pulse2: Pulse::new(),
            triangle: Triangle::new(),
            noise: Noise::new(),
            dmc: Dmc::new(),
            status: 0,
            frame_counter: 0,
            frame_sequence: 0,
            frame_interrupt: false,
            frame_interrupt_inhibit: false,
            cycles: 0,
        }
    }

    /// Puts the unit back to its power-on state.
    pub fn reset(&mut self)
        ensures
            *final(self) == Apu::spec_new(),
    {
        self.pulse1 = Pulse::new();
        self.pulse1.ones_complement = true;
        self.pulse2 = Pulse::new();
        self.triangle = Triangle::new();
        self.noise = Noise::new();
        self.dmc = Dmc::new();
        self.status = 0;
        self.frame_counter = 0;
        self.frame_sequence = 0;
        self.frame_interrupt = false;
        self.frame_interrupt_inhibit = false;
        self.cycles = 0;
    }

    /// Reads a register. See [`Apu::spec_read_value`] for the value and
    /// [`Apu::spec_read_register`] for the effect.
    pub fn read_register(&mut self, addr: u16) -> (r: u8)
        ensures
            r == old(self).spec_read_value(addr),
            *final(self) == old(self).spec_read_register(addr),
    {
        if addr == 0x4015 {
            let mut result: u8 = 0u8;
            result = result + (if self.pulse1.length_counter > 0 { 0x01u8 } else { 0u8 });
            result = result + (if self.pulse2.length_counter > 0 { 0x02u8 } else { 0u8 });
            result = result + (if self.triangle.length_counter > 0 { 0x04u8 } else { 0u8 });
            result = result + (if self.noise.length_counter > 0 { 0x08u8 } else { 0u8 });
            result = result + (if self.dmc.bytes_remaining > 0 { 0x10u8 } else { 0u8 });
            result = result + (if self.frame_interrupt { 0x40u8 } else { 0u8 });
            result = result + (if self.dmc.interrupt { 0x80u8 } else { 0u8 });
            self.frame_interrupt = false;
            result
        } else {
            0
        }
    }

    /// Writes a register. See [`Apu::spec_write_register`].
    pub fn write_register(&mut self, addr: u16, value: u8)
        ensures
            *final(self) == old(self).spec_write_register(addr, value),
    {
        if 0x4000 <= addr && addr <= 0x4003 {
            self.pulse1.write((addr - 0x4000) % 4, value);
        } else if 0x4004 <= addr && addr <= 0x4007 {
            self.pulse2.write((addr - 0x4000) % 4, value);
        } else if 0x4008 <= addr && addr <= 0x400B {
            self.triangle.write((addr - 0x4000) % 4, value);
        } else if 0x400C <= addr && addr <= 0x400F {
            self.noise.write((addr - 0x4000) % 4, value);
        } else if 0x4010 <= addr && addr <= 0x4013 {
            self.dmc.write((addr - 0x4000) % 4, value);
        } else if addr == 0x4015 {
            self.pulse1.set_enabled(value % 2 == 1);
            self.pulse2.set_enabled((value / 2) % 2 == 1);
            self.triangle.set_enabled((value / 4) % 2 == 1);
            self.noise.set_enabled((value / 8) % 2 == 1);
            self.dmc.set_enabled((value / 16) % 2 == 1);
        } else if addr == 0x4017 {
            self.frame_counter = value;
            self.frame_interrupt_inhibit = (value / 64) % 2 == 1;
            if self.frame_interrupt_inhibit {
                self.frame_interrupt = false;
            }
        }
    }

    /// Advances the unit by one CPU cycle. See [`Apu::spec_step`].
    pub fn step(&mut self)
        ensures
            *final(self) == old(self).spec_step(),
    {
        if self.cycles % 2 == 0 {
            self.pulse1.clock_timer();
            self.pulse2.clock_timer();
            self.noise.clock_timer();
        }
        self.triangle.clock_timer();
        if self.cycles % FRAME_STEP_CYCLES == 0 {
            self.clock_frame_counter();
        }
        self.cycles = self.cycles.wrapping_add(1);
    }

    /// Steps the frame counter. See [`Apu::spec_clock_frame_counter`].
    pub fn clock_frame_counter(&mut self)
        ensures
            *final(self) == old(self).spec_clock_frame_counter(),
    {
        let five = self.frame_counter >= 128;
        let position = self.frame_sequence;
        if position == 0 || position == 2 {
            self.clock_envelopes();
            self.clock_linear_counter();
        } else if position == 1 || (position == 3 && !five) || (position == 4 && five) {
            self.clock_envelopes();
            self.clock_linear_counter();
            self.clock_length_counters();
            self.clock_sweeps();
            if position == 3 && !self.frame_interrupt_inhibit {
                self.frame_interrupt = true;
            }
        }
        let steps: u8 = if five { 5 } else { 4 };
        self.frame_sequence = if position >= steps - 1 { 0 } else { position + 1 };
    }

    /// Clocks the three envelopes.
    pub fn clock_envelopes(&mut self)
        ensures
            *final(self) == old(self).spec_clock_envelopes(),
    {
        self.pulse1.clock_envelope();
        self.pulse2.clock_envelope();
        self.noise.clock_envelope();
    }

    /// Clocks the triangle's linear counter.
    pub fn clock_linear_counter(&mut self)
        ensures
            *final(self) == old(self).spec_clock_linear_counter(),
    {
        self.triangle.clock_linear();
    }

    /// Clocks the four length counters.
    pub fn clock_length_counters(&mut self)
        ensures
            *final(self) == old(self).spec_clock_length_counters(),
    {
        self.pulse1.clock_length();
        self.pulse2.clock_length();
        self.triangle.clock_length();
        self.noise.clock_length();
    }

    /// Clocks the sweep units of both pulse channels.
    pub fn clock_sweeps(&mut self)
        ensures
            *final(self) == old(self).spec_clock_sweeps(),
    {
        self.pulse1.clock_sweep();
        self.pulse2.clock_sweep();
    }

    /// Advances the unit by `n` CPU cycles. See [`Apu::spec_step_n`].
    pub fn step_many(&mut self, n: u8)
        ensures
            *final(self) == old(self).spec_step_n(n as nat),
    {
        let ghost start = *self;
        let mut k: u8 = 0;
        while k < n
            invariant
                0 <= k <= n,
                *self == start.spec_step_n(k as nat),
            decreases n - k,
        {
            proof {
                lemma_apu_steps_compose(start, k as nat, 1);
                assert(self.spec_step_n(1) == self.spec_step()) by {
                    assert(self.spec_step().spec_step_n(0) == self.spec_step());
                }
            }
            self.step();
            k += 1;
        }
    }

    /// Whether the frame interrupt is raised.
    pub fn frame_interrupt(&self) -> (r: bool)
        ensures
            r == self.spec_frame_interrupt(),
    {
        self.frame_interrupt
    }

    /// The five channel levels, for a mixer: both pulses, triangle, noise,
    /// delta.
    pub fn channel_outputs(&self) -> (r: (u8, u8, u8, u8, u8))
        ensures
            r == self.spec_channel_outputs(),
    {
        (
            self.pulse1._get_output(),
            self.pulse2._get_output(),
            self.triangle._get_output(),
            self.noise._get_output(),
            self.dmc._get_output(),
        )
    }
}

/// Running `a + b` cycles is running `a` cycles and then `b` cycles.
pub proof fn lemma_apu_steps_compose(apu: Apu, a: nat, b: nat)
    ensures
        apu.spec_step_n(a + b) == apu.spec_step_n(a).spec_step_n(b),
    decreases a,
{
    if a > 0 {
        lemma_apu_steps_compose(apu.spec_step(), (a - 1) as nat, b);
    }
}

/// The sweep unit keeps the period within the timer's 11 bits: a period
/// that fits stays fitting after a sweep clock, and the period moves only
/// while the unit does not silence the channel.
pub proof fn lemma_sweep_keeps_range(p: Pulse)
    ensures
        p.timer_period <= 0x7FF ==> p.spec_clock_sweep().timer_period <= 0x7FF,
        p.sweep_muting() ==> p.spec_clock_sweep().timer_period == p.timer_period,
        p.spec_clock_sweep().timer_period != p.timer_period ==> p.spec_clock_sweep().timer_period
            == p.sweep_target(),
{
}

/// Writing `$4015` with a channel's bit clear silences the channel: its
/// length counter is zero afterwards, whatever it held.
pub proof fn lemma_disable_clears_length(a: Apu, value: u8)
    ensures
        !bit(value as int, 1) ==> a.spec_write_register(0x4015, value).pulse1.spec_length() == 0,
        !bit(value as int, 2) ==> a.spec_write_register(0x4015, value).pulse2.spec_length() == 0,
        !bit(value as int, 4) ==> a.spec_write_register(0x4015, value).triangle.spec_length() == 0,
        !bit(value as int, 8) ==> a.spec_write_register(0x4015, value).noise.spec_length() == 0,
{
}

/// Reading the status acknowledges the frame interrupt: the read reports
/// it in bit 6, and the next read reports it clear.
pub proof fn lemma_status_read_acknowledges(a: Apu)
    ensures
        bit(a.spec_read_value(0x4015) as int, 64) <==> a.spec_frame_interrupt(),
        !a.spec_read_register(0x4015).spec_frame_interrupt(),
{
}

} // verus!
