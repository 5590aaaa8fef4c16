//! Pacing of audio samples: how many samples are due after each tick of
//! the console, so that 44 100 of them leave per second of CPU time while
//! the queue to the sound device neither runs dry nor overflows.
//!
//! Time is counted in exact fractions of a CPU cycle, so that no rounding
//! builds up however long the console runs.

use vstd::prelude::*;

verus! {

/// CPU cycles per second.
pub const CPU_CLOCK_HZ: i64 = 1_789_773;

/// Samples per second.
pub const SAMPLE_RATE_HZ: i64 = 44_100;

/// Below this many queued samples, samples come early.
pub const LOW_WATER: usize = 2000;

/// Above this many queued samples, samples come late.
pub const HIGH_WATER: usize = 6000;

/// Samples the queue holds at most.
pub const QUEUE_LIMIT: usize = 8192;

/// What a CPU cycle adds to the accumulator. A unit is the 220 500th part
/// of a CPU cycle.
pub const UNITS_PER_CYCLE: i64 = 220_500;

/// Units between two samples: `1789773 / 44100` cycles.
pub const UNITS_PER_SAMPLE: i64 = 8_948_865;

/// Units that must have gathered before a sample is due. With the queue
/// between the marks this is the time of one sample; above the high mark
/// it is a fifth more, below the low mark a fifth less.
pub open spec fn sample_threshold(queued: int) -> int {
    if queued > HIGH_WATER {
        UNITS_PER_SAMPLE as int * 6 / 5
    } else if queued < LOW_WATER {
        UNITS_PER_SAMPLE as int * 4 / 5
    } else {
        UNITS_PER_SAMPLE as int
    }
}

/// How many samples a gathered time pays for: none below the threshold,
/// else one, and one more for every whole sample time beyond it.
pub open spec fn samples_due(gathered: int, threshold: int) -> int {
    if gathered < threshold {
        0
    } else {
        (gathered - threshold) / (UNITS_PER_SAMPLE as int) + 1
    }
}

/// The time gathered towards the next sample, in units. It may be
/// negative after samples have come early.
pub struct SamplePacer {
    pub accumulator: i64,
}

impl SamplePacer {
    /// The time gathered once `cycles` more CPU cycles have passed.
    pub open spec fn gathered(self, cycles: u8) -> int {
        self.accumulator as int + cycles as int * UNITS_PER_CYCLE as int
    }

    /// The samples that fall due when `cycles` more CPU cycles have passed
    /// and `queued` samples wait in the queue.
    pub open spec fn spec_due(self, cycles: u8, queued: usize) -> int {
        samples_due(self.gathered(cycles), sample_threshold(queued as int))
    }

    /// The time that stays gathered after those samples are paid for.
    pub open spec fn spec_left(self, cycles: u8, queued: usize) -> int {
        self.gathered(cycles) - self.spec_due(cycles, queued) * UNITS_PER_SAMPLE as int
    }

    /// A pacer with nothing gathered.
    pub fn new() -> (r: Self)
        ensures
            r.accumulator == 0,
    {
        SamplePacer { accumulator: 0 }
    }

    /// Accounts for a tick of `cycles` CPU cycles and tells how many
    /// samples to produce now. Every sample takes its time out of what was
    /// gathered, so afterwards less than the threshold is left.
    pub fn advance(&mut self, cycles: u8, queued: usize) -> (samples: u64)
        ensures
            samples == old(self).spec_due(cycles, queued),
            final(self).accumulator == old(self).spec_left(cycles, queued),
            final(self).accumulator < sample_threshold(queued as int),
            samples > 0 ==> final(self).accumulator >= sample_threshold(queued as int)
                - UNITS_PER_SAMPLE,
    {
        let added: i128 = cycles as i128 * 220_500;
        let gathered: i128 = self.accumulator as i128 + added;
        let threshold: i128 = if queued > HIGH_WATER {
            UNITS_PER_SAMPLE as i128 * 6 / 5
        } else if queued < LOW_WATER {
            UNITS_PER_SAMPLE as i128 * 4 / 5
        } else {
            UNITS_PER_SAMPLE as i128
        };
        if gathered < threshold {
            self.accumulator = gathered as i64;
            return 0;
        }
        let due: i128 = (gathered - threshold) / (UNITS_PER_SAMPLE as i128) + 1;
        let left: i128 = gathered - due * UNITS_PER_SAMPLE as i128;
        assert(threshold - UNITS_PER_SAMPLE <= left < threshold) by (nonlinear_arith)
            requires
                gathered >= threshold,
                due == (gathered - threshold) / (UNITS_PER_SAMPLE as int) + 1,
                left == gathered - due * UNITS_PER_SAMPLE,
                UNITS_PER_SAMPLE == 8_948_865,
        ;
        self.accumulator = left as i64;
        due as u64
    }
}

/// In the long run the pacer keeps the sample rate. While the queue stays
/// between the marks, the time gathered and the samples produced account
/// for every cycle: what is left after a tick, plus a sample time for each
/// sample, is what there was plus the tick.
pub proof fn lemma_pacer_conserves_time(p: SamplePacer, cycles: u8, queued: usize)
    ensures
        p.spec_left(cycles, queued) + p.spec_due(cycles, queued) * UNITS_PER_SAMPLE
            == p.accumulator + cycles * UNITS_PER_CYCLE,
        p.spec_due(cycles, queued) >= 0,
        UNITS_PER_SAMPLE * SAMPLE_RATE_HZ == UNITS_PER_CYCLE * CPU_CLOCK_HZ,
{
    let gathered = p.gathered(cycles);
    let threshold = sample_threshold(queued as int);
    if gathered >= threshold {
        assert((gathered - threshold) / (UNITS_PER_SAMPLE as int) >= 0) by (nonlinear_arith)
            requires
                gathered >= threshold,
                UNITS_PER_SAMPLE == 8_948_865,
        ;
    }
}

} // verus!
