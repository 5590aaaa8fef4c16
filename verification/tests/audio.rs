use nes_emu::audio::SamplePacer;
use nes_emu::audio::HIGH_WATER;
use nes_emu::audio::LOW_WATER;
use nes_emu::audio::QUEUE_LIMIT;
use nes_emu::audio::UNITS_PER_CYCLE;
use nes_emu::audio::UNITS_PER_SAMPLE;

#[test]
fn pacer_units() {
    // a sample lasts 1789773 / 44100 cycles
    assert_eq!(UNITS_PER_SAMPLE * 44_100, UNITS_PER_CYCLE * 1_789_773);
    assert_eq!((LOW_WATER, HIGH_WATER, QUEUE_LIMIT), (2000, 6000, 8192));
}

#[test]
fn pacer_normal_threshold() {
    let mut pacer = SamplePacer::new();
    assert_eq!(pacer.advance(40, 3000), 0);
    assert_eq!(pacer.accumulator, 40 * 220_500);
    assert_eq!(pacer.advance(1, 3000), 1);
    assert_eq!(pacer.accumulator, 41 * 220_500 - 8_948_865);
    assert_eq!(pacer.accumulator, 91_635);
    // the marks themselves count as between them
    let mut at_low = SamplePacer::new();
    assert_eq!(at_low.advance(40, 2000), 0);
    let mut at_high = SamplePacer::new();
    assert_eq!(at_high.advance(41, 6000), 1);
}

#[test]
fn pacer_low_water_comes_early() {
    let mut pacer = SamplePacer::new();
    // a fifth less than 40.58 cycles is 32.47
    assert_eq!(pacer.advance(32, 1999), 0);
    assert_eq!(pacer.advance(1, 0), 1);
    assert_eq!(pacer.accumulator, 33 * 220_500 - 8_948_865);
    assert!(pacer.accumulator < 0);
}

#[test]
fn pacer_high_water_comes_late() {
    let mut pacer = SamplePacer::new();
    // a fifth more than 40.58 cycles is 48.70
    assert_eq!(pacer.advance(48, 6001), 0);
    assert_eq!(pacer.advance(1, 8192), 1);
    assert_eq!(pacer.accumulator, 49 * 220_500 - 8_948_865);
}

#[test]
fn pacer_pays_several_samples_at_once() {
    let mut pacer = SamplePacer::new();
    // 255 cycles are 6.28 sample times
    assert_eq!(pacer.advance(255, 3000), 6);
    assert_eq!(pacer.accumulator, 255 * 220_500 - 6 * 8_948_865);
    let mut early = SamplePacer::new();
    // below the low mark the seventh sample comes 22 cycles later
    assert_eq!(early.advance(255, 0), 6);
    let mut more = SamplePacer::new();
    assert_eq!(more.advance(255, 0) + more.advance(22, 0), 7);
}

#[test]
fn pacer_keeps_the_sample_rate() {
    let mut pacer = SamplePacer::new();
    let mut samples = 0u64;
    // one second of CPU time in ticks of three cycles
    for _ in 0..1_789_773 / 3 {
        samples += pacer.advance(3, 4000);
    }
    assert_eq!(samples, 44_100);
    assert_eq!(pacer.accumulator, 0);
}
