use string_synth::reverb::{
    reflection_slot, reflections, response_length, tail_smoothing, HistoryRing, Reflection,
    MAX_RESPONSE, MIN_RESPONSE, REFLECTIONS, REVERB_SEED, TAIL_GAIN, TAIL_SMOOTHING_MAX, TAIL_TIME,
};

#[test]
fn reverb_constants() {
    assert_eq!(MIN_RESPONSE, 64);
    assert_eq!(MAX_RESPONSE, 8192);
    assert_eq!(REVERB_SEED, 1234567);
    assert_eq!(REFLECTIONS, 8);
    assert_eq!(TAIL_TIME, 200);
    assert_eq!(TAIL_GAIN, 60_000_000);
    assert_eq!(TAIL_SMOOTHING_MAX, 980_000_000);
}

#[test]
fn response_is_a_tenth_of_a_second() {
    assert_eq!(response_length(44100), 4410);
    assert_eq!(response_length(48000), 4800);
    assert_eq!(response_length(22050), 2205);
}

#[test]
fn response_length_rounds_to_the_nearest_sample() {
    assert_eq!(response_length(11025), 1103);
    assert_eq!(response_length(11024), 1102);
    assert_eq!(response_length(645), 65);
    assert_eq!(response_length(644), 64);
}

#[test]
fn response_length_has_a_floor() {
    assert_eq!(response_length(0), 64);
    assert_eq!(response_length(1), 64);
    assert_eq!(response_length(100), 64);
    assert_eq!(response_length(635), 64);
}

#[test]
fn response_length_has_a_ceiling() {
    assert_eq!(response_length(81915), 8192);
    assert_eq!(response_length(81920), 8192);
    assert_eq!(response_length(81925), 8192);
    assert_eq!(response_length(200_000), 8192);
    assert_eq!(response_length(u32::MAX), 8192);
}

#[test]
fn response_length_just_below_the_ceiling() {
    assert_eq!(response_length(81914), 8191);
}

#[test]
fn eight_reflections_in_order_of_arrival() {
    assert_eq!(
        reflections(),
        vec![
            Reflection { delay: 25, gain: 75 },
            Reflection { delay: 49, gain: 55 },
            Reflection { delay: 73, gain: 40 },
            Reflection { delay: 110, gain: 28 },
            Reflection { delay: 170, gain: 22 },
            Reflection { delay: 260, gain: 18 },
            Reflection { delay: 350, gain: 14 },
            Reflection { delay: 480, gain: 12 },
        ]
    );
}

#[test]
fn reflections_at_44100_hertz() {
    let len = response_length(44100);
    let slots: Vec<Option<usize>> =
        reflections().iter().map(|r| reflection_slot(44100, r.delay, len)).collect();
    assert_eq!(
        slots,
        vec![
            Some(110),
            Some(216),
            Some(322),
            Some(485),
            Some(750),
            Some(1147),
            Some(1544),
            Some(2117)
        ]
    );
}

#[test]
fn reflections_at_48000_hertz() {
    let len = response_length(48000);
    let slots: Vec<Option<usize>> =
        reflections().iter().map(|r| reflection_slot(48000, r.delay, len)).collect();
    assert_eq!(
        slots,
        vec![
            Some(120),
            Some(235),
            Some(350),
            Some(528),
            Some(816),
            Some(1248),
            Some(1680),
            Some(2304)
        ]
    );
}

#[test]
fn a_reflection_after_the_end_of_the_response_is_left_out() {
    let len = response_length(200_000);
    assert_eq!(len, 8192);
    assert_eq!(reflection_slot(200_000, 350, len), Some(7000));
    assert_eq!(reflection_slot(200_000, 480, len), None);
}

#[test]
fn a_reflection_on_the_last_tap_is_kept_and_one_after_it_is_not() {
    assert_eq!(reflection_slot(10_000, 63, 64), Some(63));
    assert_eq!(reflection_slot(10_000, 64, 64), None);
    assert_eq!(reflection_slot(10_000, 64, 65), Some(64));
}

#[test]
fn reflection_slot_does_not_overflow() {
    assert_eq!(reflection_slot(u32::MAX, u32::MAX, 8192), None);
    assert_eq!(reflection_slot(0, 480, 64), Some(0));
}

#[test]
fn tail_smoothing_rises_along_the_response() {
    assert_eq!(tail_smoothing(0, 4410), 250_000_000);
    assert_eq!(tail_smoothing(1, 4410), 250_124_716);
    assert_eq!(tail_smoothing(2205, 4410), 525_000_000);
    assert_eq!(tail_smoothing(4409, 4410), 799_875_284);
    assert_eq!(tail_smoothing(32, 64), 525_000_000);
    assert_eq!(tail_smoothing(63, 64), 791_406_250);
}

#[test]
fn tail_smoothing_past_the_end_stays_at_its_last_value() {
    assert_eq!(tail_smoothing(4410, 4410), 800_000_000);
    assert_eq!(tail_smoothing(5000, 4410), 800_000_000);
    assert_eq!(tail_smoothing(usize::MAX, 8192), 800_000_000);
}

#[test]
fn ring_starts_at_slot_zero() {
    let ring = HistoryRing::new(64);
    assert_eq!(ring, HistoryRing { len: 64, pos: 0 });
    assert_eq!(ring.slot(0), 0);
}

#[test]
fn ring_taps_read_backwards_and_wrap() {
    let ring = HistoryRing { len: 8, pos: 2 };
    assert_eq!(ring.slot(0), 2);
    assert_eq!(ring.slot(1), 1);
    assert_eq!(ring.slot(2), 0);
    assert_eq!(ring.slot(3), 7);
    assert_eq!(ring.slot(7), 3);
}

#[test]
fn ring_taps_read_every_slot_once() {
    let ring = HistoryRing { len: 64, pos: 17 };
    let mut seen = vec![false; 64];
    for lag in 0..64 {
        let slot = ring.slot(lag);
        assert!(!seen[slot]);
        seen[slot] = true;
    }
    assert!(seen.iter().all(|s| *s));
}

#[test]
fn ring_advance_wraps_at_the_end() {
    let mut ring = HistoryRing::new(3);
    ring.advance();
    assert_eq!(ring.pos, 1);
    ring.advance();
    assert_eq!(ring.pos, 2);
    ring.advance();
    assert_eq!(ring.pos, 0);
    assert_eq!(ring.len, 3);
}

#[test]
fn a_tap_reads_what_was_written_that_many_frames_ago() {
    let mut ring = HistoryRing::new(5);
    let mut history = vec![0u32; 5];
    for frame in 1..=23u32 {
        history[ring.slot(0)] = frame;
        for lag in 0..5usize {
            let expected = if (lag as u32) < frame { frame - lag as u32 } else { 0 };
            assert_eq!(history[ring.slot(lag)], expected);
        }
        ring.advance();
    }
}
