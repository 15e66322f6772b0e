use string_synth::engine::{
    engine_init, engine_note_on, engine_set_attack_decay, engine_set_brightness,
    engine_set_decay, engine_set_dispersion, engine_set_guitar_type, engine_set_reverb_mix, Engine,
    VoiceFrame, INITIAL_SEED, MAX_VOICES,
};
use string_synth::fixed::ONE;
use string_synth::noise::lcg_next;
use string_synth::tone::{GuitarType, Tone};
use string_synth::voice::{Coefficients, Voice};

fn in_range(tone: &Tone) -> bool {
    950_000_000 <= tone.decay
        && tone.decay <= 999_900_000
        && tone.brightness <= 1_000_000_000
        && tone.dispersion <= 500_000_000
        && 950_000_000 <= tone.attack_decay
        && tone.attack_decay <= 999_000_000
        && tone.reverb_mix <= 900_000_000
}

fn voices_of(engine: &Engine) -> Vec<Voice> {
    (0..MAX_VOICES).map(|slot| engine.voice(slot).unwrap()).collect()
}

#[test]
fn engine_constants() {
    assert_eq!(MAX_VOICES, 8);
    assert_eq!(INITIAL_SEED, 1);
}

#[test]
fn a_new_engine_has_eight_idle_voices_and_the_first_preset() {
    let engine = Engine::new(44100);
    assert_eq!(engine.sample_rate(), 44100);
    assert_eq!(engine.noise_seed(), 1);
    assert_eq!(engine.guitar_type(), GuitarType::SteelBright);
    assert_eq!(engine.tone(), Tone::preset(GuitarType::SteelBright));
    assert_eq!(engine.active_voices(), 0);
    assert_eq!(engine.mix_divisor(), 1);
    assert_eq!(engine.reverb_len(), 4410);
    assert_eq!(engine.reverb_pos(), 0);
    assert!(!engine.is_silent());
    for slot in 0..MAX_VOICES {
        assert_eq!(engine.voice(slot), Some(Voice::new()));
    }
    assert_eq!(engine.voice(MAX_VOICES), None);
}

#[test]
fn parameters_lie_in_range_after_construction_for_every_guitar_type() {
    for rate in [1u32, 8000, 44100, 48000, 96000, u32::MAX] {
        for code in 0..4 {
            let mut engine = engine_init(rate);
            assert!(in_range(&engine.tone()));
            engine_set_guitar_type(&mut engine, code);
            assert!(in_range(&engine.tone()));
            assert_eq!(engine.guitar_type().code(), code);
        }
    }
}

#[test]
fn guitar_type_99_gives_the_parameters_of_guitar_type_0() {
    let mut unknown = engine_init(44100);
    engine_set_guitar_type(&mut unknown, 2);
    engine_set_guitar_type(&mut unknown, 99);
    let mut zero = engine_init(44100);
    engine_set_guitar_type(&mut zero, 2);
    engine_set_guitar_type(&mut zero, 0);
    assert_eq!(unknown.tone(), zero.tone());
    assert_eq!(unknown.guitar_type(), zero.guitar_type());
    assert_eq!(
        unknown.tone(),
        Tone {
            decay: 997_800_000,
            brightness: 800_000_000,
            dispersion: 220_000_000,
            attack_decay: 986_000_000,
            reverb_mix: 140_000_000,
        }
    );
}

#[test]
fn each_guitar_type_applies_its_preset() {
    let mut engine = engine_init(44100);
    engine_set_guitar_type(&mut engine, 1);
    assert_eq!(engine.tone(), Tone::preset(GuitarType::SteelWarm));
    engine.set_guitar_profile(2);
    assert_eq!(engine.tone(), Tone::preset(GuitarType::Nylon));
    assert_eq!(engine.guitar_type(), GuitarType::Nylon);
    engine.set_guitar_profile(3);
    assert_eq!(engine.tone(), Tone::preset(GuitarType::JumboSteel));
    engine.set_guitar_profile(-7);
    assert_eq!(engine.tone(), Tone::preset(GuitarType::SteelBright));
    assert_eq!(engine.guitar_type(), GuitarType::SteelBright);
}

#[test]
fn a_preset_changes_nothing_but_the_tone() {
    let mut engine = engine_init(44100);
    let mut noise = Vec::new();
    engine.excite(110_000, ONE, &mut noise);
    let seed = engine.noise_seed();
    let voices = voices_of(&engine);
    engine.set_guitar_profile(3);
    assert_eq!(engine.noise_seed(), seed);
    assert_eq!(voices_of(&engine), voices);
    assert_eq!(engine.sample_rate(), 44100);
}

#[test]
fn set_decay_clamps() {
    let mut engine = engine_init(44100);
    engine_set_decay(&mut engine, 990_000_000);
    assert_eq!(engine.tone().decay, 990_000_000);
    engine_set_decay(&mut engine, 0);
    assert_eq!(engine.tone().decay, 950_000_000);
    engine_set_decay(&mut engine, ONE);
    assert_eq!(engine.tone().decay, 999_900_000);
    engine_set_decay(&mut engine, 949_999_999);
    assert_eq!(engine.tone().decay, 950_000_000);
    engine_set_decay(&mut engine, 999_900_001);
    assert_eq!(engine.tone().decay, 999_900_000);
}

#[test]
fn set_brightness_clamps() {
    let mut engine = engine_init(44100);
    engine_set_brightness(&mut engine, 0);
    assert_eq!(engine.tone().brightness, 0);
    engine_set_brightness(&mut engine, 123_000_000);
    assert_eq!(engine.tone().brightness, 123_000_000);
    engine_set_brightness(&mut engine, ONE + 1);
    assert_eq!(engine.tone().brightness, ONE);
    engine_set_brightness(&mut engine, u32::MAX);
    assert_eq!(engine.tone().brightness, ONE);
}

#[test]
fn set_dispersion_clamps() {
    let mut engine = engine_init(44100);
    engine_set_dispersion(&mut engine, 0);
    assert_eq!(engine.tone().dispersion, 0);
    engine_set_dispersion(&mut engine, 500_000_000);
    assert_eq!(engine.tone().dispersion, 500_000_000);
    engine_set_dispersion(&mut engine, 500_000_001);
    assert_eq!(engine.tone().dispersion, 500_000_000);
}

#[test]
fn set_attack_decay_clamps() {
    let mut engine = engine_init(44100);
    engine_set_attack_decay(&mut engine, 100);
    assert_eq!(engine.tone().attack_decay, 950_000_000);
    engine_set_attack_decay(&mut engine, 975_000_000);
    assert_eq!(engine.tone().attack_decay, 975_000_000);
    engine_set_attack_decay(&mut engine, ONE);
    assert_eq!(engine.tone().attack_decay, 999_000_000);
}

#[test]
fn set_reverb_mix_clamps() {
    let mut engine = engine_init(44100);
    engine_set_reverb_mix(&mut engine, 0);
    assert_eq!(engine.tone().reverb_mix, 0);
    engine_set_reverb_mix(&mut engine, 450_000_000);
    assert_eq!(engine.tone().reverb_mix, 450_000_000);
    engine_set_reverb_mix(&mut engine, ONE);
    assert_eq!(engine.tone().reverb_mix, 900_000_000);
}

#[test]
fn a_setter_changes_one_parameter_only() {
    let mut engine = engine_init(44100);
    let before = engine.tone();
    engine_set_dispersion(&mut engine, 10_000_000);
    let after = engine.tone();
    assert_eq!(after, Tone { dispersion: 10_000_000, ..before });
    assert!(in_range(&after));
}

#[test]
fn a_note_takes_the_first_idle_voice() {
    let mut engine = engine_init(44100);
    let mut noise = Vec::new();
    assert_eq!(engine_note_on(&mut engine, 110_000, ONE, &mut noise), 0);
    assert_eq!(engine_note_on(&mut engine, 220_000, ONE, &mut noise), 1);
    assert_eq!(engine_note_on(&mut engine, 330_000, ONE, &mut noise), 2);
    assert_eq!(engine.active_voices(), 3);
    assert_eq!(engine.mix_divisor(), 3);
}

#[test]
fn note_on_plucks_the_voice_and_draws_its_noise() {
    let mut engine = engine_init(44100);
    let mut noise = vec![0u32; 3];
    let slot = engine.excite(110_000, ONE, &mut noise);
    assert_eq!(slot, 0);
    let mut expected = Voice::new();
    expected.pluck(44100, 110_000, ONE);
    assert_eq!(engine.voice(0), Some(expected));
    assert_eq!(noise.len(), 400);
    let mut seed: u32 = 1;
    for draw in noise.iter() {
        assert_eq!(*draw, lcg_next(&mut seed));
    }
    assert_eq!(engine.noise_seed(), seed);
    assert_eq!(&noise[..3], &[3967065, 6195333, 8459777]);
}

#[test]
fn noise_covers_the_whole_buffer_of_a_voice_that_was_longer_before() {
    let mut engine = engine_init(44100);
    let mut noise = Vec::new();
    engine.excite(110_000, 500_000, &mut noise);
    engine.end_voice(0, 0);
    assert_eq!(engine.active_voices(), 0);
    let slot = engine.excite(440_000, ONE, &mut noise);
    assert_eq!(slot, 0);
    let voice = engine.voice(0).unwrap();
    assert_eq!((voice.delay_len, voice.capacity), (100, 400));
    assert_eq!(noise.len(), 400);
}

#[test]
fn active_count_rises_by_one_up_to_eight() {
    let mut engine = engine_init(44100);
    let mut noise = Vec::new();
    for n in 1..=8usize {
        let slot = engine.excite(82_410 + 10_000 * n as u32, 500_000_000, &mut noise);
        assert_eq!(slot, n - 1);
        assert_eq!(engine.active_voices(), n);
    }
    for _ in 0..5 {
        engine.excite(440_000, 500_000_000, &mut noise);
        assert_eq!(engine.active_voices(), 8);
        assert_eq!(engine.mix_divisor(), 8);
    }
}

#[test]
fn the_ninth_note_displaces_the_quietest_voice() {
    let mut engine = engine_init(44100);
    let mut noise = Vec::new();
    let velocities: [u32; 8] = [
        900_000_000,
        800_000_000,
        700_000_000,
        200_000_000,
        600_000_000,
        500_000_000,
        400_000_000,
        300_000_000,
    ];
    for v in velocities {
        engine.excite(110_000, v, &mut noise);
    }
    let before = voices_of(&engine);
    let slot = engine.excite(220_000, ONE, &mut noise);
    assert_eq!(slot, 3);
    assert_eq!(engine.active_voices(), 8);
    let after = voices_of(&engine);
    for other in 0..MAX_VOICES {
        if other != 3 {
            assert_eq!(after[other], before[other]);
        }
    }
    assert_eq!(after[3].frequency, 220_000);
    assert_eq!(after[3].level, ONE);
    assert_eq!(after[3].delay_len, 200);
    assert_eq!(after[3].capacity, 400);
}

#[test]
fn stealing_follows_the_levels_reported_by_the_frames() {
    let mut engine = engine_init(44100);
    let mut noise = Vec::new();
    for _ in 0..8 {
        engine.excite(110_000, ONE, &mut noise);
    }
    for slot in 0..MAX_VOICES {
        let level = if slot == 5 { 10_000 } else { 20_000 + slot as u32 };
        assert!(engine.begin_voice(slot).is_some());
        engine.end_voice(slot, level);
    }
    assert_eq!(engine.active_voices(), 8);
    assert_eq!(engine.excite(110_000, ONE, &mut noise), 5);
    assert_eq!(engine.excite(110_000, ONE, &mut noise), 0);
}

#[test]
fn among_equally_quiet_voices_the_first_is_displaced() {
    let mut engine = engine_init(44100);
    let mut noise = Vec::new();
    for _ in 0..8 {
        engine.excite(110_000, 500_000_000, &mut noise);
    }
    assert_eq!(engine.excite(110_000, ONE, &mut noise), 0);
    assert_eq!(engine.excite(110_000, ONE, &mut noise), 1);
}

#[test]
fn a_faded_voice_is_taken_again_first() {
    let mut engine = engine_init(44100);
    let mut noise = Vec::new();
    for velocity in [ONE, 500_000, ONE, ONE] {
        engine.excite(110_000, velocity, &mut noise);
    }
    engine.begin_voice(1);
    engine.end_voice(1, 0);
    assert_eq!(engine.active_voices(), 3);
    assert_eq!(engine.voice(1).unwrap().active, false);
    assert_eq!(engine.excite(220_000, ONE, &mut noise), 1);
    assert_eq!(engine.excite(220_000, ONE, &mut noise), 4);
    assert_eq!(engine.active_voices(), 5);
}

#[test]
fn an_engine_without_notes_stays_still_through_a_frame() {
    let mut engine = engine_init(44100);
    let before = voices_of(&engine);
    for frame in 0..100usize {
        assert_eq!(engine.active_voices(), 0);
        assert_eq!(engine.mix_divisor(), 1);
        for slot in 0..MAX_VOICES {
            assert_eq!(engine.begin_voice(slot), None);
            engine.end_voice(slot, ONE);
        }
        assert_eq!(engine.reverb_pos(), frame);
        engine.reverb_advance();
    }
    assert_eq!(engine.noise_seed(), 1);
    assert_eq!(voices_of(&engine), before);
    assert_eq!(engine.active_voices(), 0);
}

#[test]
fn begin_voice_hands_out_the_frame_of_a_ringing_voice() {
    let mut engine = engine_init(44100);
    let mut noise = Vec::new();
    engine.excite(110_000, ONE, &mut noise);
    let mut seed = engine.noise_seed();
    let frame = engine.begin_voice(0);
    let draw = lcg_next(&mut seed);
    assert_eq!(
        frame,
        Some(VoiceFrame {
            read: 0,
            next: 1,
            frac_delay: 909_090_909,
            envelope: 56_612_903,
            coefficients: Coefficients {
                decay: 999_817_738,
                brightness: 1_000_000_000,
                dispersion: 39_209_678,
                attack_decay: 985_548_387,
                attack_shape: 489_516_129,
            },
            noise: Some(draw),
        })
    );
    assert_eq!(engine.noise_seed(), seed);
}

#[test]
fn begin_voice_follows_the_current_tone() {
    let mut engine = engine_init(44100);
    let mut noise = Vec::new();
    engine.excite(110_000, ONE, &mut noise);
    engine.set_guitar_profile(2);
    let frame = engine.begin_voice(0).unwrap();
    assert_eq!(frame.coefficients.decay, 1_000_517_598);
    assert_eq!(frame.coefficients.brightness, 650_806_452);
    engine_set_brightness(&mut engine, 0);
    let frame = engine.begin_voice(0).unwrap();
    assert_eq!(frame.coefficients.brightness, 200_806_452);
}

#[test]
fn attack_noise_stops_at_the_threshold() {
    let mut engine = engine_init(44100);
    let mut noise = Vec::new();
    engine.excite(110_000, ONE, &mut noise);
    let mut frames = 0;
    loop {
        let seed = engine.noise_seed();
        let frame = engine.begin_voice(0).unwrap();
        assert_eq!(frame.noise.is_some(), frame.envelope > 1_000_000);
        if frame.noise.is_none() {
            assert_eq!(engine.noise_seed(), seed);
            assert_eq!(frame.envelope, 989_433);
            break;
        }
        assert_ne!(engine.noise_seed(), seed);
        engine.end_voice(0, ONE);
        frames += 1;
    }
    assert_eq!(frames, 278);
}

#[test]
fn begin_voice_on_an_idle_or_missing_voice_changes_nothing() {
    let mut engine = engine_init(44100);
    let mut noise = Vec::new();
    engine.excite(110_000, ONE, &mut noise);
    let seed = engine.noise_seed();
    assert_eq!(engine.begin_voice(1), None);
    assert_eq!(engine.begin_voice(8), None);
    assert_eq!(engine.begin_voice(usize::MAX), None);
    assert_eq!(engine.noise_seed(), seed);
}

#[test]
fn end_voice_steps_a_ringing_voice() {
    let mut engine = engine_init(44100);
    let mut noise = Vec::new();
    engine.excite(110_000, ONE, &mut noise);
    let mut expected = engine.voice(0).unwrap();
    engine.end_voice(0, 777_000);
    expected.step(777_000, 985_548_387);
    assert_eq!(engine.voice(0), Some(expected));
    assert_eq!(expected.read_idx, 1);
    assert_eq!(expected.level, 777_000);
    assert_eq!(expected.envelope, 55_794_755);
    let frame = engine.begin_voice(0).unwrap();
    assert_eq!((frame.read, frame.next), (1, 2));
}

#[test]
fn end_voice_on_an_idle_or_missing_voice_changes_nothing() {
    let mut engine = engine_init(44100);
    let before = voices_of(&engine);
    engine.end_voice(0, ONE);
    engine.end_voice(8, ONE);
    engine.end_voice(usize::MAX, ONE);
    assert_eq!(voices_of(&engine), before);
}

#[test]
fn the_read_position_wraps_at_the_end_of_the_delay_line() {
    let mut engine = engine_init(44100);
    let mut noise = Vec::new();
    engine.excite(110_000, ONE, &mut noise);
    for _ in 0..399 {
        engine.end_voice(0, ONE);
    }
    let frame = engine.begin_voice(0).unwrap();
    assert_eq!((frame.read, frame.next), (399, 0));
    engine.end_voice(0, ONE);
    let frame = engine.begin_voice(0).unwrap();
    assert_eq!((frame.read, frame.next), (0, 1));
}

#[test]
fn a_soft_voice_retires_once_its_level_has_faded() {
    let mut engine = engine_init(44100);
    let mut noise = Vec::new();
    engine.excite(110_000, 500_000, &mut noise);
    assert_eq!(engine.voice(0).unwrap().envelope, 28_306);
    engine.end_voice(0, 5_000);
    assert_eq!(engine.active_voices(), 1);
    engine.end_voice(0, 4_999);
    assert_eq!(engine.active_voices(), 0);
    assert_eq!(engine.begin_voice(0), None);
    assert_eq!(engine.mix_divisor(), 1);
}

#[test]
fn a_loud_voice_rings_until_a_new_note_takes_it() {
    let mut engine = engine_init(44100);
    let mut noise = Vec::new();
    engine.excite(110_000, ONE, &mut noise);
    for _ in 0..5000 {
        engine.begin_voice(0);
        engine.end_voice(0, 0);
    }
    assert_eq!(engine.active_voices(), 1);
    assert_eq!(engine.voice(0).unwrap().envelope, 989_433);
}

#[test]
fn reverb_history_wraps_after_its_length() {
    let mut engine = engine_init(700);
    assert_eq!(engine.reverb_len(), 70);
    for frame in 0..70usize {
        assert_eq!(engine.reverb_pos(), frame);
        assert_eq!(engine.reverb_slot(0), frame);
        engine.reverb_advance();
    }
    assert_eq!(engine.reverb_pos(), 0);
}

#[test]
fn reverb_taps_read_backwards_from_the_write_position() {
    let mut engine = engine_init(700);
    engine.reverb_advance();
    engine.reverb_advance();
    assert_eq!(engine.reverb_slot(0), 2);
    assert_eq!(engine.reverb_slot(1), 1);
    assert_eq!(engine.reverb_slot(2), 0);
    assert_eq!(engine.reverb_slot(3), 69);
    assert_eq!(engine.reverb_slot(69), 3);
}

#[test]
fn a_sample_rate_of_zero_renders_silence() {
    let engine = engine_init(0);
    assert!(engine.is_silent());
    assert_eq!(engine.reverb_len(), 64);
    assert!(!engine_init(1).is_silent());
}

#[test]
fn note_at_44100_hertz_through_its_attack() {
    let mut engine = engine_init(44100);
    let mut noise = Vec::new();
    let slot = engine_note_on(&mut engine, 110_000, ONE, &mut noise);
    assert_eq!(slot, 0);
    assert_eq!(noise.len(), 400);
    let mut level: u32 = ONE;
    let mut draws = 0usize;
    for frames in 0..20_000usize {
        assert_eq!(engine.mix_divisor(), 1);
        let frame = engine.begin_voice(0).unwrap();
        assert_eq!(frame.read, frames % 400);
        assert_eq!(frame.next, (frames + 1) % 400);
        assert_eq!(frame.noise.is_some(), frames < 278);
        if frame.noise.is_some() {
            draws += 1;
        }
        level = ((level as u64 * 997) / 1000) as u32;
        engine.end_voice(0, level);
        for other in 1..MAX_VOICES {
            assert_eq!(engine.begin_voice(other), None);
        }
        assert_eq!(engine.reverb_slot(0), frames % 4410);
        engine.reverb_advance();
    }
    assert_eq!(draws, 278);
    assert_eq!(level, 0);
    let mut seed: u32 = 1;
    for _ in 0..(400 + 278) {
        lcg_next(&mut seed);
    }
    assert_eq!(engine.noise_seed(), seed);
    assert_eq!(engine.active_voices(), 1);
}
