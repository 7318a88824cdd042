use ntscloom_core::artifacts::{
    draw_dropout, draw_head_switch, draw_line, draw_sample, draw_timebase, ArtifactSwitches, SampleNoise,
};
use ntscloom_core::dsp::SimpleRng;

struct Reference {
    state: u32,
}

impl Reference {
    fn next_f32(&mut self) -> f32 {
        self.state = self.state.wrapping_mul(1664525).wrapping_add(1013904223);
        f32::from_bits((self.state >> 9) | 0x3f80_0000) - 1.0
    }

    fn next_signed(&mut self) -> f32 {
        self.next_f32() * 2.0 - 1.0
    }
}

fn as_float(numerator: i32) -> f32 {
    numerator as f32 / 8388608.0
}

fn threshold_for(rate: f32) -> u32 {
    let scaled = (rate * 8388608.0).ceil();
    if scaled >= 8388608.0 {
        8388608
    } else if scaled > 0.0 {
        scaled as u32
    } else {
        0
    }
}

fn quiet() -> ArtifactSwitches {
    ArtifactSwitches {
        horizontal_tbc_enabled: false,
        head_switch_enabled: false,
        head_switch_start: 0,
        dropout_enabled: false,
        dropout_threshold: 0,
        dropout_run: 1,
    }
}

#[test]
fn quiet_sample_draws_only_the_pll_noise() {
    let mut rng = SimpleRng::new(0);
    let mut remaining = 3usize;
    let noise = draw_sample(&mut rng, &mut remaining, &quiet(), 0, 10);
    assert_eq!(
        noise,
        SampleNoise { timebase: None, pll: 2 * 1980281 - 8388608, head_switch: None, dropout: None }
    );
    assert_eq!(remaining, 3);
    let mut fresh = SimpleRng::new(0);
    fresh.next_f32();
    assert_eq!(rng.next_f32(), fresh.next_f32());
}

#[test]
fn timebase_draw_follows_its_switch() {
    let mut rng = SimpleRng::new(1);
    let mut switches = quiet();
    assert_eq!(draw_timebase(&mut rng, &switches), None);
    switches.horizontal_tbc_enabled = true;
    let mut reference = SimpleRng::new(1);
    assert_eq!(draw_timebase(&mut rng, &switches), Some(reference.next_signed()));
}

#[test]
fn head_switch_band_starts_at_its_line() {
    let mut switches = quiet();
    switches.head_switch_enabled = true;
    switches.head_switch_start = 60;
    let mut rng = SimpleRng::new(2);
    let mut reference = SimpleRng::new(2);
    assert_eq!(draw_head_switch(&mut rng, &switches, 59, 64), None);
    assert_eq!(draw_head_switch(&mut rng, &switches, 60, 64), Some(reference.next_signed()));
    assert_eq!(draw_head_switch(&mut rng, &switches, 63, 64), Some(reference.next_signed()));
    assert_eq!(draw_head_switch(&mut rng, &switches, 63, 0), None);
    switches.head_switch_enabled = false;
    assert_eq!(draw_head_switch(&mut rng, &switches, 63, 64), None);
    assert_eq!(rng.next_f32(), reference.next_f32());
}

#[test]
fn dropout_never_starts_at_threshold_zero() {
    let mut rng = SimpleRng::new(3);
    let mut reference = SimpleRng::new(3);
    let mut remaining = 0usize;
    for _ in 0..500 {
        assert_eq!(draw_dropout(&mut rng, &mut remaining, 0, 4), None);
        assert_eq!(remaining, 0);
        reference.next_f32();
    }
    assert_eq!(rng.next_f32(), reference.next_f32());
}

#[test]
fn dropout_always_starts_at_full_threshold() {
    let mut rng = SimpleRng::new(4);
    let mut remaining = 0usize;
    let mut reference = SimpleRng::new(4);
    reference.next_f32();
    assert_eq!(draw_dropout(&mut rng, &mut remaining, 8388608, 3), Some(reference.next_signed()));
    assert_eq!(remaining, 2);
    assert_eq!(draw_dropout(&mut rng, &mut remaining, 8388608, 3), Some(reference.next_signed()));
    assert_eq!(remaining, 1);
    assert_eq!(draw_dropout(&mut rng, &mut remaining, 8388608, 3), Some(reference.next_signed()));
    assert_eq!(remaining, 0);
    reference.next_f32();
    assert_eq!(draw_dropout(&mut rng, &mut remaining, 8388608, 3), Some(reference.next_signed()));
    assert_eq!(remaining, 2);
}

#[test]
fn dropout_run_of_one_returns_to_idle_at_once() {
    let mut rng = SimpleRng::new(5);
    let mut remaining = 0usize;
    assert!(draw_dropout(&mut rng, &mut remaining, 8388608, 1).is_some());
    assert_eq!(remaining, 0);
}

#[test]
fn dropout_run_continues_whatever_the_threshold() {
    let mut rng = SimpleRng::new(6);
    let mut reference = SimpleRng::new(6);
    let mut remaining = 2usize;
    assert_eq!(draw_dropout(&mut rng, &mut remaining, 0, 9), Some(reference.next_signed()));
    assert_eq!(remaining, 1);
    assert_eq!(draw_dropout(&mut rng, &mut remaining, 0, 9), Some(reference.next_signed()));
    assert_eq!(remaining, 0);
    assert_eq!(draw_dropout(&mut rng, &mut remaining, 0, 9), None);
}

#[test]
fn dropout_matches_the_rate_comparison() {
    for rate in [0.0f32, 0.02, 0.08, 0.5, 1.0, 1.5, -0.25] {
        let length = 0.03f32;
        let run = (length.max(0.0) * 100.0) as usize + 1;
        assert_eq!(run, 4);
        let mut rng = SimpleRng::new(0x1a2b3c4d);
        let mut remaining = 0usize;
        let mut reference = Reference { state: 0x1a2b3c4d };
        let mut expected_remaining = 0usize;
        for _ in 0..5000 {
            let mut expected = None;
            if expected_remaining == 0 && reference.next_f32() < rate {
                expected_remaining = run;
            }
            if expected_remaining > 0 {
                expected = Some(reference.next_signed());
                expected_remaining -= 1;
            }
            let noise = draw_dropout(&mut rng, &mut remaining, threshold_for(rate), run);
            assert_eq!(noise.map(as_float), expected);
            assert_eq!(remaining, expected_remaining);
        }
    }
}

#[test]
fn sample_draws_in_the_fixed_order() {
    let switches = ArtifactSwitches {
        horizontal_tbc_enabled: true,
        head_switch_enabled: true,
        head_switch_start: 0,
        dropout_enabled: true,
        dropout_threshold: 8388608,
        dropout_run: 2,
    };
    let mut rng = SimpleRng::new(11);
    let mut remaining = 0usize;
    let noise = draw_sample(&mut rng, &mut remaining, &switches, 0, 1);
    let mut reference = SimpleRng::new(11);
    let timebase = reference.next_signed();
    let pll = reference.next_signed();
    let head_switch = reference.next_signed();
    reference.next_f32();
    let dropout = reference.next_signed();
    assert_eq!(
        noise,
        SampleNoise {
            timebase: Some(timebase),
            pll,
            head_switch: Some(head_switch),
            dropout: Some(dropout),
        }
    );
    assert_eq!(remaining, 1);
    assert_eq!(rng.next_f32(), reference.next_f32());
}

#[test]
fn line_is_its_samples_in_order() {
    let switches = ArtifactSwitches {
        horizontal_tbc_enabled: true,
        head_switch_enabled: true,
        head_switch_start: 3,
        dropout_enabled: true,
        dropout_threshold: threshold_for(0.02),
        dropout_run: 4,
    };
    let mut rng = SimpleRng::new(0x1234abcd);
    let mut remaining = 0usize;
    let mut single = SimpleRng::new(0x1234abcd);
    let mut single_remaining = 0usize;
    for y in 0..6usize {
        let track = draw_line(&mut rng, &mut remaining, &switches, y, 6, 40);
        assert_eq!(track.len(), 40);
        for noise in track {
            assert_eq!(noise, draw_sample(&mut single, &mut single_remaining, &switches, y, 6));
            assert_eq!(noise.head_switch.is_some(), y >= 3);
            assert!(noise.timebase.is_some());
        }
        assert_eq!(remaining, single_remaining);
    }
    assert_eq!(rng.next_f32(), single.next_f32());
}

#[test]
fn empty_line_draws_nothing() {
    let mut rng = SimpleRng::new(8);
    let mut remaining = 5usize;
    let track = draw_line(&mut rng, &mut remaining, &quiet(), 0, 1, 0);
    assert!(track.is_empty());
    assert_eq!(remaining, 5);
    let mut fresh = SimpleRng::new(8);
    assert_eq!(rng.next_f32(), fresh.next_f32());
}

#[test]
fn same_inputs_give_the_same_noise() {
    let switches = ArtifactSwitches {
        horizontal_tbc_enabled: true,
        head_switch_enabled: true,
        head_switch_start: 60,
        dropout_enabled: true,
        dropout_threshold: threshold_for(0.02),
        dropout_run: 4,
    };
    let mut first = SimpleRng::new(0x1a2b3c4d);
    let mut second = SimpleRng::new(0x1a2b3c4d);
    let mut first_remaining = 0usize;
    let mut second_remaining = 0usize;
    for y in 0..64usize {
        let a = draw_line(&mut first, &mut first_remaining, &switches, y, 64, 128);
        let b = draw_line(&mut second, &mut second_remaining, &switches, y, 64, 128);
        assert_eq!(a, b);
    }
    assert_eq!(first_remaining, second_remaining);
}

#[test]
fn dropout_run_persists_across_lines() {
    let mut switches = quiet();
    switches.dropout_enabled = true;
    switches.dropout_threshold = 0;
    switches.dropout_run = 10;
    let mut rng = SimpleRng::new(9);
    let mut remaining = 5usize;
    let first = draw_line(&mut rng, &mut remaining, &switches, 0, 2, 3);
    assert!(first.iter().all(|noise| noise.dropout.is_some()));
    assert_eq!(remaining, 2);
    let second = draw_line(&mut rng, &mut remaining, &switches, 1, 2, 3);
    assert!(second[0].dropout.is_some());
    assert!(second[1].dropout.is_some());
    assert!(second[2].dropout.is_none());
    assert_eq!(remaining, 0);
}
