use qorvo_blinky::ema::Ema;

#[test]
fn first_sample_is_the_average() {
    let mut ema = Ema::default();
    assert_eq!(ema.sample(1234), 1234);
    let mut ema = Ema::default();
    assert_eq!(ema.sample(-10), -10);
}

#[test]
fn average_follows_samples() {
    let mut ema = Ema::default();
    assert_eq!(ema.sample(100), 100);
    // 800 + 0 - 100 = 700
    assert_eq!(ema.sample(0), 87);
    // 700 + 0 - 87 = 613
    assert_eq!(ema.sample(0), 76);
    // 613 + 800 - 76 = 1337
    assert_eq!(ema.sample(800), 167);
}

#[test]
fn negative_averages_round_down() {
    let mut ema = Ema::default();
    assert_eq!(ema.sample(-1), -1);
    // -8 + 0 - (-1) = -7, floor(-7 / 8) = -1
    assert_eq!(ema.sample(0), -1);
    // -7 + 0 - (-1) = -6
    assert_eq!(ema.sample(0), -1);
}

#[test]
fn constant_input_is_steady() {
    let mut ema = Ema::default();
    for _ in 0..20 {
        assert_eq!(ema.sample(4691), 4691);
    }
}

#[test]
fn moves_toward_sample_without_overshoot() {
    let mut ema = Ema::default();
    let mut previous = ema.sample(5000);
    for sample in [0, 0, 10_000, 10_000, 10_000, -3000, 2500, 2500] {
        let updated = ema.sample(sample);
        let (low, high) = if previous <= sample { (previous, sample) } else { (sample, previous) };
        assert!(low <= updated && updated <= high);
        previous = updated;
    }
}

#[test]
fn first_sample_shift_wraps() {
    // Shifting a huge first sample loses its high bits, as in the firmware.
    let mut ema = Ema::default();
    assert_eq!(ema.sample(i64::MAX), -1);
}

#[test]
fn overflow_is_detected_before_sampling() {
    let mut ema = Ema::default();
    assert!(ema.can_sample(i64::MAX));
    ema.sample(1 << 59);
    assert!(ema.can_sample(1 << 59));
    assert!(!ema.can_sample(i64::MAX));
    let mut low = Ema::default();
    low.sample(-(1 << 59));
    assert!(!low.can_sample(i64::MIN));
}

#[test]
fn average_stays_within_samples_seen() {
    let samples: [i64; 12] = [500, -300, 12_000, 7, 7, -9_999, 0, 1 << 40, -(1 << 41), 3, 3, 3];
    let mut ema = Ema::default();
    let (mut low, mut high) = (i64::MAX, i64::MIN);
    for sample in samples {
        low = low.min(sample);
        high = high.max(sample);
        assert!(ema.is_bounded());
        assert!(ema.can_sample(sample));
        let average = ema.sample(sample);
        assert!(low <= average && average <= high);
    }
}

#[test]
fn small_samples_keep_average_bounded() {
    let big = (1_i64 << 59) - 1;
    let mut ema = Ema::default();
    for sample in [big, big, -big, big, -big, -big, -big, big] {
        assert!(ema.is_bounded());
        assert!(ema.can_sample(sample));
        ema.sample(sample);
    }
    assert!(ema.is_bounded());
}

#[test]
fn scaled_average_recurrence() {
    // S1 = 8 x1, S(k+1) = Sk + x(k+1) - (Sk >> 3), output Sk >> 3.
    let samples: [i64; 6] = [40, -17, 1000, 1000, -5, 64];
    let mut ema = Ema::default();
    let mut scaled: Option<i64> = None;
    for x in samples {
        let next = match scaled {
            Some(s) => s + x - (s >> 3),
            None => 8 * x,
        };
        scaled = Some(next);
        assert_eq!(ema.sample(x), next >> 3);
    }
}

#[test]
fn constant_samples_never_drift() {
    for c in [0_i64, 1, -1, 7, -9, 4691, (1 << 59) - 1, -(1 << 59)] {
        let mut ema = Ema::default();
        for _ in 0..50 {
            assert_eq!(ema.sample(c), c);
        }
    }
}
