use moonegg_core::media::{MediaDelta, MediaTime, Rounding, TimeBase, TimeError, TimeSpan, Timestamp};

#[test]
fn converts_common_time_bases_to_nanoseconds() {
    let cases = [
        (45_000, 90_000, 500_000_000),
        (44_100, 44_100, 1_000_000_000),
        (-45_000, 90_000, -500_000_000),
    ];

    for (ticks, frequency, expected_nanoseconds) in cases {
        let timestamp = Timestamp::new(ticks, TimeBase::from_hz(frequency).unwrap());
        let media_time = timestamp.to_media_time(Rounding::TowardZero).unwrap();

        assert_eq!(media_time.nanoseconds(), expected_nanoseconds);
    }
}

#[test]
fn applies_rounding_symmetrically_to_positive_and_negative_timestamps() {
    let source = TimeBase::new(1, 3).unwrap();
    let target = TimeBase::new(1, 2).unwrap();

    for (ticks, rounding, expected_ticks) in [
        (1, Rounding::TowardZero, 0),
        (-1, Rounding::TowardZero, 0),
        (1, Rounding::Nearest, 1),
        (-1, Rounding::Nearest, -1),
    ] {
        let result = Timestamp::new(ticks, source).rescale(target, rounding).unwrap();

        assert_eq!(result.ticks(), expected_ticks);
    }
}

#[test]
fn rejects_invalid_time_bases_and_reports_unrepresentable_results() {
    assert!(matches!(TimeBase::new(0, 48_000), Err(TimeError::InvalidTimeBase)));
    assert!(matches!(TimeBase::new(1, 0), Err(TimeError::InvalidTimeBase)));

    let source = TimeBase::new(u32::MAX, 1).unwrap();
    let target = TimeBase::new(1, u32::MAX).unwrap();
    let timestamp = Timestamp::new(i64::MAX, source);

    assert!(matches!(timestamp.rescale(target, Rounding::Nearest), Err(TimeError::Overflow)));
}

#[test]
fn time_base_is_reduced_to_lowest_terms() {
    let base = TimeBase::new(1_000, 48_000).unwrap();
    assert_eq!(base.numerator(), 1);
    assert_eq!(base.denominator(), 48);

    let base = TimeBase::new(6, 4).unwrap();
    assert_eq!(base.numerator(), 3);
    assert_eq!(base.denominator(), 2);
}

#[test]
fn nearest_rounding_rounds_halves_away_from_zero() {
    // 1 tick of 1/4 s is 0.5 ticks of 1/2 s.
    let source = TimeBase::new(1, 4).unwrap();
    let target = TimeBase::new(1, 2).unwrap();
    let up = Timestamp::new(1, source).rescale(target, Rounding::Nearest).unwrap();
    let down = Timestamp::new(-1, source).rescale(target, Rounding::Nearest).unwrap();
    assert_eq!(up.ticks(), 1);
    assert_eq!(down.ticks(), -1);
    let toward_zero = Timestamp::new(3, source).rescale(target, Rounding::TowardZero).unwrap();
    assert_eq!(toward_zero.ticks(), 1);
    assert_eq!(toward_zero.time_base(), target);
}

#[test]
fn rescale_to_the_same_base_keeps_the_ticks() {
    let base = TimeBase::from_hz(90_000).unwrap();
    for ticks in [-7, 0, 1, 123_456_789] {
        let result = Timestamp::new(ticks, base).rescale(base, Rounding::Nearest).unwrap();
        assert_eq!(result.ticks(), ticks);
    }
}

#[test]
fn media_time_arithmetic_reports_overflow() {
    let start = MediaTime::from_nanoseconds(1_000);
    let later = MediaTime::from_nanoseconds(4_500);
    assert_eq!(later.checked_delta(start).unwrap().nanoseconds(), 3_500);
    assert_eq!(start.checked_delta(later).unwrap().nanoseconds(), -3_500);
    assert_eq!(start.checked_add(MediaDelta::from_nanoseconds(250)).unwrap().nanoseconds(), 1_250);

    let max = MediaTime::from_nanoseconds(i64::MAX);
    assert!(matches!(max.checked_add(MediaDelta::from_nanoseconds(1)), Err(TimeError::Overflow)));
    let min = MediaTime::from_nanoseconds(i64::MIN);
    assert!(matches!(min.checked_delta(MediaTime::from_nanoseconds(1)), Err(TimeError::Overflow)));
}

#[test]
fn time_span_converts_to_whole_milliseconds() {
    let span = TimeSpan::new(44_100, TimeBase::from_hz(44_100).unwrap());
    assert_eq!(span.to_milliseconds().unwrap(), 1_000);
    let span = TimeSpan::new(1_001, TimeBase::from_hz(1_000_000).unwrap());
    assert_eq!(span.to_milliseconds().unwrap(), 1);
    let span = TimeSpan::new(u64::MAX, TimeBase::new(u32::MAX, 1).unwrap());
    assert!(matches!(span.to_milliseconds(), Err(TimeError::Overflow)));
}

#[test]
fn new_time_base_is_in_lowest_terms() {
    let half = TimeBase::new(2, 4).unwrap();
    assert_eq!((half.numerator(), half.denominator()), (1, 2));
    let base = TimeBase::new(48_000, 1_000).unwrap();
    assert_eq!((base.numerator(), base.denominator()), (48, 1));
    let coprime = TimeBase::new(9, 16).unwrap();
    assert_eq!((coprime.numerator(), coprime.denominator()), (9, 16));
}

#[test]
fn media_times_order_as_their_nanoseconds() {
    let early = MediaTime::from_nanoseconds(-5);
    let late = MediaTime::from_nanoseconds(7);
    assert!(early < late);
    assert!(late > early);
    assert!(early <= MediaTime::from_nanoseconds(-5));
    assert_eq!(early.partial_cmp(&late), Some(std::cmp::Ordering::Less));
    assert_eq!(early.cmp(&late), std::cmp::Ordering::Less);
    assert_eq!(late.max(early), late);
    assert!(MediaDelta::from_nanoseconds(-1) < MediaDelta::from_nanoseconds(0));
    assert_eq!(
        MediaDelta::from_nanoseconds(3).partial_cmp(&MediaDelta::from_nanoseconds(3)),
        Some(std::cmp::Ordering::Equal)
    );
}
