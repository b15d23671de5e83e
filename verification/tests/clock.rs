use ocpp_session::clock::duration_until;
use ocpp_session::clock::get_utc;
use ocpp_session::clock::now_to_duration;
use ocpp_session::clock::since_epoch;
use ocpp_session::clock::unix_time;
use ocpp_session::clock::utc_of;
use ocpp_session::clock::Span;
use ocpp_session::clock::Timestamp;
use ocpp_session::clock::NANOS_PER_SEC;
use ocpp_session::clock::TIMESTAMP_SECS_BOUND;
use ocpp_session::error::OcppError;

fn chrono_gap(date: Timestamp, now: Timestamp) -> Option<(u64, u32)> {
    let date = chrono::DateTime::from_timestamp(date.secs, date.nanos).unwrap();
    let now = chrono::DateTime::from_timestamp(now.secs, now.nanos).unwrap();
    match (date - now).to_std() {
        Ok(span) => Some((span.as_secs(), span.subsec_nanos())),
        Err(_) => None,
    }
}

#[test]
fn duration_until_subtracts_exactly() {
    let date = Timestamp { secs: 100, nanos: 5 };
    let now = Timestamp { secs: 90, nanos: 500_000_000 };
    assert_eq!(duration_until(date, now), Ok(Span { secs: 9, nanos: 500_000_005 }));
}

#[test]
fn duration_until_same_instant_is_zero() {
    let at = Timestamp { secs: 1_700_000_000, nanos: 123 };
    assert_eq!(duration_until(at, at), Ok(Span { secs: 0, nanos: 0 }));
    assert_eq!(Span::zero(), Span { secs: 0, nanos: 0 });
}

#[test]
fn duration_until_past_date_is_refused() {
    let date = Timestamp { secs: 90, nanos: 500_000_000 };
    let now = Timestamp { secs: 100, nanos: 5 };
    assert_eq!(duration_until(date, now), Err(OcppError::DurationOutOfRange));
    let just_before = Timestamp { secs: 100, nanos: 4 };
    assert_eq!(duration_until(just_before, now), Err(OcppError::DurationOutOfRange));
}

#[test]
fn duration_until_across_the_epoch() {
    let date = Timestamp { secs: 1, nanos: 0 };
    let now = Timestamp { secs: -2, nanos: 250_000_000 };
    assert_eq!(duration_until(date, now), Ok(Span { secs: 2, nanos: 750_000_000 }));
}

#[test]
fn duration_until_refuses_what_is_out_of_reach() {
    let ok = Timestamp { secs: 10, nanos: 0 };
    let garbled = Timestamp { secs: 59, nanos: 2_000_000_000 };
    let far = Timestamp { secs: TIMESTAMP_SECS_BOUND + 1, nanos: 0 };
    let far_leap = Timestamp { secs: TIMESTAMP_SECS_BOUND, nanos: NANOS_PER_SEC };
    let early = Timestamp { secs: -TIMESTAMP_SECS_BOUND - 1, nanos: 0 };
    assert_eq!(duration_until(garbled, ok), Err(OcppError::DurationOutOfRange));
    assert_eq!(duration_until(far, ok), Err(OcppError::DurationOutOfRange));
    assert_eq!(duration_until(far_leap, ok), Err(OcppError::DurationOutOfRange));
    assert_eq!(duration_until(ok, early), Err(OcppError::DurationOutOfRange));
    assert_eq!(garbled.normalize(), None);
    assert_eq!(far.normalize(), None);
    assert_eq!(far_leap.normalize(), None);
    assert_eq!(early.normalize(), None);
    assert!(!far.is_representable());
    assert!(!early.is_representable());
    assert!(ok.is_representable());
    assert_eq!(ok.normalize(), Some(ok));
}

#[test]
fn leap_second_counts_as_the_second_after() {
    let leap = Timestamp { secs: 59, nanos: 1_500_000_000 };
    assert!(!leap.is_representable());
    assert_eq!(leap.normalize(), Some(Timestamp { secs: 60, nanos: 500_000_000 }));
    let now = Timestamp { secs: 10, nanos: 0 };
    assert_eq!(duration_until(leap, now), Ok(Span { secs: 50, nanos: 500_000_000 }));
    assert_eq!(duration_until(now, leap), Err(OcppError::DurationOutOfRange));
    let before_reach = Timestamp { secs: -TIMESTAMP_SECS_BOUND - 1, nanos: NANOS_PER_SEC };
    assert_eq!(
        before_reach.normalize(),
        Some(Timestamp { secs: -TIMESTAMP_SECS_BOUND, nanos: 0 })
    );
}

#[test]
fn leap_second_agrees_with_chrono_within_the_day() {
    // 2015-06-30 23:59:60.5 seen from 23:00:00 of that day.
    let day = 1_435_622_400;
    let leap = Timestamp { secs: day + 86_399, nanos: 1_500_000_000 };
    let now = Timestamp { secs: day + 82_800, nanos: 0 };
    assert_eq!(chrono_gap(leap, now), Some((3600, 500_000_000)));
    assert_eq!(duration_until(leap, now), Ok(Span { secs: 3600, nanos: 500_000_000 }));
}

#[test]
fn epoch_is_instant_zero() {
    assert_eq!(Timestamp::epoch(), Timestamp { secs: 0, nanos: 0 });
    assert_eq!(Timestamp::epoch().normalize(), Some(Timestamp::epoch()));
}

#[test]
fn utc_of_each_reading() {
    assert_eq!(
        utc_of(Some(Span { secs: 1_700_000_000, nanos: 999_999_999 })),
        Ok(Timestamp { secs: 1_700_000_000, nanos: 999_999_999 })
    );
    assert_eq!(utc_of(Some(Span { secs: 0, nanos: 0 })), Ok(Timestamp { secs: 0, nanos: 0 }));
    assert_eq!(
        utc_of(Some(Span { secs: 8_000_000_000_000, nanos: 1 })),
        Ok(Timestamp { secs: TIMESTAMP_SECS_BOUND, nanos: 1 })
    );
    assert_eq!(utc_of(None), Err(OcppError::ClockBeforeEpoch));
    assert_eq!(
        utc_of(Some(Span { secs: 8_000_000_000_001, nanos: 0 })),
        Err(OcppError::ClockOutOfRange)
    );
    assert_eq!(utc_of(Some(Span { secs: u64::MAX, nanos: 0 })), Err(OcppError::ClockOutOfRange));
    assert_eq!(
        utc_of(Some(Span { secs: 5, nanos: NANOS_PER_SEC })),
        Err(OcppError::ClockOutOfRange)
    );
}

#[test]
fn duration_until_at_the_bounds() {
    let last = Timestamp { secs: TIMESTAMP_SECS_BOUND, nanos: NANOS_PER_SEC - 1 };
    let first = Timestamp { secs: -TIMESTAMP_SECS_BOUND, nanos: 0 };
    assert!(last.is_representable());
    assert!(first.is_representable());
    assert_eq!(
        duration_until(last, first),
        Ok(Span { secs: 16_000_000_000_000, nanos: 999_999_999 })
    );
    assert_eq!(duration_until(first, last), Err(OcppError::DurationOutOfRange));
}

#[test]
fn duration_until_agrees_with_chrono() {
    let instants = vec![
        Timestamp { secs: 0, nanos: 0 },
        Timestamp { secs: 1_431_648_000, nanos: 0 },
        Timestamp { secs: 1_431_648_000, nanos: 999_999_999 },
        Timestamp { secs: 1_431_648_001, nanos: 1 },
        Timestamp { secs: -86_401, nanos: 7 },
        Timestamp { secs: 4_102_444_800, nanos: 500 },
    ];
    for date in instants.iter() {
        for now in instants.iter() {
            let expected = match chrono_gap(*date, *now) {
                Some((secs, nanos)) => Ok(Span { secs, nanos }),
                None => Err(OcppError::DurationOutOfRange),
            };
            assert_eq!(duration_until(*date, *now), expected);
        }
    }
}

#[test]
fn get_utc_reads_a_plausible_time() {
    let now = get_utc().unwrap();
    assert!(now.nanos < NANOS_PER_SEC);
    assert!(now.secs > 1_600_000_000);
    assert!(now.is_representable());
    let later = get_utc().unwrap();
    assert!((later.secs, later.nanos) >= (now.secs, now.nanos));
}

#[test]
fn now_to_duration_of_a_future_date() {
    let now = get_utc().unwrap();
    let date = Timestamp { secs: now.secs + 3600, nanos: now.nanos };
    let span = now_to_duration(date).unwrap();
    assert!(span.secs <= 3600);
    assert!(span.secs >= 3590);
    assert!(span.nanos < NANOS_PER_SEC);
}

#[test]
fn now_to_duration_of_a_past_date_fails() {
    let date = Timestamp { secs: 1_000_000_000, nanos: 0 };
    assert_eq!(now_to_duration(date), Err(OcppError::DurationOutOfRange));
}

#[test]
fn now_to_duration_of_an_unrepresentable_date_fails() {
    let date = Timestamp { secs: TIMESTAMP_SECS_BOUND + 1, nanos: 0 };
    assert_eq!(now_to_duration(date), Err(OcppError::DurationOutOfRange));
    let garbled = Timestamp { secs: 5, nanos: 2_000_000_000 };
    assert_eq!(now_to_duration(garbled), Err(OcppError::DurationOutOfRange));
}

#[test]
fn now_to_duration_of_a_future_leap_second() {
    let now = get_utc().unwrap();
    let minute = now.secs - now.secs % 60;
    let date = Timestamp { secs: minute + 3659, nanos: 1_250_000_000 };
    let span = now_to_duration(date).unwrap();
    assert!(span.secs >= 3590 && span.secs <= 3661);
}

#[test]
fn unix_time_agrees_with_get_utc() {
    let span = unix_time().unwrap();
    let now = get_utc().unwrap();
    assert!(span.nanos < NANOS_PER_SEC);
    assert!(span.secs as i64 <= now.secs);
    assert!(now.secs - (span.secs as i64) < 60);
}

#[test]
fn since_epoch_of_each_reading() {
    let span = Span { secs: 1_700_000_000, nanos: 999_999_999 };
    assert_eq!(since_epoch(Some(span)), Ok(span));
    assert_eq!(since_epoch(Some(Span { secs: 0, nanos: 0 })), Ok(Span { secs: 0, nanos: 0 }));
    assert_eq!(since_epoch(None), Err(OcppError::ClockBeforeEpoch));
}
