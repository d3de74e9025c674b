use std::time::{Duration, Instant};

use chrono::TimeDelta;
use timed_option::{TimedOption, TimedValue, TtlBackend, UtcTime};

fn at(secs: i64, nanos: u32) -> UtcTime {
    UtcTime::from_timestamp(secs, nanos).unwrap()
}

#[test]
fn fresh_with_positive_ttl_is_valid() {
    let t = TimedOption::<u32, Instant>::new(7, Duration::from_secs(3600));
    assert!(t.is_some());
    assert!(!t.is_none());
    assert_eq!(t.into_timed_value(), TimedValue::Valid(7));
    assert_eq!(t.into_option(), Some(7));

    let u = TimedOption::<u32, UtcTime>::new(8, TimeDelta::seconds(3600));
    assert!(u.is_some());
    assert_eq!(u.into_timed_value(), TimedValue::Valid(8));
}

#[test]
fn empty_is_absent() {
    let t = TimedOption::<u32, Instant>::empty();
    assert!(t.is_none());
    assert!(!t.is_some());
    assert_eq!(t.into_timed_value(), TimedValue::Absent);
    assert_eq!(t.into_option(), None);

    let u = TimedOption::<u32, UtcTime>::empty();
    assert!(u.is_none());
    assert_eq!(u.into_timed_value(), TimedValue::Absent);
}

#[test]
fn expire_keeps_payload_but_hides_it() {
    let mut t = TimedOption::<&str, UtcTime>::new("space_potato", TimeDelta::seconds(100_000));
    assert!(t.is_some());
    t.expire();
    assert_eq!(t.into_option(), None);
    assert_eq!(t.into_timed_value(), TimedValue::Expired("space_potato"));
    assert!(!t.is_some());
    assert!(t.is_none());
}

#[test]
fn space_potato_scenario() {
    let mut t = TimedOption::<&str, Instant>::new("space_potato", Duration::from_secs(86_400));
    assert!(t.is_some());
    t.expire();
    assert_eq!(t.into_option(), None);
    assert_eq!(t.into_timed_value(), TimedValue::Expired("space_potato"));
    assert!(!t.is_some());
    assert!(t.is_none());
}

#[test]
fn take_on_expired_returns_none_but_classification_keeps_it() {
    let mut a = TimedOption::<u32, Instant>::new(5, Duration::from_secs(3600));
    a.expire();
    let mut b = a;
    assert_eq!(a.take(), None);
    assert_eq!(a.into_timed_value(), TimedValue::Absent);
    assert_eq!(b.take_timed_value(), TimedValue::Expired(5));
    assert_eq!(b.into_option(), None);
    assert_eq!(b.take_timed_value(), TimedValue::Absent);
}

#[test]
fn take_on_live_returns_payload_and_empties() {
    let mut a = TimedOption::<u32, Instant>::new(5, Duration::from_secs(3600));
    let mut b = a;
    assert_eq!(a.take(), Some(5));
    assert!(a.is_none());
    assert_eq!(a.take(), None);
    assert_eq!(b.take_timed_value(), TimedValue::Valid(5));
    assert!(b.is_none());
}

#[test]
fn clear_reads_absent_whatever_the_expiry() {
    let mut live = TimedOption::<u32, Instant>::new(1, Duration::from_secs(3600));
    live.clear();
    assert!(live.is_none());
    assert!(!live.is_some());
    assert_eq!(live.into_option(), None);
    assert_eq!(live.into_timed_value(), TimedValue::Absent);

    let mut stale = TimedOption::<u32, Instant>::new(1, Duration::from_secs(3600));
    stale.expire();
    stale.clear();
    assert!(stale.is_none());
    assert_eq!(stale.into_timed_value(), TimedValue::Absent);
}

#[test]
fn zero_ttl_is_expired_at_once() {
    let t = TimedOption::<u32, Instant>::new(3, Duration::ZERO);
    assert!(t.is_none());
    assert!(!t.is_some());
    assert_eq!(t.into_timed_value(), TimedValue::Expired(3));

    let u = TimedOption::<u32, UtcTime>::new(3, TimeDelta::zero());
    assert!(u.is_none());
    assert_eq!(u.into_timed_value(), TimedValue::Expired(3));
}

#[test]
fn negative_ttl_is_expired_at_once() {
    let u = TimedOption::<u32, UtcTime>::new(4, TimeDelta::seconds(-30));
    assert!(u.is_none());
    assert_eq!(u.into_option(), None);
    assert_eq!(u.into_timed_value(), TimedValue::Expired(4));
}

#[test]
fn huge_ttl_saturates_instead_of_panicking() {
    let t = TimedOption::<u32, Instant>::new(9, Duration::MAX);
    assert!(t.is_some());
    assert_eq!(t.into_timed_value(), TimedValue::Valid(9));

    let u = TimedOption::<u32, UtcTime>::new(9, TimeDelta::MAX);
    assert!(u.is_some());
    assert_eq!(u.into_timed_value(), TimedValue::Valid(9));
    assert_eq!(u.into_parts().1, UtcTime::latest());
}

#[test]
fn saturation_reaches_the_latest_point() {
    let made = at(100, 0);
    let far = made.add(TimeDelta::MAX);
    assert_eq!(far, UtcTime::latest());
    assert!(!UtcTime::latest().is_after(&far));
    assert!(far.is_after(&made));

    let start = Instant::now();
    let end = start.add(Duration::MAX);
    assert!(end.is_after(&start));
    assert!(end.checked_add(Duration::from_nanos(1)).is_none());
}

#[test]
fn negative_overflow_saturates_to_the_earliest_point() {
    let made = at(100, 0);
    let early = made.add(TimeDelta::MIN);
    assert!(!early.is_after(&made));
    assert_eq!(early, UtcTime::earliest());
    assert!(!UtcTime::earliest().is_after(&early));
}

#[test]
fn clock_readings_become_utc_times() {
    assert_eq!(UtcTime::from_clock(Ok((1_500, 250))), at(1_500, 250));
    assert_eq!(UtcTime::from_clock(Ok((0, 0))), at(0, 0));
    assert_eq!(UtcTime::from_clock(Err((1, 500_000_000))), at(-2, 500_000_000));
    assert_eq!(UtcTime::from_clock(Err((3, 0))), at(-3, 0));
    assert_eq!(UtcTime::from_clock(Ok((u64::MAX, 0))), UtcTime::latest());
    assert_eq!(UtcTime::from_clock(Err((u64::MAX, 0))), UtcTime::earliest());
}

#[test]
fn empty_at_keeps_the_given_expiry() {
    let e = TimedOption::<u32, UtcTime>::empty_at(at(500, 0));
    assert_eq!(e.into_parts(), (None, at(500, 0)));
    assert!(e.is_none_at(&at(100, 0)));
    assert_eq!(e.into_timed_value_at(&at(100, 0)), TimedValue::Absent);
    let (v, _) = TimedOption::<u32, Instant>::empty().into_parts();
    assert_eq!(v, None);
}

#[test]
fn expired_at_is_the_negation_of_after() {
    assert!(at(10, 0).is_expired_at(&at(10, 0)));
    assert!(at(10, 0).is_expired_at(&at(11, 0)));
    assert!(!at(12, 0).is_expired_at(&at(11, 0)));
    let t = Instant::now();
    assert!(t.is_expired_at(&t));
    assert!(!t.add(Duration::from_secs(5)).is_expired_at(&t));
}

#[test]
fn out_of_range_timestamps_are_rejected() {
    assert!(UtcTime::from_timestamp(i64::MAX, 0).is_none());
    assert!(UtcTime::from_timestamp(i64::MIN, 0).is_none());
    let last = UtcTime::latest();
    assert!(UtcTime::from_timestamp(last.timestamp(), last.subsec_nanos()).is_some());
}

#[test]
fn readings_decide_validity() {
    let made = at(1_000, 0);
    let t = TimedOption::<&str, UtcTime>::new_at("x", TimeDelta::seconds(10), made);
    assert_eq!(t.into_timed_value_at(&made), TimedValue::Valid("x"));
    assert_eq!(t.into_timed_value_at(&at(1_009, 999_999_999)), TimedValue::Valid("x"));
    assert_eq!(t.into_timed_value_at(&at(1_010, 0)), TimedValue::Expired("x"));
    assert_eq!(t.into_option_at(&at(1_005, 0)), Some("x"));
    assert_eq!(t.into_option_at(&at(1_010, 0)), None);
    assert!(t.is_some_at(&at(1_009, 0)));
    assert!(!t.is_none_at(&at(1_009, 0)));
    assert!(!t.is_some_at(&at(2_000, 0)));
    assert!(t.is_none_at(&at(2_000, 0)));
    let (_, expiry) = t.into_parts();
    assert_eq!(expiry, at(1_010, 0));
    let later = made.add(TimeDelta::seconds(-10));
    assert_eq!(later, at(990, 0));
}

#[test]
fn sub_second_ttl_is_added_exactly() {
    let made = at(50, 900_000_000);
    let t = TimedOption::<u8, UtcTime>::new_at(1, TimeDelta::milliseconds(250), made);
    let (_, expiry) = t.into_parts();
    assert_eq!(expiry.timestamp(), 51);
    assert_eq!(expiry.subsec_nanos(), 150_000_000);
}

#[test]
fn take_at_and_take_timed_value_at() {
    let made = at(100, 0);
    let mut a = TimedOption::<u32, UtcTime>::new_at(6, TimeDelta::seconds(5), made);
    let mut b = a;
    assert_eq!(a.take_at(&at(200, 0)), None);
    assert_eq!(a.into_timed_value_at(&made), TimedValue::Absent);
    assert_eq!(b.take_timed_value_at(&at(200, 0)), TimedValue::Expired(6));
    let mut c = TimedOption::<u32, UtcTime>::new_at(6, TimeDelta::seconds(5), made);
    assert_eq!(c.take_at(&at(101, 0)), Some(6));
}

#[test]
fn expire_at_sets_the_expiry() {
    let made = at(100, 0);
    let mut a = TimedOption::<u32, UtcTime>::new_at(6, TimeDelta::seconds(500), made);
    a.expire_at(made);
    assert_eq!(a.into_timed_value_at(&made), TimedValue::Expired(6));
    assert_eq!(a.into_timed_value_at(&at(99, 0)), TimedValue::Valid(6));
}

#[test]
fn parts_round_trip_keeps_classification() {
    let made = at(100, 0);
    let live = TimedOption::<u32, UtcTime>::new_at(2, TimeDelta::seconds(60), made);
    let (v, e) = live.into_parts();
    let back = TimedOption::from_parts(v, e);
    assert_eq!(back.into_timed_value_at(&made), TimedValue::Valid(2));

    let stale = at(300, 0);
    assert_eq!(back.into_timed_value_at(&stale), TimedValue::Expired(2));
    let (v2, e2) = back.into_parts();
    assert_eq!(TimedOption::from_parts(v2, e2).into_timed_value_at(&stale), TimedValue::Expired(2));
}

#[test]
fn as_ref_views_share_expiry() {
    let t = TimedOption::<String, Instant>::new("hello".to_string(), Duration::from_secs(3600));
    assert_eq!(t.as_option(), Some(&"hello".to_string()));
    assert_eq!(t.as_timed_value(), TimedValue::Valid(&"hello".to_string()));
    assert!(t.as_ref().is_some());

    let mut e = TimedOption::<String, Instant>::new("bye".to_string(), Duration::from_secs(3600));
    e.expire();
    assert_eq!(e.as_option(), None);
    assert_eq!(e.as_timed_value(), TimedValue::Expired(&"bye".to_string()));
    assert!(e.as_ref().is_none());
}

#[test]
fn conversions_follow_the_clock() {
    let t = TimedOption::<u32, Instant>::new(11, Duration::from_secs(3600));
    let o: Option<u32> = t.into();
    assert_eq!(o, Some(11));
    let v: TimedValue<u32> = t.into();
    assert_eq!(v, TimedValue::Valid(11));

    let mut e = t;
    e.expire();
    let o: Option<u32> = Option::from(e);
    assert_eq!(o, None);
    assert_eq!(TimedValue::from(e), TimedValue::Expired(11));
}

#[test]
fn utc_points_compare_by_time() {
    assert!(at(10, 1).is_after(&at(10, 0)));
    assert!(at(11, 0).is_after(&at(10, 999_999_999)));
    assert!(!at(10, 0).is_after(&at(10, 0)));
    assert!(!at(-5, 0).is_after(&at(3, 0)));
    assert!(UtcTime::from_timestamp(0, 1_000_000_000).is_none());
    let p = at(7, 8);
    assert_eq!(p.timestamp(), 7);
    assert_eq!(p.subsec_nanos(), 8);
}

#[test]
fn clock_readings_advance() {
    let past = at(0, 0);
    assert!(UtcTime::now().is_after(&past));
    assert!(past.is_expired());
    assert!(!past.is_valid());
    let later = Instant::now() + Duration::from_secs(3600);
    assert!(later.is_valid());
    assert!(!later.is_expired());
    assert!(later.add(Duration::from_secs(1)).is_after(&later));
}
