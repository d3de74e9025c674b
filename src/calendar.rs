//! The UTC calendar clock of chrono as a `TtlBackend`.
use vstd::prelude::*;

use crate::backend::TtlBackend;
use chrono::DateTime;
use chrono::TimeDelta;
use chrono::Utc;
use crate::monotonic::duration_len;
use std::time::Duration;
use std::time::SystemTime;

verus! {

#[verifier::external_type_specification]
#[verifier::external_body]
pub struct ExTimeDelta(chrono::TimeDelta);

#[verifier::external_type_specification]
#[verifier::external_body]
pub struct ExSystemTime(std::time::SystemTime);

/// Nanoseconds in one second.
pub const NANOS_PER_SEC: u32 = 1_000_000_000;

/// A UTC date and time that chrono can represent, as whole seconds since the
/// Unix epoch and the nanoseconds within that second.
#[derive(Debug, Copy, Clone, PartialEq, Eq)]
pub struct UtcTime {
    secs: i64,
    nanos: u32,
}

/// Signed length of a `TimeDelta`, in nanoseconds.
pub uninterp spec fn delta_len(d: TimeDelta) -> int;

/// What `DateTime::from_timestamp(secs, nanos).is_some()` returns.
pub uninterp spec fn utc_valid(secs: i64, nanos: u32) -> bool;

/// What `DateTime::checked_add_signed` returns for the date and time at
/// `secs` and `nanos`, as seconds and nanoseconds again.
pub uninterp spec fn utc_plus(secs: i64, nanos: u32, d: TimeDelta) -> Option<(i64, u32)>;

/// Nanoseconds since the Unix epoch of `secs` seconds and `nanos`
/// nanoseconds.
pub open spec fn nanos_since_epoch(secs: int, nanos: int) -> int {
    secs * NANOS_PER_SEC + nanos
}

/// Seconds part of the date and time `s` seconds and `n` nanoseconds before
/// the Unix epoch.
pub open spec fn before_secs(s: u64, n: u32) -> i64 {
    (if n > 0 {
        -(s as int) - 1
    } else {
        -(s as int)
    }) as i64
}

/// Nanoseconds part of the date and time `n` nanoseconds (and whole seconds)
/// before the Unix epoch.
pub open spec fn before_nanos(n: u32) -> u32 {
    (if n > 0 {
        NANOS_PER_SEC - n
    } else {
        0
    }) as u32
}

/// Relies on `SystemTime::now`; nothing is known of the reading it returns.
#[verifier::external_body]
fn system_now() -> (r: SystemTime) {
    SystemTime::now()
}

/// Relies on `SystemTime::duration_since` against `UNIX_EPOCH`: `Ok` with the
/// distance when `t` is at or after the epoch, else `Err` with the distance
/// that `SystemTimeError::duration` gives.
#[verifier::external_body]
fn since_epoch(t: SystemTime) -> (r: Result<Duration, Duration>) {
    match t.duration_since(SystemTime::UNIX_EPOCH) {
        Ok(d) => Ok(d),
        Err(e) => Err(e.duration()),
    }
}

/// Relies on `Duration::as_secs`: the whole seconds.
#[verifier::external_body]
fn duration_secs(d: &Duration) -> (r: u64)
    ensures
        r == duration_len(*d) / (NANOS_PER_SEC as nat),
{
    d.as_secs()
}

/// Relies on `Duration::subsec_nanos`: the nanoseconds under one second.
#[verifier::external_body]
fn duration_subsec(d: &Duration) -> (r: u32)
    ensures
        r == duration_len(*d) % (NANOS_PER_SEC as nat),
{
    d.subsec_nanos()
}

/// Relies on `DateTime::from_timestamp`: whether chrono can represent the
/// date and time.
#[verifier::external_body]
fn utc_in_range(secs: i64, nanos: u32) -> (r: bool)
    ensures
        r == utc_valid(secs, nanos),
{
    DateTime::from_timestamp(secs, nanos).is_some()
}

/// Relies on `DateTime::<Utc>::MAX_UTC`: the latest date and time chrono can
/// represent; no positive `TimeDelta` can be added to it.
#[verifier::external_body]
fn utc_latest() -> (r: (i64, u32))
    ensures
        r.1 < NANOS_PER_SEC,
        utc_valid(r.0, r.1),
        forall|s: i64, n: u32|
            #[trigger] utc_valid(s, n) && n < NANOS_PER_SEC ==> nanos_since_epoch(s as int, n as int)
                <= nanos_since_epoch(r.0 as int, r.1 as int),
        forall|d: TimeDelta| delta_len(d) > 0 ==> #[trigger] utc_plus(r.0, r.1, d) is None,
{
    let t = DateTime::<Utc>::MAX_UTC;
    (t.timestamp(), t.timestamp_subsec_nanos())
}

/// Relies on `DateTime::<Utc>::MIN_UTC`: the earliest date and time chrono
/// can represent; no negative `TimeDelta` can be added to it.
#[verifier::external_body]
fn utc_earliest() -> (r: (i64, u32))
    ensures
        r.1 < NANOS_PER_SEC,
        utc_valid(r.0, r.1),
        forall|s: i64, n: u32|
            #[trigger] utc_valid(s, n) && n < NANOS_PER_SEC ==> nanos_since_epoch(s as int, n as int)
                >= nanos_since_epoch(r.0 as int, r.1 as int),
        forall|d: TimeDelta| delta_len(d) < 0 ==> #[trigger] utc_plus(r.0, r.1, d) is None,
{
    let t = DateTime::<Utc>::MIN_UTC;
    (t.timestamp(), t.timestamp_subsec_nanos())
}

/// Relies on `DateTime::from_timestamp` and `DateTime::checked_add_signed`:
/// `None` when either date and time is out of range; else a date and time,
/// outside any leap second, that lies exactly `d` away.
#[verifier::external_body]
fn utc_checked_add(secs: i64, nanos: u32, d: TimeDelta) -> (r: Option<(i64, u32)>)
    ensures
        r == utc_plus(secs, nanos, d),
        nanos < NANOS_PER_SEC ==> (r matches Some(u) ==> u.1 < NANOS_PER_SEC && utc_valid(u.0, u.1)
            && nanos_since_epoch(u.0 as int, u.1 as int) == nanos_since_epoch(
            secs as int,
            nanos as int,
        ) + delta_len(d)),
{
    match DateTime::from_timestamp(secs, nanos) {
        Some(t) => match t.checked_add_signed(d) {
            Some(u) => Some((u.timestamp(), u.timestamp_subsec_nanos())),
            None => None,
        },
        None => None,
    }
}

/// Relies on `TimeDelta`'s `<` against `TimeDelta::zero`.
#[verifier::external_body]
fn delta_negative(d: &TimeDelta) -> (r: bool)
    ensures
        r == (delta_len(*d) < 0),
{
    *d < TimeDelta::zero()
}

/// Relies on `TimeDelta`'s `>` against `TimeDelta::zero`.
#[verifier::external_body]
fn delta_positive(d: &TimeDelta) -> (r: bool)
    ensures
        r == (delta_len(*d) > 0),
{
    *d > TimeDelta::zero()
}

impl UtcTime {
    /// The seconds part.
    pub closed spec fn secs_spec(&self) -> i64 {
        self.secs
    }

    /// The nanoseconds part.
    pub closed spec fn nanos_spec(&self) -> u32 {
        self.nanos
    }

    #[verifier::type_invariant]
    spec fn inv(self) -> bool {
        self.nanos < NANOS_PER_SEC && utc_valid(self.secs, self.nanos)
    }

    /// The date and time `secs` seconds and `nanos` nanoseconds after the
    /// Unix epoch; `None` unless `nanos` is under one second and chrono can
    /// represent the date and time.
    pub fn from_timestamp(secs: i64, nanos: u32) -> (r: Option<UtcTime>)
        ensures
            r is Some <==> nanos < NANOS_PER_SEC && utc_valid(secs, nanos),
            r matches Some(t) ==> t.secs_spec() == secs && t.nanos_spec() == nanos,
    {
        if nanos < NANOS_PER_SEC && utc_in_range(secs, nanos) {
            Some(UtcTime { secs, nanos })
        } else {
            None
        }
    }

    /// The latest date and time that can be represented.
    pub fn latest() -> (r: UtcTime)
        ensures
            r.latest(),
    {
        let (secs, nanos) = utc_latest();
        UtcTime { secs, nanos }
    }

    /// The earliest date and time that can be represented.
    pub fn earliest() -> (r: UtcTime)
        ensures
            r.earliest(),
    {
        let (secs, nanos) = utc_earliest();
        UtcTime { secs, nanos }
    }

    /// The date and time of a reading of the system clock, given as its
    /// distance from the Unix epoch: `Ok` at or after it, `Err` before it.
    /// A reading outside the range that can be represented is clamped to the
    /// nearer end of it.
    pub fn from_clock(c: Result<(u64, u32), (u64, u32)>) -> (r: UtcTime)
        ensures
            match c {
                Ok((s, n)) => if s <= i64::MAX && n < NANOS_PER_SEC && utc_valid(s as i64, n) {
                    r.secs_spec() == s && r.nanos_spec() == n
                } else {
                    r.latest()
                },
                Err((s, n)) => if s <= i64::MAX && n < NANOS_PER_SEC && utc_valid(
                    before_secs(s, n),
                    before_nanos(n),
                ) {
                    r.tick() == -(s * NANOS_PER_SEC + n)
                } else {
                    r.earliest()
                },
            },
    {
        match c {
            Ok((s, n)) => {
                if s <= i64::MAX as u64 && n < NANOS_PER_SEC && utc_in_range(s as i64, n) {
                    UtcTime { secs: s as i64, nanos: n }
                } else {
                    Self::latest()
                }
            },
            Err((s, n)) => {
                if s <= i64::MAX as u64 && n < NANOS_PER_SEC {
                    let secs: i64 = if n > 0 {
                        -(s as i64) - 1
                    } else {
                        -(s as i64)
                    };
                    let nanos: u32 = if n > 0 {
                        NANOS_PER_SEC - n
                    } else {
                        0
                    };
                    assert(secs == before_secs(s, n) && nanos == before_nanos(n));
                    if utc_in_range(secs, nanos) {
                        return UtcTime { secs, nanos };
                    }
                }
                Self::earliest()
            },
        }
    }

    /// The current reading of the system clock, clamped to the range that
    /// can be represented.
    pub fn now() -> (r: UtcTime) {
        let reading = match since_epoch(system_now()) {
            Ok(d) => Ok((duration_secs(&d), duration_subsec(&d))),
            Err(d) => Err((duration_secs(&d), duration_subsec(&d))),
        };
        Self::from_clock(reading)
    }

    /// Whole seconds since the Unix epoch.
    pub fn timestamp(&self) -> (r: i64)
        ensures
            r == self.secs_spec(),
    {
        self.secs
    }

    /// Nanoseconds within the second.
    pub fn subsec_nanos(&self) -> (r: u32)
        ensures
            r == self.nanos_spec(),
            r < NANOS_PER_SEC,
    {
        proof {
            use_type_invariant(self);
        }
        self.nanos
    }
}

impl TtlBackend for UtcTime {
    type Duration = TimeDelta;

    open spec fn tick(&self) -> int {
        nanos_since_epoch(self.secs_spec() as int, self.nanos_spec() as int)
    }

    open spec fn span(dt: TimeDelta) -> int {
        delta_len(dt)
    }

    open spec fn fits(&self, dt: TimeDelta) -> bool {
        utc_plus(self.secs_spec(), self.nanos_spec(), dt) is Some
    }

    open spec fn latest(&self) -> bool {
        forall|d: TimeDelta| delta_len(d) > 0 ==> #[trigger] utc_plus(self.secs_spec(), self.nanos_spec(), d) is None
    }

    open spec fn earliest(&self) -> bool {
        forall|d: TimeDelta| delta_len(d) < 0 ==> #[trigger] utc_plus(self.secs_spec(), self.nanos_spec(), d) is None
    }

    fn now() -> UtcTime {
        UtcTime::now()
    }

    fn expired() -> UtcTime {
        UtcTime::now()
    }

    /// Saturates: past the latest date and time that can be represented the
    /// result is that date and time, before the earliest it is the earliest.
    /// A zero delta that cannot be added leaves `self` as it is.
    fn add(self, dt: TimeDelta) -> (r: UtcTime) {
        proof {
            use_type_invariant(&self);
        }
        match utc_checked_add(self.secs, self.nanos, dt) {
            Some((secs, nanos)) => UtcTime { secs, nanos },
            None => {
                if delta_positive(&dt) {
                    let (secs, nanos) = utc_latest();
                    assert(utc_valid(self.secs, self.nanos));
                    UtcTime { secs, nanos }
                } else if delta_negative(&dt) {
                    let (secs, nanos) = utc_earliest();
                    assert(utc_valid(self.secs, self.nanos));
                    UtcTime { secs, nanos }
                } else {
                    self
                }
            },
        }
    }

    fn is_after(&self, other: &UtcTime) -> (r: bool) {
        proof {
            use_type_invariant(self);
            use_type_invariant(other);
        }
        self.secs > other.secs || (self.secs == other.secs && self.nanos > other.nanos)
    }

    fn is_expired_at(&self, now: &UtcTime) -> (r: bool) {
        !self.is_after(now)
    }

    fn is_valid(&self) -> (r: bool) {
        let now = UtcTime::now();
        let r = self.is_after(&now);
        assert(r == (self.tick() > now.tick()));
        r
    }

    fn is_expired(&self) -> (r: bool) {
        let now = UtcTime::now();
        let r = self.is_expired_at(&now);
        assert(r == !(self.tick() > now.tick()));
        r
    }
}

} // verus!
