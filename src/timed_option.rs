//! The time-bounded optional container.
use vstd::prelude::*;

use crate::backend::TtlBackend;
use crate::timed_value::TimedValue;

verus! {

/// The three-state classification of an optional payload, given whether its
/// expiry is still ahead of the clock.
pub open spec fn classify<T>(value: Option<T>, live: bool) -> TimedValue<T> {
    match value {
        Some(v) => if live {
            TimedValue::Valid(v)
        } else {
            TimedValue::Expired(v)
        },
        None => TimedValue::Absent,
    }
}

/// The plain optional that a payload collapses to: the payload while it is
/// live, nothing otherwise.
pub open spec fn gate<T>(value: Option<T>, live: bool) -> Option<T> {
    if live {
        value
    } else {
        None
    }
}

/// At most one payload of type `T` and the point of clock `B` at which it
/// expires.
#[derive(Debug, Copy, Clone)]
pub struct TimedOption<T, B> {
    value: Option<T>,
    ttl: B,
}

impl<T, B: TtlBackend> TimedOption<T, B> {
    /// The stored payload, whether or not it has expired.
    pub closed spec fn value(&self) -> Option<T> {
        self.value
    }

    /// The stored expiry.
    pub closed spec fn expiry(&self) -> B {
        self.ttl
    }

    /// Whether the expiry lies strictly after the reading `now`.
    pub open spec fn live_at(&self, now: B) -> bool {
        self.expiry().tick() > now.tick()
    }

    /// Whether, at the reading `now`, there is a payload that is live.
    pub open spec fn some_at(&self, now: B) -> bool {
        self.value() is Some && self.live_at(now)
    }

    /// What `new_at` makes of `value`, `ttl` and the reading `now`: the
    /// payload, and the expiry `now + ttl` where the clock can represent it,
    /// else the saturated point: the latest one for a positive `ttl`, and
    /// never on the other side of `now`.
    pub open spec fn stamped(&self, value: T, ttl: B::Duration, now: B) -> bool {
        &&& self.value() == Some(value)
        &&& now.fits(ttl) ==> self.expiry().tick() == now.tick() + B::span(ttl)
        &&& !now.fits(ttl) && B::span(ttl) > 0 ==> self.expiry().latest()
        &&& B::span(ttl) >= 0 ==> self.expiry().tick() >= now.tick()
        &&& B::span(ttl) <= 0 ==> self.expiry().tick() <= now.tick()
    }

    /// A container holding `value` and `expiry` as they are.
    pub fn from_parts(value: Option<T>, expiry: B) -> (r: Self)
        ensures
            r.value() == value,
            r.expiry() == expiry,
    {
        TimedOption { value, ttl: expiry }
    }

    /// The payload and the expiry, as they are stored.
    pub fn into_parts(self) -> (r: (Option<T>, B))
        ensures
            r.0 == self.value(),
            r.1 == self.expiry(),
    {
        (self.value, self.ttl)
    }

    /// `value` with an expiry `ttl` after the reading `now`.
    pub fn new_at(value: T, ttl: B::Duration, now: B) -> (r: Self)
        ensures
            r.stamped(value, ttl, now),
    {
        TimedOption { value: Some(value), ttl: now.add(ttl) }
    }

    /// Some value of type `T` with a ttl, counted from the clock's current
    /// reading.
    pub fn new(value: T, ttl: B::Duration) -> (r: Self)
        ensures
            r.value() == Some(value),
            exists|now: B| #[trigger] r.stamped(value, ttl, now),
    {
        Self::new_at(value, ttl, B::now())
    }

    /// No value, with the expiry `expiry`.
    pub fn empty_at(expiry: B) -> (r: Self)
        ensures
            r.value() is None,
            r.expiry() == expiry,
    {
        TimedOption { value: None, ttl: expiry }
    }

    /// No value, with an expired ttl: the clock's already-expired point.
    pub fn empty() -> (r: Self)
        ensures
            r.value() is None,
    {
        Self::empty_at(B::expired())
    }

    /// The payload if the expiry lies after the reading `now`, else `None`.
    pub fn into_option_at(self, now: &B) -> (r: Option<T>)
        ensures
            r == gate(self.value(), self.live_at(*now)),
    {
        if self.ttl.is_after(now) {
            self.value
        } else {
            None
        }
    }

    /// Returns an `Option<T>`. If the value is some but expired a `None` is
    /// returned.
    pub fn into_option(self) -> (r: Option<T>)
        ensures
            r == self.value() || r is None,
            exists|now: B| r == gate(self.value(), #[trigger] self.live_at(now)),
    {
        let now = B::now();
        self.into_option_at(&now)
    }

    /// Returns an `Option<&T>`. If the value is some but expired a `None` is
    /// returned.
    pub fn as_option(&self) -> (r: Option<&T>)
        ensures
            r is Some ==> self.value() is Some && self.value()->0 == r->0,
            self.value() is None ==> r is None,
            exists|now: B| #[trigger] self.some_at(now) == (r is Some),
    {
        let now = B::now();
        let r = self.as_ref().into_option_at(&now);
        assert(self.some_at(now) == (r is Some));
        r
    }

    /// The payload classified against the reading `now`.
    pub fn into_timed_value_at(self, now: &B) -> (r: TimedValue<T>)
        ensures
            r == classify(self.value(), self.live_at(*now)),
    {
        match self.value {
            Some(value) => if self.ttl.is_after(now) {
                TimedValue::Valid(value)
            } else {
                TimedValue::Expired(value)
            },
            None => TimedValue::Absent,
        }
    }

    /// Returns a `TimedValue<T>`: the payload marked valid or expired, or
    /// absent when there is none.
    pub fn into_timed_value(self) -> (r: TimedValue<T>)
        ensures
            r == classify(self.value(), true) || r == classify(self.value(), false),
            exists|now: B| r == classify(self.value(), #[trigger] self.live_at(now)),
    {
        let now = B::now();
        self.into_timed_value_at(&now)
    }

    /// Returns a `TimedValue<&T>`.
    pub fn as_timed_value(&self) -> (r: TimedValue<&T>)
        ensures
            match self.value() {
                Some(v) => (r is Valid && r->Valid_0 == v) || (r is Expired && r->Expired_0
                    == v),
                None => r is Absent,
            },
            exists|now: B| {
                let live = #[trigger] self.live_at(now);
                match self.value() {
                    Some(v) => if live {
                        r is Valid && r->Valid_0 == v
                    } else {
                        r is Expired && r->Expired_0 == v
                    },
                    None => r is Absent,
                }
            },
    {
        let now = B::now();
        let view = self.as_ref();
        assert(self.live_at(now) == view.live_at(now));
        view.into_timed_value_at(&now)
    }

    /// Converts from `&TimedOption<T>` to `TimedOption<&T>`, with the same
    /// expiry.
    pub fn as_ref(&self) -> (r: TimedOption<&T, B>)
        ensures
            r.value() is Some <==> self.value() is Some,
            r.value() is Some ==> r.value()->0 == self.value()->0,
            r.expiry() == self.expiry(),
    {
        TimedOption { value: self.value.as_ref(), ttl: self.ttl }
    }

    /// Sets the expiry to `at`, leaving the payload in place.
    pub fn expire_at(&mut self, at: B)
        ensures
            final(self).value() == old(self).value(),
            final(self).expiry() == at,
    {
        self.ttl = at;
    }

    /// Expires the current ttl; the payload stays but is no longer handed
    /// out by any read.
    pub fn expire(&mut self)
        ensures
            final(self).value() == old(self).value(),
    {
        self.expire_at(B::expired());
    }

    /// Drops the payload; the expiry is left as it is.
    pub fn clear(&mut self)
        ensures
            final(self).value() is None,
            final(self).expiry() == old(self).expiry(),
    {
        self.value = None;
    }

    /// Takes the payload out, leaving none in its place, and returns it if
    /// the expiry lies after the reading `now`.
    pub fn take_at(&mut self, now: &B) -> (r: Option<T>)
        ensures
            r == gate(old(self).value(), old(self).live_at(*now)),
            final(self).value() is None,
            final(self).expiry() == old(self).expiry(),
    {
        let value = self.value.take();
        if self.ttl.is_after(now) {
            value
        } else {
            None
        }
    }

    /// Takes the value out of the container, returning an `Option` and
    /// leaving no value in its place. An expired payload is dropped and
    /// `None` is returned.
    pub fn take(&mut self) -> (r: Option<T>)
        ensures
            r == old(self).value() || r is None,
            exists|now: B| r == gate(old(self).value(), #[trigger] old(self).live_at(now)),
            final(self).value() is None,
            final(self).expiry() == old(self).expiry(),
    {
        let now = B::now();
        self.take_at(&now)
    }

    /// Takes the payload out, leaving none in its place, and returns it
    /// classified against the reading `now`.
    pub fn take_timed_value_at(&mut self, now: &B) -> (r: TimedValue<T>)
        ensures
            r == classify(old(self).value(), old(self).live_at(*now)),
            final(self).value() is None,
            final(self).expiry() == old(self).expiry(),
    {
        match self.value.take() {
            Some(value) => if self.ttl.is_after(now) {
                TimedValue::Valid(value)
            } else {
                TimedValue::Expired(value)
            },
            None => TimedValue::Absent,
        }
    }

    /// Takes the value out of the container, returning a `TimedValue` and
    /// leaving no value in its place.
    pub fn take_timed_value(&mut self) -> (r: TimedValue<T>)
        ensures
            r == classify(old(self).value(), true) || r == classify(old(self).value(), false),
            exists|now: B| r == classify(old(self).value(), #[trigger] old(self).live_at(now)),
            final(self).value() is None,
            final(self).expiry() == old(self).expiry(),
    {
        let now = B::now();
        self.take_timed_value_at(&now)
    }

    /// Whether there is a payload and its expiry lies after the reading `now`.
    pub fn is_some_at(&self, now: &B) -> (r: bool)
        ensures
            r == self.some_at(*now),
    {
        let present = self.value.is_some();
        let live = self.ttl.is_after(now);
        present && live
    }

    /// Returns `true` if there is a value and it has not expired.
    pub fn is_some(&self) -> (r: bool)
        ensures
            r ==> self.value() is Some,
            exists|now: B| r == #[trigger] self.some_at(now),
    {
        let now = B::now();
        let r = self.is_some_at(&now);
        assert(r == self.some_at(now));
        r
    }

    /// Whether there is no payload or its expiry is at or before the reading
    /// `now`.
    pub fn is_none_at(&self, now: &B) -> (r: bool)
        ensures
            r == !self.some_at(*now),
    {
        let missing = self.value.is_none();
        let live = self.ttl.is_after(now);
        missing || !live
    }

    /// Returns `true` if there is no value or it has expired.
    pub fn is_none(&self) -> (r: bool)
        ensures
            self.value() is None ==> r,
            exists|now: B| r == !#[trigger] self.some_at(now),
    {
        let now = B::now();
        let r = self.is_none_at(&now);
        assert(r == !self.some_at(now));
        r
    }
}

/// The plain optional of a container against the clock's current reading.
impl<T, B: TtlBackend> From<TimedOption<T, B>> for Option<T> {
    fn from(value: TimedOption<T, B>) -> Option<T> {
        value.into_option()
    }
}

/// The result depends on the clock, so `from` has no spec of its own; see
/// `into_option`.
impl<T, B: TtlBackend> vstd::std_specs::convert::FromSpecImpl<TimedOption<T, B>> for Option<T> {
    open spec fn obeys_from_spec() -> bool {
        false
    }

    open spec fn from_spec(v: TimedOption<T, B>) -> Option<T> {
        None
    }
}

/// The classification of a container against the clock's current reading.
impl<T, B: TtlBackend> From<TimedOption<T, B>> for TimedValue<T> {
    fn from(value: TimedOption<T, B>) -> TimedValue<T> {
        value.into_timed_value()
    }
}

/// The result depends on the clock, so `from` has no spec of its own; see
/// `into_timed_value`.
impl<T, B: TtlBackend> vstd::std_specs::convert::FromSpecImpl<TimedOption<T, B>> for TimedValue<T> {
    open spec fn obeys_from_spec() -> bool {
        false
    }

    open spec fn from_spec(v: TimedOption<T, B>) -> TimedValue<T> {
        TimedValue::Absent
    }
}

} // verus!
