//! Properties that hold across the operations of `TimedOption` and
//! `TimedValue`, stated over a reading of the clock.
use vstd::prelude::*;

use crate::backend::TtlBackend;
use crate::timed_option::classify;
use crate::timed_option::gate;
use crate::timed_option::TimedOption;
use crate::timed_value::TimedValue;

verus! {

/// A container just made with a positive ttl that the clock can represent is
/// live at the reading it was made with: `is_some` holds and it classifies as
/// `Valid` of its payload.
pub proof fn lemma_fresh_is_valid<T, B: TtlBackend>(
    c: TimedOption<T, B>,
    v: T,
    ttl: B::Duration,
    now: B,
)
    requires
        c.stamped(v, ttl, now),
        B::span(ttl) > 0,
        now.fits(ttl),
    ensures
        c.some_at(now),
        classify(c.value(), c.live_at(now)) == TimedValue::Valid(v),
        gate(c.value(), c.live_at(now)) == Some(v),
{
}

/// A container made with a ttl that the clock can represent from the
/// reading `made` is `Valid` of its payload exactly at the readings before
/// `made + ttl`, and `Expired` of it from then on.
pub proof fn lemma_valid_until_ttl<T, B: TtlBackend>(
    c: TimedOption<T, B>,
    v: T,
    ttl: B::Duration,
    made: B,
    n: B,
)
    requires
        c.stamped(v, ttl, made),
        made.fits(ttl),
    ensures
        c.some_at(n) == (n.tick() < made.tick() + B::span(ttl)),
        classify(c.value(), c.live_at(n)) == if n.tick() < made.tick() + B::span(ttl) {
            TimedValue::Valid(v)
        } else {
            TimedValue::Expired(v)
        },
{
}

/// Without a mutation in between, a container that reads as not live at one
/// reading reads as not live at every later one: expiry is never undone by
/// time.
pub proof fn lemma_expiry_is_final<T, B: TtlBackend>(c: TimedOption<T, B>, n1: B, n2: B)
    requires
        !c.some_at(n1),
        n2.tick() >= n1.tick(),
    ensures
        !c.some_at(n2),
        classify(c.value(), c.live_at(n2)) != TimedValue::Valid(c.value()->0),
{
}

/// A container without a payload reads as absent at every reading: `is_none`
/// holds, the plain optional is `None` and the classification is `Absent`.
pub proof fn lemma_empty_is_absent<T, B: TtlBackend>(c: TimedOption<T, B>, now: B)
    requires
        c.value() is None,
    ensures
        c.value() is None || !c.live_at(now),
        gate(c.value(), c.live_at(now)) is None,
        classify(c.value(), c.live_at(now)) == TimedValue::<T>::Absent,
{
}

/// Forcing expiry on a container just made, with the current reading `e` as
/// its new expiry, hides the payload from every reading `n` that is not
/// earlier than `e`: the plain optional is `None`, the classification is
/// `Expired` of the payload, `is_some` fails and `is_none` holds.
pub proof fn lemma_expire_hides_payload<T, B: TtlBackend>(
    c: TimedOption<T, B>,
    v: T,
    ttl: B::Duration,
    made: B,
    expired: TimedOption<T, B>,
    e: B,
    n: B,
)
    requires
        c.stamped(v, ttl, made),
        expired.value() == c.value(),
        expired.expiry() == e,
        n.tick() >= e.tick(),
    ensures
        gate(expired.value(), expired.live_at(n)) is None,
        classify(expired.value(), expired.live_at(n)) == TimedValue::Expired(v),
        !expired.some_at(n),
{
}

/// `is_some` and `is_none`, read against one reading of the clock, are exact
/// complements in every state.
pub proof fn lemma_some_none_complement<T, B: TtlBackend>(c: TimedOption<T, B>, now: B)
    ensures
        c.some_at(now) == !(c.value() is None || !c.live_at(now)),
{
}

/// Taking from an expired container hands out nothing, while taking its
/// classification hands out `Expired` of the payload: both see that a payload
/// was there and differ only in exposing it.
pub proof fn lemma_take_expired<T, B: TtlBackend>(c: TimedOption<T, B>, v: T, now: B)
    requires
        c.value() == Some(v),
        !c.live_at(now),
    ensures
        gate(c.value(), c.live_at(now)) is None,
        classify(c.value(), c.live_at(now)) == TimedValue::Expired(v),
        classify(c.value(), c.live_at(now)).has_payload(),
{
}

/// After `clear`, whatever the expiry was, every read at every reading
/// reports the container as absent.
pub proof fn lemma_clear_reads_absent<T, B: TtlBackend>(
    c: TimedOption<T, B>,
    cleared: TimedOption<T, B>,
    now: B,
)
    requires
        cleared.value() is None,
        cleared.expiry() == c.expiry(),
    ensures
        gate(cleared.value(), cleared.live_at(now)) is None,
        classify(cleared.value(), cleared.live_at(now)) == TimedValue::<T>::Absent,
        !cleared.some_at(now),
{
}

/// Taking a container apart and putting it back together keeps its
/// classification at every reading: a live one comes back `Valid`, an expired
/// one `Expired`.
pub proof fn lemma_parts_round_trip<T, B: TtlBackend>(
    c: TimedOption<T, B>,
    parts: (Option<T>, B),
    rebuilt: TimedOption<T, B>,
    now: B,
)
    requires
        parts.0 == c.value(),
        parts.1 == c.expiry(),
        rebuilt.value() == parts.0,
        rebuilt.expiry() == parts.1,
    ensures
        classify(rebuilt.value(), rebuilt.live_at(now)) == classify(c.value(), c.live_at(now)),
        gate(rebuilt.value(), rebuilt.live_at(now)) == gate(c.value(), c.live_at(now)),
{
}

/// A container made with a ttl of zero or less is expired at the reading it
/// was made with and at every later one: it classifies as `Expired`, never
/// `Valid`.
pub proof fn lemma_non_positive_ttl_expired<T, B: TtlBackend>(
    c: TimedOption<T, B>,
    v: T,
    ttl: B::Duration,
    made: B,
    n: B,
)
    requires
        c.stamped(v, ttl, made),
        B::span(ttl) <= 0,
        n.tick() >= made.tick(),
    ensures
        !c.live_at(n),
        !c.some_at(n),
        classify(c.value(), c.live_at(n)) == TimedValue::Expired(v),
{
}

/// Of `is_valid`, `is_expired` and `is_none`, exactly one holds of each
/// `TimedValue`, and `has_value` holds exactly of `Valid` and `Expired`.
pub proof fn lemma_timed_value_exactly_one<T>(tv: TimedValue<T>)
    ensures
        tv.valid() || tv.expired() || tv.absent(),
        !(tv.valid() && tv.expired()),
        !(tv.valid() && tv.absent()),
        !(tv.expired() && tv.absent()),
        tv.has_payload() == (tv.valid() || tv.expired()),
{
}

} // verus!
