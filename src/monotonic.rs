//! The monotonic clock of std as a `TtlBackend`.
use vstd::prelude::*;

use crate::backend::TtlBackend;
use std::time::Duration;
use std::time::Instant;

verus! {

#[verifier::external_type_specification]
#[verifier::external_body]
pub struct ExInstant(std::time::Instant);

/// Position of an `Instant` on the monotonic clock, in nanoseconds; it is the
/// order that `Instant`'s comparison operators follow.
pub uninterp spec fn instant_pos(i: Instant) -> int;

/// Whether an `Instant` can be represented at position `p`. The positions
/// that can be represented form one interval.
pub uninterp spec fn instant_room(p: int) -> bool;

/// What `Duration::as_nanos` returns: the length in nanoseconds.
pub uninterp spec fn duration_len(d: Duration) -> nat;

/// Relies on `Instant::now`; nothing is known of the reading it returns.
#[verifier::external_body]
fn instant_now() -> (r: Instant) {
    Instant::now()
}

/// Relies on `Instant`'s `>`: `Instant` is totally ordered by its position.
#[verifier::external_body]
fn instant_later(a: &Instant, b: &Instant) -> (r: bool)
    ensures
        r == (instant_pos(*a) > instant_pos(*b)),
{
    *a > *b
}

/// Relies on `Instant::checked_add`: `Some(i + d)` when the sum can be
/// represented, `None` otherwise; the positions that can be represented are
/// one interval, so nothing beyond an unrepresentable sum can be either.
#[verifier::external_body]
fn instant_checked_add(i: Instant, d: Duration) -> (r: Option<Instant>)
    ensures
        r is Some <==> instant_room(instant_pos(i) + duration_len(d)),
        r matches Some(t) ==> instant_pos(t) == instant_pos(i) + duration_len(d),
        r is None ==> forall|p: int|
            p >= instant_pos(i) + duration_len(d) ==> !#[trigger] instant_room(p),
{
    i.checked_add(d)
}

/// Relies on `Duration::is_zero`.
#[verifier::external_body]
fn duration_is_zero(d: &Duration) -> (r: bool)
    ensures
        r == (duration_len(*d) == 0),
{
    d.is_zero()
}

/// Relies on `Duration`'s `/` by 2: the length is halved, rounding down.
#[verifier::external_body]
fn duration_half(d: Duration) -> (r: Duration)
    ensures
        duration_len(r) == duration_len(d) / 2,
{
    d / 2
}

impl TtlBackend for Instant {
    type Duration = Duration;

    open spec fn tick(&self) -> int {
        instant_pos(*self)
    }

    open spec fn span(dt: Duration) -> int {
        duration_len(dt) as int
    }

    open spec fn fits(&self, dt: Duration) -> bool {
        instant_room(instant_pos(*self) + duration_len(dt))
    }

    open spec fn latest(&self) -> bool {
        forall|p: int| p > instant_pos(*self) ==> !#[trigger] instant_room(p)
    }

    open spec fn earliest(&self) -> bool {
        forall|p: int| p < instant_pos(*self) ==> !#[trigger] instant_room(p)
    }

    fn now() -> Instant {
        instant_now()
    }

    fn expired() -> Instant {
        instant_now()
    }

    /// Saturates: where the sum cannot be represented, the result is the
    /// latest `Instant` that can, found by halving the step.
    fn add(self, dt: Duration) -> (r: Instant) {
        let first = instant_checked_add(self, dt);
        if let Some(t) = first {
            return t;
        }
        let mut cur = self;
        let mut d = dt;
        let ghost mut bad: int = instant_pos(self) + duration_len(dt);
        while !duration_is_zero(&d)
            invariant
                instant_pos(cur) >= instant_pos(self),
                duration_len(d) <= duration_len(dt),
                duration_len(dt) == 0 ==> cur == self,
                bad >= instant_pos(cur),
                bad <= instant_pos(cur) + 2 * duration_len(d) + 1,
                forall|p: int| p >= bad ==> !#[trigger] instant_room(p),
            decreases duration_len(d), bad - instant_pos(cur),
        {
            match instant_checked_add(cur, d) {
                Some(t) => {
                    cur = t;
                },
                None => {
                    proof {
                        bad = instant_pos(cur) + duration_len(d);
                    }
                    d = duration_half(d);
                },
            }
        }
        cur
    }

    fn is_after(&self, other: &Instant) -> (r: bool) {
        instant_later(self, other)
    }

    fn is_expired_at(&self, now: &Instant) -> (r: bool) {
        !self.is_after(now)
    }

    fn is_valid(&self) -> (r: bool) {
        let now = instant_now();
        let r = self.is_after(&now);
        assert(r == (self.tick() > now.tick()));
        r
    }

    fn is_expired(&self) -> (r: bool) {
        let now = instant_now();
        let r = self.is_expired_at(&now);
        assert(r == !(self.tick() > now.tick()));
        r
    }
}

} // verus!
