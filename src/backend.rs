//! The clock abstraction that a `TimedOption` is generic over.
use vstd::prelude::*;

verus! {

/// A point in time on some clock, together with the operations that a
/// timed container needs from that clock.
///
/// Points are modelled by their position `tick` on the clock's time line, and
/// durations by their signed length `span` in the same unit; only the order of
/// positions and the sign of lengths matter to the container.
pub trait TtlBackend: Sized + Copy {
    /// The length of time that can be added to a point.
    type Duration;

    /// Position of this point on the clock's time line.
    spec fn tick(&self) -> int;

    /// Signed length of a duration, in the unit of `tick`.
    spec fn span(dt: Self::Duration) -> int;

    /// Whether `self` advanced by `dt` is a point that the clock can represent.
    spec fn fits(&self, dt: Self::Duration) -> bool;

    /// Whether no point after `self` can be represented on this clock.
    spec fn latest(&self) -> bool;

    /// Whether no point before `self` can be represented on this clock.
    spec fn earliest(&self) -> bool;

    /// The current reading of the clock.
    fn now() -> Self;

    /// A point that is already expired when it is made: the current reading,
    /// which is not strictly after itself, nor after any later reading of a
    /// clock that does not run backwards.
    fn expired() -> Self;

    /// `self` advanced by `dt`. Where the exact sum cannot be represented the
    /// result saturates: past the end of the clock it is the latest point
    /// that can be represented, and it never lies on the other side of `self`.
    fn add(self, dt: Self::Duration) -> (r: Self)
        ensures
            self.fits(dt) ==> r.tick() == self.tick() + Self::span(dt),
            !self.fits(dt) && Self::span(dt) > 0 ==> r.latest(),
            !self.fits(dt) && Self::span(dt) < 0 ==> r.earliest(),
            Self::span(dt) >= 0 ==> r.tick() >= self.tick(),
            Self::span(dt) <= 0 ==> r.tick() <= self.tick(),
    ;

    /// Whether `self` lies strictly after `other`.
    fn is_after(&self, other: &Self) -> (r: bool)
        ensures
            r == (self.tick() > other.tick()),
    ;

    /// Whether `self` is at or before the reading `now`.
    fn is_expired_at(&self, now: &Self) -> (r: bool)
        ensures
            r == !(self.tick() > now.tick()),
    ;

    /// Whether `self` is strictly after the clock's current reading.
    fn is_valid(&self) -> (r: bool)
        ensures
            exists|now: Self| r == (self.tick() > #[trigger] now.tick()),
    ;

    /// Whether `self` is at or before the clock's current reading.
    fn is_expired(&self) -> (r: bool)
        ensures
            exists|now: Self| r == !(self.tick() > #[trigger] now.tick()),
    ;
}

} // verus!
