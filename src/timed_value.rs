//! The three-state result of reading a timed container.
use vstd::prelude::*;

verus! {

/// A value together with its validity at the moment it was read.
#[derive(Debug, Copy, Clone, PartialEq, Eq)]
pub enum TimedValue<T> {
    /// A value that is still valid.
    Valid(T),
    /// A value whose time has run out.
    Expired(T),
    /// No value at all.
    Absent,
}

impl<T> TimedValue<T> {
    /// Whether this is `Valid`.
    pub open spec fn valid(&self) -> bool {
        self is Valid
    }

    /// Whether this is `Expired`.
    pub open spec fn expired(&self) -> bool {
        self is Expired
    }

    /// Whether this is the absent variant.
    pub open spec fn absent(&self) -> bool {
        self is Absent
    }

    /// Whether this holds a value, valid or expired.
    pub open spec fn has_payload(&self) -> bool {
        !(self is Absent)
    }

    /// Returns `true` if the value is `Valid`.
    pub fn is_valid(&self) -> (r: bool)
        ensures
            r == self.valid(),
    {
        match self {
            TimedValue::Valid(_) => true,
            TimedValue::Expired(_) => false,
            TimedValue::Absent => false,
        }
    }

    /// Returns `true` if the value is `Expired`.
    pub fn is_expired(&self) -> (r: bool)
        ensures
            r == self.expired(),
    {
        match self {
            TimedValue::Valid(_) => false,
            TimedValue::Expired(_) => true,
            TimedValue::Absent => false,
        }
    }

    /// Returns `true` if there is no value.
    pub fn is_none(&self) -> (r: bool)
        ensures
            r == self.absent(),
    {
        match self {
            TimedValue::Valid(_) => false,
            TimedValue::Expired(_) => false,
            TimedValue::Absent => true,
        }
    }

    /// Returns `true` if the value is `Valid` or `Expired`.
    pub fn has_value(&self) -> (r: bool)
        ensures
            r == self.has_payload(),
    {
        match self {
            TimedValue::Valid(_) => true,
            TimedValue::Expired(_) => true,
            TimedValue::Absent => false,
        }
    }

    /// Converts from `&TimedValue<T>` to `TimedValue<&T>`.
    pub fn as_ref(&self) -> (r: TimedValue<&T>)
        ensures
            match *self {
                TimedValue::Valid(v) => r is Valid && r->Valid_0 == v,
                TimedValue::Expired(v) => r is Expired && r->Expired_0 == v,
                TimedValue::Absent => r is Absent,
            },
    {
        match self {
            TimedValue::Valid(inner) => TimedValue::Valid(inner),
            TimedValue::Expired(inner) => TimedValue::Expired(inner),
            TimedValue::Absent => TimedValue::Absent,
        }
    }
}

} // verus!
