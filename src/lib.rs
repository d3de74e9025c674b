//! A value that holds at most one payload together with the moment at which
//! it stops being valid. Reads treat an expired payload as absent, while the
//! three-state [`TimedValue`] still tells "never had one", "live" and
//! "timed out" apart.
//!
//! Expiry is lazy: nothing sweeps a container; each read compares the stored
//! expiry with a reading of the clock chosen through [`TtlBackend`].
pub mod backend;
pub mod timed_value;
pub mod timed_option;
pub mod monotonic;
pub mod calendar;
pub mod laws;

pub use backend::TtlBackend;
pub use timed_value::TimedValue;
pub use timed_option::TimedOption;
pub use calendar::UtcTime;
