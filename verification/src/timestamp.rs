//! Points in time with nanosecond precision.

use vstd::prelude::*;

verus! {

/// Number of nanoseconds in one second.
pub const NANOS_PER_SECOND: u32 = 1_000_000_000;

/// A point in time, held as whole seconds since the Unix epoch plus a
/// sub-second part in nanoseconds. The sub-second part always counts forward,
/// so one and a half seconds before the epoch is `secs = -2` with half a
/// second of nanoseconds.
#[derive(Clone, Copy, Debug, PartialEq, Eq)]
pub struct Timestamp {
    secs: i64,
    subsec_nanos: u32,
}

impl View for Timestamp {
    type V = int;

    /// Nanoseconds since the Unix epoch.
    closed spec fn view(&self) -> int {
        self.secs * NANOS_PER_SECOND + self.subsec_nanos
    }
}

impl DeepView for Timestamp {
    type V = int;

    open spec fn deep_view(&self) -> int {
        self@
    }
}

impl Timestamp {
    #[verifier::type_invariant]
    spec fn well_formed(self) -> bool {
        self.subsec_nanos < NANOS_PER_SECOND
    }

    /// The timestamp a whole number of seconds away from the epoch.
    pub fn from_secs(secs: i64) -> (t: Timestamp)
        ensures
            t@ == secs * NANOS_PER_SECOND,
    {
        Timestamp { secs, subsec_nanos: 0 }
    }

    /// The timestamp `secs` seconds and `subsec_nanos` nanoseconds away from
    /// the epoch, or `None` when `subsec_nanos` is a second or more.
    pub fn from_secs_and_nanos(secs: i64, subsec_nanos: u32) -> (t: Option<Timestamp>)
        ensures
            t is Some <==> subsec_nanos < NANOS_PER_SECOND,
            t matches Some(ts) ==> ts@ == secs * NANOS_PER_SECOND + subsec_nanos,
    {
        if subsec_nanos < NANOS_PER_SECOND {
            Some(Timestamp { secs, subsec_nanos })
        } else {
            None
        }
    }

    /// Whole seconds since the epoch, rounded towards the past.
    pub fn secs(&self) -> (s: i64)
        ensures
            s == self@ / (NANOS_PER_SECOND as int),
    {
        proof {
            use_type_invariant(self);
        }
        self.secs
    }

    /// The nanoseconds past the whole second.
    pub fn subsec_nanos(&self) -> (n: u32)
        ensures
            n == self@ % (NANOS_PER_SECOND as int),
            n < NANOS_PER_SECOND,
    {
        proof {
            use_type_invariant(self);
        }
        self.subsec_nanos
    }

    /// Nanoseconds since the epoch. The value stays within what 64-bit
    /// seconds can reach, far inside the range of `i128`.
    pub fn as_nanos(&self) -> (n: i128)
        ensures
            n == self@,
            i64::MIN * NANOS_PER_SECOND <= n < (i64::MAX + 1) * NANOS_PER_SECOND,
    {
        proof {
            use_type_invariant(self);
        }
        let whole: i128 = (self.secs as i128) * 1_000_000_000;
        whole + (self.subsec_nanos as i128)
    }
}

} // verus!
