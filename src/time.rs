use vstd::prelude::*;

verus! {

/// A point in time in UTC, as seconds and nanoseconds since the Unix epoch.
#[derive(Debug, Clone, Copy, PartialEq, Eq, Structural)]
pub struct UtcTime {
    /// Whole seconds since 1970-01-01T00:00:00Z (negative before it).
    pub unix_seconds: i64,
    /// Nanoseconds past `unix_seconds`.
    pub nanos: u32,
}

impl UtcTime {
    /// The Unix epoch itself.
    pub open spec fn spec_epoch() -> UtcTime {
        UtcTime { unix_seconds: 0, nanos: 0 }
    }

    /// The Unix epoch, the time that a timestamp is reset to.
    pub fn epoch() -> (r: UtcTime)
        ensures
            r == Self::spec_epoch(),
    {
        UtcTime { unix_seconds: 0, nanos: 0 }
    }
}

} // verus!
