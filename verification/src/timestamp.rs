use vstd::prelude::*;

verus! {

/// A point in time as seconds and nanoseconds since the Unix epoch, in the
/// normalised form of the protobuf well-known `Timestamp`: the nanoseconds
/// count forward from the second, also before the epoch.
#[derive(Clone, Copy, Debug, PartialEq, Eq, Structural)]
pub struct Timestamp {
    pub seconds: i64,
    pub nanos: i32,
}

impl Timestamp {
    /// The nanoseconds lie in `0 .. 1_000_000_000`.
    pub open spec fn normalized(self) -> bool {
        0 <= self.nanos < 1_000_000_000
    }
}

/// Reads the system clock with `std::time::SystemTime::now` and converts the
/// reading with `prost_types::Timestamp::from`. The conversion's source splits
/// the distance to the Unix epoch into whole seconds and a sub-second
/// remainder, borrowing one second before the epoch, so the nanoseconds are
/// always normalised; that is all that is stated. Which time is read depends
/// on the machine and the moment and is left unsaid. The conversion panics
/// only on a reading more than `i64::MAX` seconds from the epoch, which the
/// system clock does not report.
#[verifier::external_body]
fn read_clock() -> (ts: Timestamp)
    ensures
        ts.normalized(),
{
    let converted = prost_types::Timestamp::from(std::time::SystemTime::now());
    Timestamp { seconds: converted.seconds, nanos: converted.nanos }
}

/// The current time, as the coordinator stamps registrations, heartbeats and
/// task transitions.
pub fn now() -> (ts: Timestamp)
    ensures
        ts.normalized(),
{
    read_clock()
}

} // verus!
