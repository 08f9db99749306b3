//! Points of local wall-clock time, counted in nanoseconds.

use vstd::prelude::*;

verus! {

/// Nanoseconds in one second.
pub const NANOS_PER_SECOND: i128 = 1_000_000_000;

/// Nanoseconds in one minute.
pub const NANOS_PER_MINUTE: i128 = 60_000_000_000;

/// Nanoseconds in one hour.
pub const NANOS_PER_HOUR: i128 = 3_600_000_000_000;

/// Nanoseconds in one day. Wall-clock days have no leap seconds.
pub const NANOS_PER_DAY: i128 = 86_400_000_000_000;

/// The first representable moment: midnight at the start of the year -9999.
pub const EARLIEST: i128 = -377_705_116_800_000_000_000;

/// The last representable moment: the last nanosecond of the year 9999.
pub const LATEST: i128 = 253_402_300_799_999_999_999;

/// A point of local wall-clock time, without a zone: the nanoseconds between
/// 1970-01-01 00:00:00 and that point, negative before it.
#[derive(Clone, Copy, Debug, PartialEq, Eq, Structural)]
pub struct Moment {
    nanos: i128,
}

impl View for Moment {
    type V = int;

    closed spec fn view(&self) -> int {
        self.nanos as int
    }
}

impl Moment {
    #[verifier::type_invariant]
    spec fn in_range(self) -> bool {
        EARLIEST <= self.nanos <= LATEST
    }

    /// The moment `nanos` nanoseconds after 1970-01-01 00:00:00, if it lies
    /// between `EARLIEST` and `LATEST`.
    pub fn from_unix_nanos(nanos: i128) -> (moment: Option<Moment>)
        ensures
            moment is Some <==> EARLIEST <= nanos <= LATEST,
            moment matches Some(m) ==> m@ == nanos,
    {
        if EARLIEST <= nanos && nanos <= LATEST {
            Some(Moment { nanos })
        } else {
            None
        }
    }

    /// The nanoseconds between 1970-01-01 00:00:00 and this moment.
    pub fn unix_nanos(&self) -> (nanos: i128)
        ensures
            nanos == self@,
            EARLIEST <= nanos <= LATEST,
    {
        proof {
            use_type_invariant(self);
        }
        self.nanos
    }

    /// This moment as a date and a time of day.
    pub fn text(&self) -> (text: String)
        ensures
            text@ == date_time_text(self@),
    {
        proof {
            use_type_invariant(self);
        }
        display(self.nanos)
    }
}

/// Two moments with the same count of nanoseconds are the same moment.
pub proof fn lemma_moment_by_view(a: Moment, b: Moment)
    ensures
        a@ == b@ <==> a == b,
{
}

/// The text that the `time` crate prints for the date and the time of day
/// that lie `nanos` nanoseconds after 1970-01-01 00:00:00.
pub uninterp spec fn date_time_text(nanos: int) -> Seq<char>;

/// Calls `Display` of `time::PrimitiveDateTime` (through `to_string`) on the
/// date and time of day that `time::OffsetDateTime::from_unix_timestamp_nanos`
/// gives for `nanos`. The text depends on `nanos` alone, so it has a name;
/// nothing is claimed of what it holds. Inside the required range the
/// conversion does not fail.
#[verifier::external_body]
fn display(nanos: i128) -> (text: String)
    requires
        EARLIEST <= nanos <= LATEST,
    ensures
        text@ == date_time_text(nanos as int),
{
    let at = time::OffsetDateTime::from_unix_timestamp_nanos(nanos).unwrap();
    time::PrimitiveDateTime::new(at.date(), at.time()).to_string()
}

} // verus!
