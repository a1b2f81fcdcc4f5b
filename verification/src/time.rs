//! Points in time and the spans between them, to the nanosecond.

use vstd::prelude::*;

verus! {

/// Nanoseconds in one second.
pub const NANOS_PER_SEC: u32 = 1_000_000_000;

/// The earliest timestamp, in nanoseconds from the Unix epoch: the start of second `i64::MIN`.
pub const EARLIEST: i128 = -9_223_372_036_854_775_808_000_000_000;

/// The latest timestamp, in nanoseconds from the Unix epoch: the end of second `i64::MAX`.
pub const LATEST: i128 = 9_223_372_036_854_775_807_999_999_999;

/// A reading of the wall clock. Its view is the number of nanoseconds from the Unix epoch,
/// negative for a time before it.
#[derive(Debug, Clone, Copy, PartialEq, Eq, Structural)]
pub struct Timestamp {
    nanos: i128,
}

/// A distance from the Unix epoch, as whole seconds and the nanoseconds left over.
#[derive(Debug, Clone, Copy, PartialEq, Eq, Structural)]
pub struct EpochOffset {
    /// Whether the time lies before the epoch.
    pub before: bool,
    /// Whole seconds of the distance.
    pub secs: u64,
    /// What is left of the distance, below one second.
    pub nanos: u32,
}

impl View for EpochOffset {
    type V = int;

    /// The signed distance in nanoseconds.
    open spec fn view(&self) -> int {
        let distance = self.secs * NANOS_PER_SEC + self.nanos;
        if self.before {
            -distance
        } else {
            distance
        }
    }
}

/// The time that passed between two timestamps. Its view is a number of nanoseconds.
#[derive(Debug, Clone, Copy, PartialEq, Eq, Structural)]
pub struct Span {
    nanos: u128,
}

impl View for Span {
    type V = nat;

    closed spec fn view(&self) -> nat {
        self.nanos as nat
    }
}

impl Span {
    /// No two timestamps lie further apart than the earliest and the latest.
    #[verifier::type_invariant]
    pub closed spec fn in_range(self) -> bool {
        self.nanos <= LATEST - EARLIEST
    }

    /// Whole seconds of the span.
    pub fn secs(&self) -> (secs: u64)
        ensures
            secs == self@ / 1_000_000_000,
    {
        proof {
            use_type_invariant(self);
        }
        (self.nanos / NANOS_PER_SEC as u128) as u64
    }

    /// What is left of the span, below one second.
    pub fn subsec_nanos(&self) -> (nanos: u32)
        ensures
            nanos == self@ % 1_000_000_000,
    {
        (self.nanos % NANOS_PER_SEC as u128) as u32
    }
}

/// The clock showed an earlier time than one it had shown before.
#[derive(Debug, Clone, Copy, PartialEq, Eq, Structural)]
pub struct ClockError {
    /// How far it went back.
    pub behind: Span,
}

impl View for Timestamp {
    type V = int;

    closed spec fn view(&self) -> int {
        self.nanos as int
    }
}

impl Timestamp {
    #[verifier::type_invariant]
    pub closed spec fn in_range(self) -> bool {
        EARLIEST <= self.nanos <= LATEST
    }

    /// The timestamp at the given distance from the epoch. There is none if the nanoseconds make
    /// up a second or more, or if the time is outside the range of timestamps.
    pub fn from_epoch_offset(offset: EpochOffset) -> (r: Option<Timestamp>)
        ensures
            r is Some <==> offset.nanos < NANOS_PER_SEC && EARLIEST <= offset@ <= LATEST,
            r matches Some(t) ==> t@ == offset@,
            r matches Some(t) ==> t@ == if offset.before {
                -(offset.secs * 1_000_000_000 + offset.nanos)
            } else {
                offset.secs * 1_000_000_000 + offset.nanos
            },
            offset.nanos < 1_000_000_000 && offset.secs < 0x8000_0000_0000_0000 ==> r is Some,
    {
        if offset.nanos >= NANOS_PER_SEC {
            return None;
        }
        assert(0 <= offset.secs * NANOS_PER_SEC <= u64::MAX * NANOS_PER_SEC) by (nonlinear_arith);
        let distance: i128 = offset.secs as i128 * NANOS_PER_SEC as i128 + offset.nanos as i128;
        let nanos: i128 = if offset.before {
            -distance
        } else {
            distance
        };
        if nanos < EARLIEST || nanos > LATEST {
            None
        } else {
            Some(Timestamp { nanos })
        }
    }

    /// The distance of this timestamp from the epoch, in canonical form: the nanoseconds do not
    /// make up a second, and the epoch itself does not lie before itself.
    pub fn epoch_offset(&self) -> (offset: EpochOffset)
        ensures
            offset@ == self@,
            offset.before <==> self@ < 0,
            offset.nanos < NANOS_PER_SEC,
            EARLIEST <= offset@ <= LATEST,
            self@ == if offset.before {
                -(offset.secs * 1_000_000_000 + offset.nanos)
            } else {
                offset.secs * 1_000_000_000 + offset.nanos
            },
            offset.nanos < 1_000_000_000,
    {
        proof {
            use_type_invariant(self);
        }
        let before = self.nanos < 0;
        let distance: u128 = if before {
            (-self.nanos) as u128
        } else {
            self.nanos as u128
        };
        let secs: u64 = (distance / NANOS_PER_SEC as u128) as u64;
        let nanos: u32 = (distance % NANOS_PER_SEC as u128) as u32;
        EpochOffset { before, secs, nanos }
    }

    /// The time that passed from `earlier` to this timestamp.
    ///
    /// Fails if this timestamp is the earlier of the two, and says by how much.
    pub fn duration_since(&self, earlier: Timestamp) -> (r: Result<Span, ClockError>)
        ensures
            r is Ok <==> earlier@ <= self@,
            r matches Ok(span) ==> span@ == self@ - earlier@,
            r matches Err(e) ==> e.behind@ == earlier@ - self@,
    {
        proof {
            use_type_invariant(self);
            use_type_invariant(&earlier);
        }
        if earlier.nanos <= self.nanos {
            Ok(Span { nanos: (self.nanos - earlier.nanos) as u128 })
        } else {
            Err(ClockError { behind: Span { nanos: (earlier.nanos - self.nanos) as u128 } })
        }
    }
}

/// A timestamp is determined by its distance from the epoch. So writing a timestamp as its offset
/// and making a timestamp of that offset gives the same timestamp again.
pub proof fn law_timestamp_determined(a: Timestamp, b: Timestamp)
    ensures
        a@ == b@ <==> a == b,
{
}

/// A span is determined by its length.
pub proof fn law_span_determined(a: Span, b: Span)
    ensures
        a@ == b@ <==> a == b,
{
}

/// A time has one canonical offset. So making a timestamp of a canonical offset and writing that
/// timestamp as an offset gives the same offset again.
pub proof fn law_epoch_offset_determined(a: EpochOffset, b: EpochOffset)
    requires
        a.nanos < NANOS_PER_SEC,
        b.nanos < NANOS_PER_SEC,
        a.before <==> a@ < 0,
        b.before <==> b@ < 0,
    ensures
        a@ == b@ <==> a == b,
{
}

/// An offset is so many seconds of a thousand million nanoseconds each and so many nanoseconds,
/// counted down for a time before the epoch and up for any other.
pub proof fn law_offset_counts_nanoseconds(o: EpochOffset)
    ensures
        o.before ==> o@ == -(o.secs * 1_000_000_000 + o.nanos),
        !o.before ==> o@ == o.secs * 1_000_000_000 + o.nanos,
{
}

/// Two offsets on the same side of the epoch lie apart by the difference of their seconds and of
/// their nanoseconds, in the direction in which that side is counted. So of two of them the one
/// with more seconds, or with as many and more nanoseconds, is the further one.
pub proof fn law_offsets_apart(a: EpochOffset, b: EpochOffset)
    requires
        a.before == b.before,
    ensures
        !a.before ==> b@ - a@ == (b.secs - a.secs) * 1_000_000_000 + (b.nanos - a.nanos),
        a.before ==> a@ - b@ == (b.secs - a.secs) * 1_000_000_000 + (b.nanos - a.nanos),
{
}

/// The distance between two times on different sides of the epoch is the sum of their distances
/// from it.
pub proof fn law_offsets_across(a: EpochOffset, b: EpochOffset)
    requires
        a.before,
        !b.before,
    ensures
        b@ - a@ == (a.secs + b.secs) * 1_000_000_000 + (a.nanos + b.nanos),
{
}

/// Timestamps reach over all seconds that an `i64` counts, and no further.
pub proof fn law_range_of_timestamps()
    ensures
        NANOS_PER_SEC == 1_000_000_000,
        EARLIEST == i64::MIN * 1_000_000_000,
        LATEST == i64::MAX * 1_000_000_000 + 999_999_999,
{
}

} // verus!
