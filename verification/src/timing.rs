//! The clocks noted during one exchange, and the figures taken from them.

use vstd::prelude::*;

use crate::time::{ClockError, Span, Timestamp};

verus! {

/// Bytes in one megabit: a rate in bytes per second is divided by this to give megabits per
/// second.
pub const BYTES_PER_MEGABIT: u32 = 125_000;

/// Timing information from the benchmarking server.
#[derive(Debug, Clone, PartialEq, Eq, Structural)]
pub struct ServerTiming {
    /// When the connection was accepted.
    pub accepted_ts: Timestamp,
    /// When the payload was successfully written to the client.
    pub copied_ts: Timestamp,
    /// When the server received the first byte from the client.
    pub first_byte_ts: Timestamp,
    /// When the server finished reading the client's payload.
    pub read_done_ts: Timestamp,
}

/// Timing information from the benchmarking client.
#[derive(Debug, Clone, PartialEq, Eq, Structural)]
pub struct ClientTiming {
    /// When the client's connection succeeded.
    pub started_ts: Timestamp,
    /// When the client received the first byte from the server.
    pub first_byte_ts: Timestamp,
    /// When the client finished reading the server's payload.
    pub read_done_ts: Timestamp,
    /// When the payload was successfully written to the server.
    pub copied_ts: Timestamp,
    /// The server's copy of the timing information.
    pub server: ServerTiming,
    /// The size of the payload downloaded from the server.
    pub download_size: usize,
    /// The size of the payload uploaded to the server.
    pub upload_size: usize,
}

/// An average speed: so many bytes in so much time.
///
/// In megabits per second it is `bytes`, divided by the seconds of `time`, divided by
/// `BYTES_PER_MEGABIT`. No time at all is a possible value of `time`.
#[derive(Debug, Clone, Copy, PartialEq, Eq, Structural)]
pub struct Rate {
    /// How many bytes were transferred.
    pub bytes: usize,
    /// How long that took.
    pub time: Span,
}

/// What one exchange measured, taken from its `ClientTiming`, in exact quantities.
#[derive(Debug, Clone, Copy, PartialEq, Eq, Structural)]
pub struct TimingSummary {
    /// The time to first byte (TTFB) for the download benchmark.
    pub download_ttfb: Span,
    /// The average download speed.
    pub download_rate: Rate,
    /// The time to first byte (TTFB) for the upload benchmark.
    pub upload_ttfb: Span,
    /// The average upload speed.
    pub upload_rate: Rate,
}

impl ClientTiming {
    /// The four intervals that a summary is made of, in the order in which they follow each
    /// other: waiting for the download, the download, waiting for the upload, the upload. One is
    /// negative where the clock went back in it.
    pub open spec fn intervals(self) -> Seq<int> {
        seq![
            self.first_byte_ts@ - self.server.accepted_ts@,
            self.read_done_ts@ - self.first_byte_ts@,
            self.server.first_byte_ts@ - self.read_done_ts@,
            self.server.read_done_ts@ - self.server.first_byte_ts@,
        ]
    }

    /// Whether the clock went back in interval `k`, and in none before it.
    pub open spec fn first_goes_back_in(self, k: int) -> bool {
        &&& 0 <= k < 4
        &&& self.intervals()[k] < 0
        &&& forall|j: int| 0 <= j < k ==> #[trigger] self.intervals()[j] >= 0
    }
}

impl TimingSummary {
    /// Whether this is what `ct` measured.
    pub open spec fn summarizes(self, ct: ClientTiming) -> bool {
        &&& self.download_ttfb@ == ct.intervals()[0]
        &&& self.download_rate.bytes == ct.download_size
        &&& self.download_rate.time@ == ct.intervals()[1]
        &&& self.upload_ttfb@ == ct.intervals()[2]
        &&& self.upload_rate.bytes == ct.upload_size
        &&& self.upload_rate.time@ == ct.intervals()[3]
    }

    /// Generate a `TimingSummary` from the `ClientTiming` returned by a benchmark run.
    ///
    /// Fails if the clock went back in one of the four intervals, and says by how much it did so
    /// in the first of these.
    pub fn generate(ct: &ClientTiming) -> (r: Result<TimingSummary, ClockError>)
        ensures
            r is Ok <==> forall|k: int| 0 <= k < 4 ==> #[trigger] ct.intervals()[k] >= 0,
            r matches Ok(summary) ==> summary.summarizes(*ct),
            r matches Err(e) ==> exists|k: int| #[trigger]
                ct.first_goes_back_in(k) && e.behind@ == -ct.intervals()[k],
            r is Ok <==> ct.server.accepted_ts@ <= ct.first_byte_ts@ <= ct.read_done_ts@
                <= ct.server.first_byte_ts@ <= ct.server.read_done_ts@,
            r matches Ok(s) ==> s.download_ttfb@ == ct.first_byte_ts@ - ct.server.accepted_ts@,
            r matches Ok(s) ==> s.download_rate.bytes == ct.download_size,
            r matches Ok(s) ==> s.download_rate.time@ == ct.read_done_ts@ - ct.first_byte_ts@,
            r matches Ok(s) ==> s.upload_ttfb@ == ct.server.first_byte_ts@ - ct.read_done_ts@,
            r matches Ok(s) ==> s.upload_rate.bytes == ct.upload_size,
            r matches Ok(s) ==> s.upload_rate.time@ == ct.server.read_done_ts@
                - ct.server.first_byte_ts@,
            r matches Err(e) ==> e.behind@ == if ct.first_byte_ts@ < ct.server.accepted_ts@ {
                ct.server.accepted_ts@ - ct.first_byte_ts@
            } else if ct.read_done_ts@ < ct.first_byte_ts@ {
                ct.first_byte_ts@ - ct.read_done_ts@
            } else if ct.server.first_byte_ts@ < ct.read_done_ts@ {
                ct.read_done_ts@ - ct.server.first_byte_ts@
            } else {
                ct.server.first_byte_ts@ - ct.server.read_done_ts@
            },
    {
        let ghost gaps = ct.intervals();
        let download_ttfb = match ct.first_byte_ts.duration_since(ct.server.accepted_ts) {
            Ok(span) => span,
            Err(e) => {
                assert(ct.first_goes_back_in(0));
                return Err(e);
            },
        };
        assert(gaps[0] >= 0);
        let download_time = match ct.read_done_ts.duration_since(ct.first_byte_ts) {
            Ok(span) => span,
            Err(e) => {
                assert(ct.first_goes_back_in(1));
                return Err(e);
            },
        };
        assert(gaps[1] >= 0);
        let upload_ttfb = match ct.server.first_byte_ts.duration_since(ct.read_done_ts) {
            Ok(span) => span,
            Err(e) => {
                assert(ct.first_goes_back_in(2));
                return Err(e);
            },
        };
        assert(gaps[2] >= 0);
        let upload_time = match ct.server.read_done_ts.duration_since(ct.server.first_byte_ts) {
            Ok(span) => span,
            Err(e) => {
                assert(ct.first_goes_back_in(3));
                return Err(e);
            },
        };
        assert(gaps[3] >= 0);
        Ok(
            TimingSummary {
                download_ttfb,
                download_rate: Rate { bytes: ct.download_size, time: download_time },
                upload_ttfb,
                upload_rate: Rate { bytes: ct.upload_size, time: upload_time },
            },
        )
    }
}

/// A summary can be made exactly if the server's accept, the client's first byte, the client's
/// last byte, the server's first byte and the server's last byte are noted in this order.
pub proof fn law_summarized_iff_in_order(ct: ClientTiming)
    ensures
        (forall|k: int| 0 <= k < 4 ==> #[trigger] ct.intervals()[k] >= 0) <==> (
        ct.server.accepted_ts@ <= ct.first_byte_ts@ <= ct.read_done_ts@
            <= ct.server.first_byte_ts@ <= ct.server.read_done_ts@),
{
    let gaps = ct.intervals();
    if forall|k: int| 0 <= k < 4 ==> #[trigger] gaps[k] >= 0 {
        assert(gaps[0] >= 0 && gaps[1] >= 0 && gaps[2] >= 0 && gaps[3] >= 0);
    }
}

/// What a summary says of an exchange: the download's TTFB is the time from the server's accept to
/// the client's first byte, and its rate is the size of the download in the time from the client's
/// first byte to its last; the upload's TTFB is the time from the client's last byte to the
/// server's first, and its rate is the size of the upload in the time from the server's first byte
/// to its last.
pub proof fn law_summary_meaning(ct: ClientTiming, summary: TimingSummary)
    ensures
        summary.summarizes(ct) <==> {
            &&& summary.download_ttfb@ == ct.first_byte_ts@ - ct.server.accepted_ts@
            &&& summary.download_rate.bytes == ct.download_size
            &&& summary.download_rate.time@ == ct.read_done_ts@ - ct.first_byte_ts@
            &&& summary.upload_ttfb@ == ct.server.first_byte_ts@ - ct.read_done_ts@
            &&& summary.upload_rate.bytes == ct.upload_size
            &&& summary.upload_rate.time@ == ct.server.read_done_ts@ - ct.server.first_byte_ts@
        },
{
}

/// What the error of a failed summary says: between the first two of the five clocks, in their
/// order, of which the later shows the earlier time, the clock went back by their difference.
pub proof fn law_failure_meaning(ct: ClientTiming, k: int)
    requires
        ct.first_goes_back_in(k),
    ensures
        0 <= k < 4,
        ct.first_byte_ts@ < ct.server.accepted_ts@ ==> -ct.intervals()[k]
            == ct.server.accepted_ts@ - ct.first_byte_ts@,
        ct.server.accepted_ts@ <= ct.first_byte_ts@ && ct.read_done_ts@ < ct.first_byte_ts@
            ==> -ct.intervals()[k] == ct.first_byte_ts@ - ct.read_done_ts@,
        ct.server.accepted_ts@ <= ct.first_byte_ts@ <= ct.read_done_ts@
            && ct.server.first_byte_ts@ < ct.read_done_ts@ ==> -ct.intervals()[k]
            == ct.read_done_ts@ - ct.server.first_byte_ts@,
        ct.server.accepted_ts@ <= ct.first_byte_ts@ <= ct.read_done_ts@
            <= ct.server.first_byte_ts@ ==> -ct.intervals()[k] == ct.server.first_byte_ts@
            - ct.server.read_done_ts@ > 0,
{
    let gaps = ct.intervals();
    assert(k > 0 ==> gaps[0] >= 0);
    assert(k > 1 ==> gaps[1] >= 0);
    assert(k > 2 ==> gaps[2] >= 0);
}

/// The four intervals of a summary leave no time out: together they are the time from the
/// server's accept to its last byte.
pub proof fn law_intervals_cover_exchange(ct: ClientTiming, summary: TimingSummary)
    requires
        summary.summarizes(ct),
    ensures
        summary.download_ttfb@ + summary.download_rate.time@ + summary.upload_ttfb@
            + summary.upload_rate.time@ == ct.server.read_done_ts@ - ct.server.accepted_ts@,
{
}

/// The interval in which the clock first went back is one and no other, so the error of a failed
/// summary is determined.
pub proof fn law_first_step_back_determined(ct: ClientTiming, j: int, k: int)
    requires
        ct.first_goes_back_in(j),
        ct.first_goes_back_in(k),
    ensures
        j == k,
{
    let gaps = ct.intervals();
    if j < k {
        assert(gaps[j] >= 0);
    } else if k < j {
        assert(gaps[k] >= 0);
    }
}

/// The summary of an exchange is determined by its timing, and does not depend on when the
/// connection was made nor on when either side finished sending.
pub proof fn law_summary_determined(
    ct: ClientTiming,
    other: ClientTiming,
    summary: TimingSummary,
    other_summary: TimingSummary,
)
    requires
        summary.summarizes(ct),
        other_summary.summarizes(other),
        ct.first_byte_ts == other.first_byte_ts,
        ct.read_done_ts == other.read_done_ts,
        ct.server.accepted_ts == other.server.accepted_ts,
        ct.server.first_byte_ts == other.server.first_byte_ts,
        ct.server.read_done_ts == other.server.read_done_ts,
        ct.download_size == other.download_size,
        ct.upload_size == other.upload_size,
    ensures
        summary == other_summary,
{
    crate::time::law_span_determined(summary.download_ttfb, other_summary.download_ttfb);
    crate::time::law_span_determined(summary.upload_ttfb, other_summary.upload_ttfb);
    crate::time::law_span_determined(summary.download_rate.time, other_summary.download_rate.time);
    crate::time::law_span_determined(summary.upload_rate.time, other_summary.upload_rate.time);
}

/// A megabit is a million bits, of which a byte has eight.
pub proof fn law_megabit()
    ensures
        8 * BYTES_PER_MEGABIT == 1_000_000,
{
}

} // verus!
