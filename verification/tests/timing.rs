use arti_bench::time::{EpochOffset, Span, Timestamp};
use arti_bench::timing::{ClientTiming, ServerTiming, TimingSummary, BYTES_PER_MEGABIT};

fn at(millis: u64) -> Timestamp {
    let nanos = (millis % 1000) as u32 * 1_000_000;
    Timestamp::from_epoch_offset(EpochOffset { before: false, secs: millis / 1000, nanos }).unwrap()
}

fn millis(span: Span) -> u64 {
    span.secs() * 1000 + (span.subsec_nanos() / 1_000_000) as u64
}

fn timing(
    accepted: u64,
    first: u64,
    done: u64,
    server_first: u64,
    server_done: u64,
) -> ClientTiming {
    ClientTiming {
        started_ts: at(5),
        first_byte_ts: at(first),
        read_done_ts: at(done),
        copied_ts: at(6),
        server: ServerTiming {
            accepted_ts: at(accepted),
            copied_ts: at(7),
            first_byte_ts: at(server_first),
            read_done_ts: at(server_done),
        },
        download_size: 10_000,
        upload_size: 300,
    }
}

#[test]
fn summary_of_an_exchange() {
    let s = TimingSummary::generate(&timing(1000, 1200, 3700, 3750, 9000)).unwrap();
    assert_eq!(millis(s.download_ttfb), 200);
    assert_eq!(millis(s.download_rate.time), 2500);
    assert_eq!(s.download_rate.bytes, 10_000);
    assert_eq!(millis(s.upload_ttfb), 50);
    assert_eq!(millis(s.upload_rate.time), 5250);
    assert_eq!(s.upload_rate.bytes, 300);
    assert_eq!(BYTES_PER_MEGABIT * 8, 1_000_000);
}

#[test]
fn intervals_cover_the_exchange() {
    let s = TimingSummary::generate(&timing(1000, 1200, 3700, 3750, 9000)).unwrap();
    let sum = millis(s.download_ttfb)
        + millis(s.download_rate.time)
        + millis(s.upload_ttfb)
        + millis(s.upload_rate.time);
    assert_eq!(sum, 8000);
}

#[test]
fn summary_without_any_time_passing() {
    let s = TimingSummary::generate(&timing(1000, 1000, 1000, 1000, 1000)).unwrap();
    assert_eq!(millis(s.download_ttfb), 0);
    assert_eq!(millis(s.download_rate.time), 0);
    assert_eq!(millis(s.upload_ttfb), 0);
    assert_eq!(millis(s.upload_rate.time), 0);
}

#[test]
fn clock_going_back_fails_the_summary() {
    let behind = |ct: &ClientTiming| millis(TimingSummary::generate(ct).unwrap_err().behind);
    assert_eq!(behind(&timing(1001, 1000, 2000, 3000, 4000)), 1);
    assert_eq!(behind(&timing(1000, 2002, 2000, 3000, 4000)), 2);
    assert_eq!(behind(&timing(1000, 1000, 3003, 3000, 4000)), 3);
    assert_eq!(behind(&timing(1000, 1000, 2000, 4004, 4000)), 4);
}

#[test]
fn first_step_back_is_reported() {
    let ct = timing(5000, 4990, 4000, 3000, 2000);
    assert_eq!(millis(TimingSummary::generate(&ct).unwrap_err().behind), 10);
}

#[test]
fn other_clocks_do_not_matter() {
    let ct = timing(1000, 1200, 3700, 3750, 9000);
    let mut other = ct.clone();
    other.started_ts = at(99_000);
    other.copied_ts = at(0);
    other.server.copied_ts = at(77_000);
    assert_eq!(TimingSummary::generate(&ct).unwrap(), TimingSummary::generate(&other).unwrap());
}
