use arti_bench::exchange::{ClientStarted, ExchangeFailure, ServerAccepted, ServerSent};
use arti_bench::time::{EpochOffset, Timestamp};
use arti_bench::timing::{ClientTiming, ServerTiming, TimingSummary};

const UPLOAD: [u8; 4] = [1, 2, 3, 4];
const DOWNLOAD: [u8; 6] = [9, 8, 7, 6, 5, 4];

fn at(secs: u64) -> Timestamp {
    Timestamp::from_epoch_offset(EpochOffset { before: false, secs, nanos: 0 }).unwrap()
}

fn server_timing() -> ServerTiming {
    ServerTiming {
        accepted_ts: at(10),
        copied_ts: at(11),
        first_byte_ts: at(30),
        read_done_ts: at(40),
    }
}

/// A server that has sent the download and expects the given upload.
fn sent(expected: &[u8]) -> ServerSent<'_> {
    ServerAccepted::new(&DOWNLOAD, expected, at(10)).payload_sent(6, at(11)).ok().unwrap()
}

#[test]
fn server_finishes() {
    let reading = sent(&UPLOAD).first_read(3, at(30)).ok().unwrap();
    assert_eq!(reading.filled, 3);
    assert_eq!(reading.payload_read(&UPLOAD, at(40)), Ok(server_timing()));
}

#[test]
fn server_must_have_sent_everything() {
    for copied in [0, 5, 7] {
        let r = ServerAccepted::new(&DOWNLOAD, &UPLOAD, at(10)).payload_sent(copied, at(11));
        assert_eq!(r.err(), Some(ExchangeFailure::SendSizeMismatch { copied, size: 6 }));
    }
}

#[test]
fn server_must_receive_something() {
    assert_eq!(sent(&UPLOAD).first_read(0, at(30)).err(), Some(ExchangeFailure::UnexpectedEof));
}

#[test]
fn server_never_finishes_with_an_empty_upload() {
    assert_eq!(sent(&[]).first_read(0, at(30)).err(), Some(ExchangeFailure::UnexpectedEof));
}

#[test]
fn server_must_receive_what_it_expects() {
    for received in [[1, 2, 3, 5], [0, 0, 0, 0]] {
        let reading = sent(&UPLOAD).first_read(4, at(30)).ok().unwrap();
        assert_eq!(reading.payload_read(&received, at(40)), Err(ExchangeFailure::Corruption));
    }
}

#[test]
fn client_finishes() {
    let reading = ClientStarted::new(&UPLOAD, &DOWNLOAD, at(9)).first_read(2, at(15));
    assert_eq!(reading.filled, 2);
    let sent = reading.payload_read(at(25)).payload_sent(&DOWNLOAD, at(27)).ok().unwrap();
    let timing = sent.timing_read(server_timing());
    assert_eq!(
        timing,
        ClientTiming {
            started_ts: at(9),
            first_byte_ts: at(15),
            read_done_ts: at(25),
            copied_ts: at(27),
            server: server_timing(),
            download_size: 6,
            upload_size: 4,
        }
    );
}

#[test]
fn client_goes_on_after_reading_nothing() {
    let reading = ClientStarted::new(&UPLOAD, &[], at(9)).first_read(0, at(15));
    assert_eq!(reading.filled, 0);
    let sent = reading.payload_read(at(25)).payload_sent(&[], at(27)).ok().unwrap();
    let timing = sent.timing_read(server_timing());
    assert_eq!((timing.download_size, timing.upload_size), (0, 4));
}

#[test]
fn client_must_receive_what_it_expects() {
    let read = ClientStarted::new(&UPLOAD, &DOWNLOAD, at(9))
        .first_read(6, at(15))
        .payload_read(at(25));
    let r = read.payload_sent(&[9, 8, 7, 6, 5, 5], at(27));
    assert_eq!(r.err(), Some(ExchangeFailure::Corruption));
}

#[test]
fn finished_exchange_is_summarized() {
    let read = ClientStarted::new(&UPLOAD, &DOWNLOAD, at(9))
        .first_read(6, at(15))
        .payload_read(at(25));
    let sent = read.payload_sent(&DOWNLOAD, at(27)).ok().unwrap();
    let s = TimingSummary::generate(&sent.timing_read(server_timing())).unwrap();
    assert_eq!(s.download_ttfb.secs(), 5);
    assert_eq!((s.download_rate.bytes, s.download_rate.time.secs()), (6, 10));
    assert_eq!(s.upload_ttfb.secs(), 5);
    assert_eq!((s.upload_rate.bytes, s.upload_rate.time.secs()), (4, 10));
}
