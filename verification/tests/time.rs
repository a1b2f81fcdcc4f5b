use arti_bench::time::{EpochOffset, Timestamp, LATEST, NANOS_PER_SEC};

fn offset(before: bool, secs: u64, nanos: u32) -> EpochOffset {
    EpochOffset { before, secs, nanos }
}

fn at(secs: u64, nanos: u32) -> Timestamp {
    Timestamp::from_epoch_offset(offset(false, secs, nanos)).unwrap()
}

#[test]
fn offset_is_given_back() {
    for o in [
        offset(false, 0, 0),
        offset(false, 1_600_000_000, 123_456_789),
        offset(true, 0, 1),
        offset(true, 12, 999_999_999),
        offset(false, i64::MAX as u64, 999_999_999),
        offset(true, 1u64 << 63, 0),
    ] {
        let t = Timestamp::from_epoch_offset(o).unwrap();
        assert_eq!(t.epoch_offset(), o);
        assert_eq!(Timestamp::from_epoch_offset(t.epoch_offset()), Some(t));
    }
}

#[test]
fn epoch_does_not_lie_before_itself() {
    let t = Timestamp::from_epoch_offset(offset(true, 0, 0)).unwrap();
    assert_eq!(t.epoch_offset(), offset(false, 0, 0));
    assert_eq!(t, at(0, 0));
}

#[test]
fn offset_out_of_range_is_refused() {
    assert_eq!(Timestamp::from_epoch_offset(offset(false, 5, NANOS_PER_SEC)), None);
    assert_eq!(Timestamp::from_epoch_offset(offset(false, 1u64 << 63, 0)), None);
    assert_eq!(Timestamp::from_epoch_offset(offset(true, 1u64 << 63, 1)), None);
    assert_eq!(Timestamp::from_epoch_offset(offset(true, u64::MAX, 0)), None);
}

#[test]
fn duration_between_timestamps() {
    let span = at(12, 250_000_000).duration_since(at(10, 750_000_000)).unwrap();
    assert_eq!(span.secs(), 1);
    assert_eq!(span.subsec_nanos(), 500_000_000);
    let none = at(7, 7).duration_since(at(7, 7)).unwrap();
    assert_eq!((none.secs(), none.subsec_nanos()), (0, 0));
}

#[test]
fn duration_across_the_epoch() {
    let before = Timestamp::from_epoch_offset(offset(true, 1, 400_000_000)).unwrap();
    let span = at(2, 100_000_000).duration_since(before).unwrap();
    assert_eq!((span.secs(), span.subsec_nanos()), (3, 500_000_000));
}

#[test]
fn longest_duration() {
    let first = Timestamp::from_epoch_offset(offset(true, 1u64 << 63, 0)).unwrap();
    let last = at(i64::MAX as u64, 999_999_999);
    let span = last.duration_since(first).unwrap();
    assert_eq!((span.secs(), span.subsec_nanos()), (u64::MAX, 999_999_999));
    assert_eq!(LATEST, i64::MAX as i128 * 1_000_000_000 + 999_999_999);
}

#[test]
fn clock_that_went_back_says_by_how_much() {
    let e = at(10, 0).duration_since(at(12, 1)).unwrap_err();
    assert_eq!((e.behind.secs(), e.behind.subsec_nanos()), (2, 1));
}
