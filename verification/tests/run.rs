use arti_bench::results::{BenchmarkType, Metrics, ResultTable};
use arti_bench::run::{planned_benchmarks, summarize_run, BenchmarkRun, RunError, RunStep};
use arti_bench::time::{EpochOffset, Timestamp};
use arti_bench::timing::{ClientTiming, ServerTiming};

fn at(secs: u64) -> Timestamp {
    Timestamp::from_epoch_offset(EpochOffset { before: false, secs, nanos: 0 }).unwrap()
}

/// A timing whose download takes `secs` seconds.
fn timing(secs: u64) -> ClientTiming {
    ClientTiming {
        started_ts: at(0),
        first_byte_ts: at(100),
        read_done_ts: at(100 + secs),
        copied_ts: at(500),
        server: ServerTiming {
            accepted_ts: at(90),
            copied_ts: at(95),
            first_byte_ts: at(200),
            read_done_ts: at(300),
        },
        download_size: 1,
        upload_size: 2,
    }
}

fn connect(run: &mut BenchmarkRun<u8>, stream: u8) {
    assert_eq!(run.next_step(), RunStep::Connect);
    assert!(run.stream_supplied::<u8>(Some(Ok(stream))).is_ok());
}

#[test]
fn benchmark_from_start_to_finish() {
    let mut run = BenchmarkRun::new(BenchmarkType::Socks, 3, 2);
    assert_eq!(run.stream_budget(), 6);
    for n in 0..3u8 {
        connect(&mut run, 10 * n);
        connect(&mut run, 10 * n + 1);
        assert_eq!(run.next_step(), RunStep::Measure { run: n as usize + 1 });
        assert_eq!(run.start_run(), [10 * n, 10 * n + 1]);
        assert_eq!(run.next_step(), RunStep::Collect);
        let secs = 10 * n as u64;
        let outcomes: Vec<Result<ClientTiming, u8>> = vec![Ok(timing(secs)), Ok(timing(secs + 1))];
        assert!(run.run_measured(outcomes).is_ok());
    }
    assert_eq!(run.next_step(), RunStep::Finish);
    let times: Vec<u64> = run.summaries().iter().map(|s| s.download_rate.time.secs()).collect();
    assert_eq!(times, [0, 1, 10, 11, 20, 21]);
}

#[test]
fn run_uses_the_connections_taken_for_it() {
    let mut run = BenchmarkRun::new(BenchmarkType::Socks, 1, 4);
    for stream in [9, 2, 9, 5] {
        connect(&mut run, stream);
    }
    assert_eq!(run.next_step(), RunStep::Measure { run: 1 });
    assert_eq!(run.start_run(), [9, 2, 9, 5]);
}

#[test]
fn benchmark_without_samples_is_over_at_once() {
    let run = BenchmarkRun::<u8>::new(BenchmarkType::Socks, 0, 5);
    assert_eq!(run.stream_budget(), 0);
    assert_eq!(run.next_step(), RunStep::Finish);
    assert!(run.summaries().is_empty());
}

#[test]
fn benchmark_without_connections_measures_nothing() {
    let mut run = BenchmarkRun::<u8>::new(BenchmarkType::Socks, 2, 0);
    for n in 1..3 {
        assert_eq!(run.next_step(), RunStep::Measure { run: n });
        assert!(run.start_run().is_empty());
        assert_eq!(run.next_step(), RunStep::Collect);
        assert!(run.run_measured::<u8>(vec![]).is_ok());
    }
    assert_eq!(run.next_step(), RunStep::Finish);
    assert!(run.summaries().is_empty());
}

#[test]
fn benchmark_that_gets_no_connection() {
    let mut run = BenchmarkRun::new(BenchmarkType::Socks, 1, 2);
    connect(&mut run, 1);
    assert!(matches!(run.stream_supplied::<u8>(None), Err(RunError::OutOfStreams)));
    assert!(matches!(run.stream_supplied::<u8>(Some(Err(7))), Err(RunError::Failed(7))));
    connect(&mut run, 2);
    assert_eq!(run.next_step(), RunStep::Measure { run: 1 });
    assert_eq!(run.start_run(), [1, 2]);
}

#[test]
fn failed_run_is_not_counted() {
    let mut run = BenchmarkRun::new(BenchmarkType::Socks, 1, 2);
    connect(&mut run, 1);
    connect(&mut run, 2);
    run.start_run();
    let r = run.run_measured(vec![Ok(timing(1)), Err(3u8)]);
    assert!(matches!(r, Err(RunError::Failed(3))));
    assert_eq!(run.next_step(), RunStep::Collect);
    assert!(run.summaries().is_empty());
}

#[test]
fn first_failure_is_reported() {
    let r = summarize_run(vec![Ok(timing(1)), Err(1u8), Err(2u8)]);
    assert!(matches!(r, Err(RunError::Failed(1))));
    let mut late = timing(1);
    late.server.accepted_ts = at(103);
    match summarize_run(vec![Ok(late), Err(2u8)]) {
        Err(RunError::Clock(e)) => assert_eq!(e.behind.secs(), 3),
        _ => panic!("the clock went back"),
    }
}

#[test]
fn run_is_summarized_in_order() {
    let outcomes: Vec<Result<ClientTiming, u8>> = vec![Ok(timing(3)), Ok(timing(1)), Ok(timing(2))];
    let summaries = summarize_run(outcomes).ok().unwrap();
    let times: Vec<u64> = summaries.iter().map(|s| s.download_rate.time.secs()).collect();
    assert_eq!(times, [3, 1, 2]);
}

#[test]
fn proxy_is_benchmarked_if_there_is_one() {
    assert_eq!(
        planned_benchmarks(true),
        [BenchmarkType::RawLoopback, BenchmarkType::Socks, BenchmarkType::Arti]
    );
    assert_eq!(planned_benchmarks(false), [BenchmarkType::RawLoopback, BenchmarkType::Arti]);
}

#[test]
fn results_of_a_benchmark_are_kept() {
    let mut run = BenchmarkRun::new(BenchmarkType::Arti, 2, 1);
    for secs in [7, 3] {
        connect(&mut run, 0);
        run.start_run();
        let outcomes: Vec<Result<ClientTiming, u8>> = vec![Ok(timing(secs))];
        assert!(run.run_measured(outcomes).is_ok());
    }
    let raw: Vec<Metrics> = run
        .summaries()
        .iter()
        .map(|s| Metrics {
            download_ttfb_sec: (s.download_ttfb.secs() as f64).to_bits(),
            download_rate_megabit: (s.download_rate.time.secs() as f64).to_bits(),
            upload_ttfb_sec: (s.upload_ttfb.secs() as f64).to_bits(),
            upload_rate_megabit: (s.upload_rate.time.secs() as f64).to_bits(),
        })
        .collect();
    let mut results = ResultTable::new();
    run.conclude(raw.clone(), &mut results);
    let r = results.get(BenchmarkType::Arti).unwrap();
    assert_eq!(r.ty, BenchmarkType::Arti);
    assert_eq!((r.samples, r.connections), (2, 1));
    assert_eq!(r.results_raw, raw);
    assert_eq!(f64::from_bits(r.results_best.download_rate_megabit), 7.0);
    assert_eq!(f64::from_bits(r.results_worst.download_rate_megabit), 3.0);
    assert!(results.get(BenchmarkType::RawLoopback).is_none());
}
