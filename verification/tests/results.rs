use arti_bench::results::{BenchmarkResults, BenchmarkType, Metrics, ResultTable};

fn metrics(download_ttfb: f64, download_rate: f64, upload_ttfb: f64, upload_rate: f64) -> Metrics {
    Metrics {
        download_ttfb_sec: download_ttfb.to_bits(),
        download_rate_megabit: download_rate.to_bits(),
        upload_ttfb_sec: upload_ttfb.to_bits(),
        upload_rate_megabit: upload_rate.to_bits(),
    }
}

fn floats(bits: &[u64]) -> Vec<f64> {
    bits.iter().map(|b| f64::from_bits(*b)).collect()
}

fn five() -> Vec<Metrics> {
    vec![
        metrics(0.3, 10.0, 0.05, 7.0),
        metrics(0.1, 30.0, 0.04, 6.0),
        metrics(0.5, 20.0, 0.03, 5.0),
        metrics(0.2, 50.0, 0.02, 9.0),
        metrics(0.4, 40.0, 0.01, 8.0),
    ]
}

#[test]
fn statistics_of_an_odd_number_of_samples() {
    let r = BenchmarkResults::generate(BenchmarkType::Socks, 5, five());
    assert_eq!(r.ty, BenchmarkType::Socks);
    assert_eq!(r.samples, 5);
    assert_eq!(r.connections, 5);
    assert_eq!(r.results_raw, five());
    assert_eq!(r.results_median, metrics(0.3, 30.0, 0.03, 7.0));
    assert_eq!(r.results_best, metrics(0.1, 50.0, 0.01, 9.0));
    assert_eq!(r.results_worst, metrics(0.5, 10.0, 0.05, 5.0));
}

#[test]
fn statistics_of_an_even_number_of_samples() {
    let raw = five()[..4].to_vec();
    let r = BenchmarkResults::generate(BenchmarkType::Arti, 2, raw);
    assert_eq!(r.samples, 4);
    assert_eq!(r.connections, 2);
    assert_eq!(r.results_median, metrics(0.2, 20.0, 0.03, 6.0));
    assert_eq!(r.results_best, metrics(0.1, 50.0, 0.02, 9.0));
    assert_eq!(r.results_worst, metrics(0.5, 10.0, 0.05, 5.0));
}

#[test]
fn median_of_two_samples_is_the_lower() {
    let raw = vec![metrics(2.0, 2.0, 2.0, 2.0), metrics(1.0, 1.0, 1.0, 1.0)];
    let r = BenchmarkResults::generate(BenchmarkType::Socks, 2, raw);
    assert_eq!(r.results_median, metrics(1.0, 1.0, 1.0, 1.0));
}

#[test]
fn figures_in_ascending_order() {
    let r = BenchmarkResults::generate(BenchmarkType::Socks, 5, five());
    assert_eq!(floats(&r.results_sorted.download_ttfb_secs), [0.1, 0.2, 0.3, 0.4, 0.5]);
    assert_eq!(floats(&r.results_sorted.download_rate_megabits), [10.0, 20.0, 30.0, 40.0, 50.0]);
    assert_eq!(floats(&r.results_sorted.upload_ttfb_secs), [0.01, 0.02, 0.03, 0.04, 0.05]);
    assert_eq!(floats(&r.results_sorted.upload_rate_megabits), [5.0, 6.0, 7.0, 8.0, 9.0]);
}

#[test]
fn single_sample_is_everything() {
    let m = metrics(0.25, 12.5, 0.75, 3.5);
    let r = BenchmarkResults::generate(BenchmarkType::RawLoopback, 1, vec![m]);
    assert_eq!((r.results_best, r.results_median, r.results_worst), (m, m, m));
}

#[test]
fn sample_order_does_not_matter() {
    let a = BenchmarkResults::generate(BenchmarkType::Arti, 3, five());
    let mut raw = five();
    raw.reverse();
    raw.swap(0, 2);
    let b = BenchmarkResults::generate(BenchmarkType::Arti, 3, raw);
    assert_eq!(a.results_median, b.results_median);
    assert_eq!(a.results_best, b.results_best);
    assert_eq!(a.results_worst, b.results_worst);
}

#[test]
fn infinite_rate_is_the_best() {
    let raw = vec![metrics(0.1, f64::INFINITY, 0.1, 1.0), metrics(0.1, 3.0, 0.1, 2.0)];
    let r = BenchmarkResults::generate(BenchmarkType::Arti, 2, raw);
    assert_eq!(r.results_best, metrics(0.1, f64::INFINITY, 0.1, 2.0));
    assert_eq!(r.results_worst, metrics(0.1, 3.0, 0.1, 1.0));
}

#[test]
fn results_are_kept_by_type() {
    let mut table = ResultTable::new();
    assert!(table.get(BenchmarkType::RawLoopback).is_none());
    table.insert(BenchmarkResults::generate(BenchmarkType::RawLoopback, 1, five()));
    table.insert(BenchmarkResults::generate(BenchmarkType::Arti, 2, five()));
    assert_eq!(table.get(BenchmarkType::RawLoopback).unwrap().connections, 1);
    assert_eq!(table.get(BenchmarkType::Arti).unwrap().connections, 2);
    assert!(table.get(BenchmarkType::Socks).is_none());
}

#[test]
fn later_results_take_the_place_of_earlier_ones() {
    let mut table = ResultTable::new();
    table.insert(BenchmarkResults::generate(BenchmarkType::Socks, 1, five()));
    table.insert(BenchmarkResults::generate(BenchmarkType::Arti, 2, five()));
    table.insert(BenchmarkResults::generate(BenchmarkType::Socks, 9, five()));
    assert_eq!(table.get(BenchmarkType::Socks).unwrap().connections, 9);
    assert_eq!(table.get(BenchmarkType::Arti).unwrap().connections, 2);
}
