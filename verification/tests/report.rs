use arti_bench::report::summary_line;

#[test]
fn summary_in_one_line() {
    assert_eq!(
        summary_line("12.34", "56.70", "98.76", "5.43"),
        "12.34 Mbit/s up (ttfb 56.70ms), 98.76 Mbit/s down (ttfb 5.43ms)"
    );
}
