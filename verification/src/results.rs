//! Statistics over all samples of a benchmark, and the results of all benchmarks.

use std::collections::HashMap;

use vstd::prelude::*;
use vstd::seq_lib::group_to_multiset_ensures;

use crate::order::{
    count_above, count_below, law_ends_of_order, law_place_in_order, law_sorted_meaning,
    law_sorted_unique, rank, sorted, sorts,
};

verus! {

/// The type of benchmark conducted.
#[derive(Debug, Clone, Copy, PartialEq, Eq, Hash, Structural)]
pub enum BenchmarkType {
    /// Use the benchmark server on its own, without using any proxy.
    ///
    /// This is useful to get an idea of how well the benchmarking utility performs on its own.
    RawLoopback,
    /// Benchmark via a SOCKS5 proxy (usually that of a chutney node).
    Socks,
    /// Benchmark via Arti.
    Arti,
}

/// The figures of one sample, each as the bit pattern of a floating-point number.
#[derive(Debug, Clone, Copy, PartialEq, Eq, Structural)]
pub struct Metrics {
    /// The time to first byte (TTFB) for the download benchmark, in seconds.
    pub download_ttfb_sec: u64,
    /// The average download speed, in megabits per second.
    pub download_rate_megabit: u64,
    /// The time to first byte (TTFB) for the upload benchmark, in seconds.
    pub upload_ttfb_sec: u64,
    /// The average upload speed, in megabits per second.
    pub upload_rate_megabit: u64,
}

/// The figures of all samples, metric by metric, each metric in ascending order.
#[derive(Debug, Clone)]
pub struct SortedMetrics {
    /// All times to first byte of a download.
    pub download_ttfb_secs: Vec<u64>,
    /// All download speeds.
    pub download_rate_megabits: Vec<u64>,
    /// All times to first byte of an upload.
    pub upload_ttfb_secs: Vec<u64>,
    /// All upload speeds.
    pub upload_rate_megabits: Vec<u64>,
}

/// A set of benchmark results for a given `BenchmarkType`, including information about averages.
#[derive(Debug, Clone)]
pub struct BenchmarkResults {
    /// The type of benchmark conducted.
    pub ty: BenchmarkType,
    /// The number of raw results: one for each connection of each run.
    pub samples: usize,
    /// The number of concurrent connections used during the run.
    pub connections: usize,
    /// The "low-median" average of all metrics throughout all benchmark runs.
    ///
    /// # Important note
    ///
    /// This is only the median if `samples` is an odd number, else it is the
    /// `samples / 2`th sample of each set of metrics in sorted order, counted from one: the
    /// lower of the two in the middle.
    pub results_median: Metrics,
    /// The best value recorded for each metric throughout all benchmark runs.
    pub results_best: Metrics,
    /// The worst value recorded for each metric throughout all benchmark runs.
    pub results_worst: Metrics,
    /// The raw benchmark results.
    pub results_raw: Vec<Metrics>,
    /// The raw figures in ascending order. The mean average of a metric is the sum of its
    /// figures, added up in this order, divided by `samples`.
    pub results_sorted: SortedMetrics,
}

/// The download TTFBs of the samples, in the order of the samples.
pub open spec fn download_ttfbs(raw: Seq<Metrics>) -> Seq<u64> {
    raw.map_values(|m: Metrics| m.download_ttfb_sec)
}

/// The download rates of the samples, in the order of the samples.
pub open spec fn download_rates(raw: Seq<Metrics>) -> Seq<u64> {
    raw.map_values(|m: Metrics| m.download_rate_megabit)
}

/// The upload TTFBs of the samples, in the order of the samples.
pub open spec fn upload_ttfbs(raw: Seq<Metrics>) -> Seq<u64> {
    raw.map_values(|m: Metrics| m.upload_ttfb_sec)
}

/// The upload rates of the samples, in the order of the samples.
pub open spec fn upload_rates(raw: Seq<Metrics>) -> Seq<u64> {
    raw.map_values(|m: Metrics| m.upload_rate_megabit)
}

impl SortedMetrics {
    /// Whether these are the figures of `raw`, each metric in ascending order.
    pub open spec fn sorts(self, raw: Seq<Metrics>) -> bool {
        &&& sorts(self.download_ttfb_secs@, download_ttfbs(raw))
        &&& sorts(self.download_rate_megabits@, download_rates(raw))
        &&& sorts(self.upload_ttfb_secs@, upload_ttfbs(raw))
        &&& sorts(self.upload_rate_megabits@, upload_rates(raw))
    }

    /// The figures at place `ttfb` among the TTFBs and at place `rate` among the rates.
    pub open spec fn at(self, ttfb: int, rate: int) -> Metrics {
        Metrics {
            download_ttfb_sec: self.download_ttfb_secs@[ttfb],
            download_rate_megabit: self.download_rate_megabits@[rate],
            upload_ttfb_sec: self.upload_ttfb_secs@[ttfb],
            upload_rate_megabit: self.upload_rate_megabits@[rate],
        }
    }

    /// Takes the figures of the samples apart by metric and sorts each metric.
    fn of(raw: &Vec<Metrics>) -> (r: SortedMetrics)
        ensures
            r.sorts(raw@),
            r.download_ttfb_secs.len() == raw.len(),
            r.download_rate_megabits.len() == raw.len(),
            r.upload_ttfb_secs.len() == raw.len(),
            r.upload_rate_megabits.len() == raw.len(),
    {
        let mut download_ttfb_secs: Vec<u64> = Vec::new();
        let mut download_rate_megabits: Vec<u64> = Vec::new();
        let mut upload_ttfb_secs: Vec<u64> = Vec::new();
        let mut upload_rate_megabits: Vec<u64> = Vec::new();
        for i in 0..raw.len()
            invariant
                download_ttfb_secs@ =~= download_ttfbs(raw@).take(i as int),
                download_rate_megabits@ =~= download_rates(raw@).take(i as int),
                upload_ttfb_secs@ =~= upload_ttfbs(raw@).take(i as int),
                upload_rate_megabits@ =~= upload_rates(raw@).take(i as int),
        {
            download_ttfb_secs.push(raw[i].download_ttfb_sec);
            download_rate_megabits.push(raw[i].download_rate_megabit);
            upload_ttfb_secs.push(raw[i].upload_ttfb_sec);
            upload_rate_megabits.push(raw[i].upload_rate_megabit);
        }
        assert(download_ttfb_secs@ =~= download_ttfbs(raw@));
        assert(download_rate_megabits@ =~= download_rates(raw@));
        assert(upload_ttfb_secs@ =~= upload_ttfbs(raw@));
        assert(upload_rate_megabits@ =~= upload_rates(raw@));
        SortedMetrics {
            download_ttfb_secs: sorted(&download_ttfb_secs),
            download_rate_megabits: sorted(&download_rate_megabits),
            upload_ttfb_secs: sorted(&upload_ttfb_secs),
            upload_rate_megabits: sorted(&upload_rate_megabits),
        }
    }
}

impl BenchmarkResults {
    /// Whether the statistics are those of the raw results. A low TTFB is good and a low rate is
    /// bad, so the best sample is the first of the TTFBs and the last of the rates.
    pub open spec fn well_formed(self) -> bool {
        let n = self.results_raw@.len() as int;
        &&& n > 0
        &&& self.samples == n
        &&& self.results_sorted.sorts(self.results_raw@)
        &&& self.results_median == self.results_sorted.at((n - 1) / 2, (n - 1) / 2)
        &&& self.results_best == self.results_sorted.at(0, n - 1)
        &&& self.results_worst == self.results_sorted.at(n - 1, 0)
    }

    /// Generate summarized benchmark results from raw run data.
    pub fn generate(ty: BenchmarkType, connections: usize, raw: Vec<Metrics>) -> (r:
        BenchmarkResults)
        requires
            raw.len() > 0,
        ensures
            r.ty == ty,
            r.connections == connections,
            r.results_raw@ == raw@,
            r.well_formed(),
    {
        let results_sorted = SortedMetrics::of(&raw);
        let download_ttfb_secs = &results_sorted.download_ttfb_secs;
        let download_rate_megabits = &results_sorted.download_rate_megabits;
        let upload_ttfb_secs = &results_sorted.upload_ttfb_secs;
        let upload_rate_megabits = &results_sorted.upload_rate_megabits;
        let samples: usize = raw.len();
        let middle: usize = (samples - 1) / 2;
        let results_median = Metrics {
            download_ttfb_sec: download_ttfb_secs[middle],
            download_rate_megabit: download_rate_megabits[middle],
            upload_ttfb_sec: upload_ttfb_secs[middle],
            upload_rate_megabit: upload_rate_megabits[middle],
        };
        let results_best = Metrics {
            download_ttfb_sec: download_ttfb_secs[0],
            download_rate_megabit: download_rate_megabits[samples - 1],
            upload_ttfb_sec: upload_ttfb_secs[0],
            upload_rate_megabit: upload_rate_megabits[samples - 1],
        };
        let results_worst = Metrics {
            download_ttfb_sec: download_ttfb_secs[samples - 1],
            download_rate_megabit: download_rate_megabits[0],
            upload_ttfb_sec: upload_ttfb_secs[samples - 1],
            upload_rate_megabit: upload_rate_megabits[0],
        };
        BenchmarkResults {
            ty,
            samples,
            connections,
            results_median,
            results_best,
            results_worst,
            results_raw: raw,
            results_sorted,
        }
    }
}

/// The results of all benchmarks conducted, by benchmark type. Its view is that map.
#[derive(Debug, Clone)]
pub struct ResultTable {
    /// The results, under the number of their type.
    entries: HashMap<u64, BenchmarkResults>,
}

impl BenchmarkType {
    /// The number of the type.
    pub open spec fn number(self) -> u64 {
        match self {
            BenchmarkType::RawLoopback => 0,
            BenchmarkType::Socks => 1,
            BenchmarkType::Arti => 2,
        }
    }

    /// The key under which results of the type are kept.
    fn key(self) -> (key: u64)
        ensures
            key == self.number(),
    {
        match self {
            BenchmarkType::RawLoopback => 0,
            BenchmarkType::Socks => 1,
            BenchmarkType::Arti => 2,
        }
    }
}

impl View for ResultTable {
    type V = Map<BenchmarkType, BenchmarkResults>;

    closed spec fn view(&self) -> Map<BenchmarkType, BenchmarkResults> {
        Map::new(
            |ty: BenchmarkType| self.entries@.contains_key(ty.number()),
            |ty: BenchmarkType| self.entries@[ty.number()],
        )
    }
}

impl ResultTable {
    /// Whether the results under each type are of that type, and their statistics are right.
    pub open spec fn well_formed(self) -> bool {
        forall|ty: BenchmarkType| #[trigger]
            self@.contains_key(ty) ==> self@[ty].ty == ty && self@[ty].well_formed()
    }

    /// A table without results.
    pub fn new() -> (table: ResultTable)
        ensures
            table@ == Map::<BenchmarkType, BenchmarkResults>::empty(),
            table.well_formed(),
    {
        broadcast use vstd::std_specs::hash::group_hash_axioms;

        let table = ResultTable { entries: HashMap::new() };
        assert(table@ =~= Map::<BenchmarkType, BenchmarkResults>::empty());
        table
    }

    /// Keeps the results under their type, in place of earlier results of that type.
    pub fn insert(&mut self, results: BenchmarkResults)
        ensures
            final(self)@ == old(self)@.insert(results.ty, results),
            old(self).well_formed() && results.well_formed() ==> final(self).well_formed(),
    {
        broadcast use vstd::std_specs::hash::group_hash_axioms;

        let ghost before = self@;
        let ghost ty = results.ty;
        self.entries.insert(results.ty.key(), results);
        assert(self@ =~= before.insert(ty, results));
    }

    /// The results kept under the type.
    pub fn get(&self, ty: BenchmarkType) -> (r: Option<&BenchmarkResults>)
        ensures
            r is Some <==> self@.contains_key(ty),
            r matches Some(results) ==> *results == self@[ty],
    {
        broadcast use vstd::std_specs::hash::group_hash_axioms;

        let key: u64 = ty.key();
        self.entries.get(&key)
    }
}

/// Whether each figure of `m` was recorded in some sample.
pub open spec fn recorded(raw: Seq<Metrics>, m: Metrics) -> bool {
    &&& download_ttfbs(raw).contains(m.download_ttfb_sec)
    &&& download_rates(raw).contains(m.download_rate_megabit)
    &&& upload_ttfbs(raw).contains(m.upload_ttfb_sec)
    &&& upload_rates(raw).contains(m.upload_rate_megabit)
}

/// Whether no figure of `m` is better than that of `other`: no TTFB is lower and no rate higher.
pub open spec fn no_better(m: Metrics, other: Metrics) -> bool {
    &&& rank(m.download_ttfb_sec) >= rank(other.download_ttfb_sec)
    &&& rank(m.download_rate_megabit) <= rank(other.download_rate_megabit)
    &&& rank(m.upload_ttfb_sec) >= rank(other.upload_ttfb_sec)
    &&& rank(m.upload_rate_megabit) <= rank(other.upload_rate_megabit)
}

/// Whether, metric by metric, at most `below` samples lie below the figure of `m` and at most
/// `above` samples above it.
pub open spec fn divides(raw: Seq<Metrics>, m: Metrics, below: int, above: int) -> bool {
    &&& count_below(download_ttfbs(raw), m.download_ttfb_sec) <= below
    &&& count_above(download_ttfbs(raw), m.download_ttfb_sec) <= above
    &&& count_below(download_rates(raw), m.download_rate_megabit) <= below
    &&& count_above(download_rates(raw), m.download_rate_megabit) <= above
    &&& count_below(upload_ttfbs(raw), m.upload_ttfb_sec) <= below
    &&& count_above(upload_ttfbs(raw), m.upload_ttfb_sec) <= above
    &&& count_below(upload_rates(raw), m.upload_rate_megabit) <= below
    &&& count_above(upload_rates(raw), m.upload_rate_megabit) <= above
}

/// What the statistics of a benchmark are, for the results of any benchmark. There is a figure for
/// each sample in each metric, and the sorted figures are those of the samples, with the negative
/// numbers first, by falling magnitude, and then the others, by rising magnitude. The median is the
/// figure in the middle, or the lower of the two there. The best TTFB is the first and the worst the
/// last; the best rate is the last and the worst the first.
pub proof fn law_statistics_meaning(r: BenchmarkResults)
    requires
        r.well_formed(),
    ensures
        r.samples == r.results_raw@.len() > 0,
        r.results_sorted.download_ttfb_secs@.len() == r.samples,
        r.results_sorted.download_ttfb_secs@.to_multiset() == Seq::new(
            r.samples as nat,
            |i: int| r.results_raw@[i].download_ttfb_sec,
        ).to_multiset(),
        forall|i: int, j: int|
            #![trigger r.results_sorted.download_ttfb_secs@[i], r.results_sorted.download_ttfb_secs@[j]]
            0 <= i <= j < r.samples ==> {
                let (a, b) = (
                    r.results_sorted.download_ttfb_secs@[i],
                    r.results_sorted.download_ttfb_secs@[j],
                );
                ||| a <= b < 0x8000_0000_0000_0000
                ||| b < 0x8000_0000_0000_0000 <= a
                ||| 0x8000_0000_0000_0000 <= b <= a
            },
        r.results_median.download_ttfb_sec == r.results_sorted.download_ttfb_secs@[(r.samples - 1) / 2],
        r.results_best.download_ttfb_sec == r.results_sorted.download_ttfb_secs@[0],
        r.results_worst.download_ttfb_sec == r.results_sorted.download_ttfb_secs@[r.samples - 1],
        r.results_sorted.download_rate_megabits@.len() == r.samples,
        r.results_sorted.download_rate_megabits@.to_multiset() == Seq::new(
            r.samples as nat,
            |i: int| r.results_raw@[i].download_rate_megabit,
        ).to_multiset(),
        forall|i: int, j: int|
            #![trigger r.results_sorted.download_rate_megabits@[i], r.results_sorted.download_rate_megabits@[j]]
            0 <= i <= j < r.samples ==> {
                let (a, b) = (
                    r.results_sorted.download_rate_megabits@[i],
                    r.results_sorted.download_rate_megabits@[j],
                );
                ||| a <= b < 0x8000_0000_0000_0000
                ||| b < 0x8000_0000_0000_0000 <= a
                ||| 0x8000_0000_0000_0000 <= b <= a
            },
        r.results_median.download_rate_megabit == r.results_sorted.download_rate_megabits@[(r.samples - 1) / 2],
        r.results_best.download_rate_megabit == r.results_sorted.download_rate_megabits@[r.samples - 1],
        r.results_worst.download_rate_megabit == r.results_sorted.download_rate_megabits@[0],
        r.results_sorted.upload_ttfb_secs@.len() == r.samples,
        r.results_sorted.upload_ttfb_secs@.to_multiset() == Seq::new(
            r.samples as nat,
            |i: int| r.results_raw@[i].upload_ttfb_sec,
        ).to_multiset(),
        forall|i: int, j: int|
            #![trigger r.results_sorted.upload_ttfb_secs@[i], r.results_sorted.upload_ttfb_secs@[j]]
            0 <= i <= j < r.samples ==> {
                let (a, b) = (
                    r.results_sorted.upload_ttfb_secs@[i],
                    r.results_sorted.upload_ttfb_secs@[j],
                );
                ||| a <= b < 0x8000_0000_0000_0000
                ||| b < 0x8000_0000_0000_0000 <= a
                ||| 0x8000_0000_0000_0000 <= b <= a
            },
        r.results_median.upload_ttfb_sec == r.results_sorted.upload_ttfb_secs@[(r.samples - 1) / 2],
        r.results_best.upload_ttfb_sec == r.results_sorted.upload_ttfb_secs@[0],
        r.results_worst.upload_ttfb_sec == r.results_sorted.upload_ttfb_secs@[r.samples - 1],
        r.results_sorted.upload_rate_megabits@.len() == r.samples,
        r.results_sorted.upload_rate_megabits@.to_multiset() == Seq::new(
            r.samples as nat,
            |i: int| r.results_raw@[i].upload_rate_megabit,
        ).to_multiset(),
        forall|i: int, j: int|
            #![trigger r.results_sorted.upload_rate_megabits@[i], r.results_sorted.upload_rate_megabits@[j]]
            0 <= i <= j < r.samples ==> {
                let (a, b) = (
                    r.results_sorted.upload_rate_megabits@[i],
                    r.results_sorted.upload_rate_megabits@[j],
                );
                ||| a <= b < 0x8000_0000_0000_0000
                ||| b < 0x8000_0000_0000_0000 <= a
                ||| 0x8000_0000_0000_0000 <= b <= a
            },
        r.results_median.upload_rate_megabit == r.results_sorted.upload_rate_megabits@[(r.samples - 1) / 2],
        r.results_best.upload_rate_megabit == r.results_sorted.upload_rate_megabits@[r.samples - 1],
        r.results_worst.upload_rate_megabit == r.results_sorted.upload_rate_megabits@[0],
{
    let raw = r.results_raw@;
    let s = r.results_sorted;
    lemma_sorted_lengths(s, raw);
    law_sorted_meaning(s.download_ttfb_secs@, download_ttfbs(raw));
    assert(download_ttfbs(raw) =~= Seq::new(r.samples as nat, |i: int| raw[i].download_ttfb_sec));
    law_sorted_meaning(s.download_rate_megabits@, download_rates(raw));
    assert(download_rates(raw) =~= Seq::new(r.samples as nat, |i: int| raw[i].download_rate_megabit));
    law_sorted_meaning(s.upload_ttfb_secs@, upload_ttfbs(raw));
    assert(upload_ttfbs(raw) =~= Seq::new(r.samples as nat, |i: int| raw[i].upload_ttfb_sec));
    law_sorted_meaning(s.upload_rate_megabits@, upload_rates(raw));
    assert(upload_rates(raw) =~= Seq::new(r.samples as nat, |i: int| raw[i].upload_rate_megabit));
}

/// No sample has a lower TTFB than the best or a higher one than the worst, and none has a higher
/// rate than the best or a lower one than the worst; and each of these was recorded in some sample.
pub proof fn law_extremes_meaning(r: BenchmarkResults)
    requires
        r.well_formed(),
    ensures
        forall|i: int|
            #![trigger r.results_raw@[i]]
            0 <= i < r.results_raw@.len() ==> rank(r.results_best.download_ttfb_sec) <= rank(
                r.results_raw@[i].download_ttfb_sec,
            ) <= rank(r.results_worst.download_ttfb_sec),
        exists|i: int|
            #![trigger r.results_raw@[i]]
            0 <= i < r.results_raw@.len() && r.results_raw@[i].download_ttfb_sec == r.results_best.download_ttfb_sec,
        exists|i: int|
            #![trigger r.results_raw@[i]]
            0 <= i < r.results_raw@.len() && r.results_raw@[i].download_ttfb_sec == r.results_median.download_ttfb_sec,
        exists|i: int|
            #![trigger r.results_raw@[i]]
            0 <= i < r.results_raw@.len() && r.results_raw@[i].download_ttfb_sec == r.results_worst.download_ttfb_sec,
        forall|i: int|
            #![trigger r.results_raw@[i]]
            0 <= i < r.results_raw@.len() ==> rank(r.results_worst.download_rate_megabit) <= rank(
                r.results_raw@[i].download_rate_megabit,
            ) <= rank(r.results_best.download_rate_megabit),
        exists|i: int|
            #![trigger r.results_raw@[i]]
            0 <= i < r.results_raw@.len() && r.results_raw@[i].download_rate_megabit == r.results_best.download_rate_megabit,
        exists|i: int|
            #![trigger r.results_raw@[i]]
            0 <= i < r.results_raw@.len() && r.results_raw@[i].download_rate_megabit == r.results_median.download_rate_megabit,
        exists|i: int|
            #![trigger r.results_raw@[i]]
            0 <= i < r.results_raw@.len() && r.results_raw@[i].download_rate_megabit == r.results_worst.download_rate_megabit,
        forall|i: int|
            #![trigger r.results_raw@[i]]
            0 <= i < r.results_raw@.len() ==> rank(r.results_best.upload_ttfb_sec) <= rank(
                r.results_raw@[i].upload_ttfb_sec,
            ) <= rank(r.results_worst.upload_ttfb_sec),
        exists|i: int|
            #![trigger r.results_raw@[i]]
            0 <= i < r.results_raw@.len() && r.results_raw@[i].upload_ttfb_sec == r.results_best.upload_ttfb_sec,
        exists|i: int|
            #![trigger r.results_raw@[i]]
            0 <= i < r.results_raw@.len() && r.results_raw@[i].upload_ttfb_sec == r.results_median.upload_ttfb_sec,
        exists|i: int|
            #![trigger r.results_raw@[i]]
            0 <= i < r.results_raw@.len() && r.results_raw@[i].upload_ttfb_sec == r.results_worst.upload_ttfb_sec,
        forall|i: int|
            #![trigger r.results_raw@[i]]
            0 <= i < r.results_raw@.len() ==> rank(r.results_worst.upload_rate_megabit) <= rank(
                r.results_raw@[i].upload_rate_megabit,
            ) <= rank(r.results_best.upload_rate_megabit),
        exists|i: int|
            #![trigger r.results_raw@[i]]
            0 <= i < r.results_raw@.len() && r.results_raw@[i].upload_rate_megabit == r.results_best.upload_rate_megabit,
        exists|i: int|
            #![trigger r.results_raw@[i]]
            0 <= i < r.results_raw@.len() && r.results_raw@[i].upload_rate_megabit == r.results_median.upload_rate_megabit,
        exists|i: int|
            #![trigger r.results_raw@[i]]
            0 <= i < r.results_raw@.len() && r.results_raw@[i].upload_rate_megabit == r.results_worst.upload_rate_megabit,
{
    let raw = r.results_raw@;
    assert forall|i: int| #![trigger raw[i]] 0 <= i < raw.len() implies no_better(
        raw[i],
        r.results_best,
    ) && no_better(r.results_worst, raw[i]) by {
        law_best_and_worst(r, i);
    }
    law_statistics_recorded(r);
    lemma_recorded_in_sample(raw, r.results_best);
    lemma_recorded_in_sample(raw, r.results_median);
    lemma_recorded_in_sample(raw, r.results_worst);
}

/// Each figure that was recorded is that of some sample.
proof fn lemma_recorded_in_sample(raw: Seq<Metrics>, m: Metrics)
    requires
        recorded(raw, m),
    ensures
        exists|i: int|
            #![trigger raw[i]]
            0 <= i < raw.len() && raw[i].download_ttfb_sec == m.download_ttfb_sec,
        exists|i: int|
            #![trigger raw[i]]
            0 <= i < raw.len() && raw[i].download_rate_megabit == m.download_rate_megabit,
        exists|i: int|
            #![trigger raw[i]]
            0 <= i < raw.len() && raw[i].upload_ttfb_sec == m.upload_ttfb_sec,
        exists|i: int|
            #![trigger raw[i]]
            0 <= i < raw.len() && raw[i].upload_rate_megabit == m.upload_rate_megabit,
{
    let i0 = choose|i: int| 0 <= i < raw.len() && download_ttfbs(raw)[i] == m.download_ttfb_sec;
    assert(raw[i0].download_ttfb_sec == m.download_ttfb_sec);
    let i1 = choose|i: int| 0 <= i < raw.len() && download_rates(raw)[i] == m.download_rate_megabit;
    assert(raw[i1].download_rate_megabit == m.download_rate_megabit);
    let i2 = choose|i: int| 0 <= i < raw.len() && upload_ttfbs(raw)[i] == m.upload_ttfb_sec;
    assert(raw[i2].upload_ttfb_sec == m.upload_ttfb_sec);
    let i3 = choose|i: int| 0 <= i < raw.len() && upload_rates(raw)[i] == m.upload_rate_megabit;
    assert(raw[i3].upload_rate_megabit == m.upload_rate_megabit);
}

/// No sample beats the best values or is beaten by the worst, in any metric.
pub proof fn law_best_and_worst(r: BenchmarkResults, i: int)
    requires
        r.well_formed(),
        0 <= i < r.results_raw@.len(),
    ensures
        no_better(r.results_raw@[i], r.results_best),
        no_better(r.results_worst, r.results_raw@[i]),
{
    let raw = r.results_raw@;
    let s = r.results_sorted;
    assert(download_ttfbs(raw)[i] == raw[i].download_ttfb_sec);
    assert(download_rates(raw)[i] == raw[i].download_rate_megabit);
    assert(upload_ttfbs(raw)[i] == raw[i].upload_ttfb_sec);
    assert(upload_rates(raw)[i] == raw[i].upload_rate_megabit);
    lemma_sorted_lengths(s, raw);
    law_ends_of_order(s.download_ttfb_secs@, download_ttfbs(raw), raw[i].download_ttfb_sec);
    law_ends_of_order(s.download_rate_megabits@, download_rates(raw), raw[i].download_rate_megabit);
    law_ends_of_order(s.upload_ttfb_secs@, upload_ttfbs(raw), raw[i].upload_ttfb_sec);
    law_ends_of_order(s.upload_rate_megabits@, upload_rates(raw), raw[i].upload_rate_megabit);
}

/// The best, worst and median values were each recorded in some sample, and no median value is
/// better than the best or worse than the worst.
pub proof fn law_statistics_recorded(r: BenchmarkResults)
    requires
        r.well_formed(),
    ensures
        recorded(r.results_raw@, r.results_best),
        recorded(r.results_raw@, r.results_median),
        recorded(r.results_raw@, r.results_worst),
        no_better(r.results_median, r.results_best),
        no_better(r.results_worst, r.results_median),
{
    let n = r.results_raw@.len() as int;
    lemma_sorted_lengths(r.results_sorted, r.results_raw@);
    lemma_places(r.results_sorted, r.results_raw@, 0);
    lemma_places(r.results_sorted, r.results_raw@, (n - 1) / 2);
    lemma_places(r.results_sorted, r.results_raw@, n - 1);
}

/// Above a median value lie at most half of the samples, rounded down, and below it at most as
/// many as are left without the value itself. With an odd number of samples these are the same,
/// so the value is the median. With an even number it is the value at half that number in sorted
/// order, counted from one, and so the lower of the two in the middle.
pub proof fn law_median(r: BenchmarkResults)
    requires
        r.well_formed(),
    ensures
        divides(
            r.results_raw@,
            r.results_median,
            (r.samples - 1) / 2,
            r.samples as int / 2,
        ),
        r.samples % 2 == 1 ==> (r.samples - 1) / 2 == r.samples as int / 2,
        r.samples % 2 == 0 ==> r.results_median == r.results_sorted.at(
            r.samples as int / 2 - 1,
            r.samples as int / 2 - 1,
        ),
{
    lemma_places(r.results_sorted, r.results_raw@, (r.samples - 1) / 2);
}

/// The order in which the samples were taken has no influence on the statistics.
pub proof fn law_sample_order_irrelevant(a: BenchmarkResults, b: BenchmarkResults)
    requires
        a.well_formed(),
        b.well_formed(),
        a.results_raw@.to_multiset() == b.results_raw@.to_multiset(),
    ensures
        a.samples == b.samples,
        a.results_median == b.results_median,
        a.results_best == b.results_best,
        a.results_worst == b.results_worst,
        a.results_sorted.download_ttfb_secs@ == b.results_sorted.download_ttfb_secs@,
        a.results_sorted.download_rate_megabits@ == b.results_sorted.download_rate_megabits@,
        a.results_sorted.upload_ttfb_secs@ == b.results_sorted.upload_ttfb_secs@,
        a.results_sorted.upload_rate_megabits@ == b.results_sorted.upload_rate_megabits@,
{
    broadcast use group_to_multiset_ensures;

    let (x, y) = (a.results_raw@, b.results_raw@);
    let (s, t) = (a.results_sorted, b.results_sorted);
    assert(x.to_multiset().len() == y.to_multiset().len());
    lemma_column_multiset(x, y, |m: Metrics| m.download_ttfb_sec);
    lemma_column_multiset(x, y, |m: Metrics| m.download_rate_megabit);
    lemma_column_multiset(x, y, |m: Metrics| m.upload_ttfb_sec);
    lemma_column_multiset(x, y, |m: Metrics| m.upload_rate_megabit);
    law_sorted_unique(
        s.download_ttfb_secs@,
        t.download_ttfb_secs@,
        download_ttfbs(x),
        download_ttfbs(y),
    );
    law_sorted_unique(
        s.download_rate_megabits@,
        t.download_rate_megabits@,
        download_rates(x),
        download_rates(y),
    );
    law_sorted_unique(
        s.upload_ttfb_secs@,
        t.upload_ttfb_secs@,
        upload_ttfbs(x),
        upload_ttfbs(y),
    );
    law_sorted_unique(
        s.upload_rate_megabits@,
        t.upload_rate_megabits@,
        upload_rates(x),
        upload_rates(y),
    );
}

/// With a single sample, that sample is the best, the worst and the median.
pub proof fn law_single_sample(r: BenchmarkResults)
    requires
        r.well_formed(),
        r.samples == 1,
    ensures
        r.results_best == r.results_raw@[0],
        r.results_median == r.results_raw@[0],
        r.results_worst == r.results_raw@[0],
{
    law_best_and_worst(r, 0);
    law_statistics_recorded(r);
}

/// A metric in ascending order has as many figures as there are samples.
proof fn lemma_sorted_lengths(s: SortedMetrics, raw: Seq<Metrics>)
    requires
        s.sorts(raw),
    ensures
        s.download_ttfb_secs@.len() == raw.len(),
        s.download_rate_megabits@.len() == raw.len(),
        s.upload_ttfb_secs@.len() == raw.len(),
        s.upload_rate_megabits@.len() == raw.len(),
{
    broadcast use group_to_multiset_ensures;

    assert(s.download_ttfb_secs@.to_multiset().len() == download_ttfbs(
        raw,
    ).to_multiset().len());
    assert(s.download_rate_megabits@.to_multiset().len() == download_rates(
        raw,
    ).to_multiset().len());
    assert(s.upload_ttfb_secs@.to_multiset().len() == upload_ttfbs(
        raw,
    ).to_multiset().len());
    assert(s.upload_rate_megabits@.to_multiset().len() == upload_rates(
        raw,
    ).to_multiset().len());
}

/// The figures at place `k` were recorded, and divide the samples there.
proof fn lemma_places(s: SortedMetrics, raw: Seq<Metrics>, k: int)
    requires
        s.sorts(raw),
        0 <= k < raw.len(),
    ensures
        recorded(raw, s.at(k, k)),
        divides(raw, s.at(k, k), k, raw.len() - 1 - k),
{
    lemma_sorted_lengths(s, raw);
    law_place_in_order(s.download_ttfb_secs@, download_ttfbs(raw), k);
    law_place_in_order(s.download_rate_megabits@, download_rates(raw), k);
    law_place_in_order(s.upload_ttfb_secs@, upload_ttfbs(raw), k);
    law_place_in_order(s.upload_rate_megabits@, upload_rates(raw), k);
}

/// The same samples in another order have the same figures.
proof fn lemma_column_multiset(a: Seq<Metrics>, b: Seq<Metrics>, f: spec_fn(Metrics) -> u64)
    requires
        a.to_multiset() == b.to_multiset(),
    ensures
        a.map_values(f).to_multiset() == b.map_values(f).to_multiset(),
    decreases a.len(),
{
    broadcast use group_to_multiset_ensures;

    assert(a.len() == a.to_multiset().len() && b.len() == b.to_multiset().len());
    if a.len() == 0 {
        assert(a.map_values(f) =~= b.map_values(f));
    } else {
        let n = a.len() - 1;
        assert(a.contains(a[n]));
        assert(b.to_multiset().count(a[n]) > 0);
        let i = choose|i: int| 0 <= i < b.len() && b[i] == a[n];
        assert(a.remove(n) =~= a.drop_last());
        lemma_column_multiset(a.remove(n), b.remove(i), f);
        assert(a.map_values(f).remove(n) =~= a.remove(n).map_values(f));
        assert(b.map_values(f).remove(i) =~= b.remove(i).map_values(f));
        let (x, y) = (a.map_values(f).to_multiset(), b.map_values(f).to_multiset());
        let v = f(a[n]);
        assert(a.map_values(f).contains(v)) by {
            assert(a.map_values(f)[n] == v);
        }
        assert(b.map_values(f).contains(v)) by {
            assert(b.map_values(f)[i] == v);
        }
        assert(x.count(v) > 0 && y.count(v) > 0);
        assert(x.remove(v) == y.remove(v));
        assert(x =~= x.remove(v).insert(v));
        assert(y =~= y.remove(v).insert(v));
    }
}

} // verus!
