//! The course of a benchmark: connect, measure, and again, until all samples are taken.

use vstd::prelude::*;

use crate::results::{BenchmarkResults, BenchmarkType, Metrics, ResultTable};
use crate::time::ClockError;
use crate::timing::{
    law_failure_meaning, law_summarized_iff_in_order, law_summary_meaning, ClientTiming,
    TimingSummary,
};

verus! {

/// Why a benchmark is broken off.
#[derive(Debug)]
pub enum RunError<E> {
    /// There were not as many connections to be had as the benchmark takes.
    OutOfStreams,
    /// A connection could not be made, or an exchange over one failed.
    Failed(E),
    /// The clock went back during an exchange.
    Clock(ClockError),
}

/// What a benchmark does next.
#[derive(Debug, Clone, Copy, PartialEq, Eq, Structural)]
pub enum RunStep {
    /// Take one more connection.
    Connect,
    /// Start one exchange over each of the connections taken, all at the same time.
    Measure {
        /// Which run this is, counted from 1.
        run: usize,
    },
    /// Wait until all exchanges are over.
    Collect,
    /// All samples are taken.
    Finish,
}

/// A benchmark in progress.
pub struct BenchmarkRun<S> {
    /// The type of benchmark conducted.
    ty: BenchmarkType,
    /// How many runs to make.
    samples: usize,
    /// How many connections to use in each run.
    concurrent: usize,
    /// How many runs have been made.
    runs: usize,
    /// The connections taken for the run to come.
    streams: Vec<S>,
    /// Whether the exchanges of a run are under way.
    measuring: bool,
    /// What all exchanges so far have measured.
    summaries: Vec<TimingSummary>,
}

/// How far a benchmark has come.
pub ghost struct Progress<S> {
    /// The type of benchmark conducted.
    pub ty: BenchmarkType,
    /// How many runs to make.
    pub samples: nat,
    /// How many connections to use in each run.
    pub concurrent: nat,
    /// How many runs have been made.
    pub runs: nat,
    /// The connections taken for the run to come, in the order in which they were taken.
    pub streams: Seq<S>,
    /// Whether the exchanges of a run are under way.
    pub measuring: bool,
    /// What all exchanges so far have measured, in the order of the runs.
    pub summaries: Seq<TimingSummary>,
}

impl<S> Progress<S> {
    /// How many connections the whole benchmark takes.
    pub open spec fn budget(self) -> nat {
        self.samples * self.concurrent
    }

    /// How many connections have been taken in all.
    pub open spec fn taken(self) -> nat {
        self.runs * self.concurrent + if self.measuring {
            self.concurrent
        } else {
            self.streams.len()
        }
    }

    /// No more runs than there are to be, no more connections than a run uses, none held back from
    /// a run under way, and one summary of each exchange.
    pub open spec fn well_formed(self) -> bool {
        &&& self.budget() <= usize::MAX
        &&& self.runs <= self.samples <= usize::MAX
        &&& self.streams.len() <= self.concurrent <= usize::MAX
        &&& self.measuring ==> self.streams.len() == 0
        &&& self.runs == self.samples ==> !self.measuring && self.streams.len() == 0
        &&& self.summaries.len() == self.runs * self.concurrent
    }

    /// What comes next.
    pub open spec fn next_step(self) -> RunStep {
        if self.runs == self.samples {
            RunStep::Finish
        } else if self.measuring {
            RunStep::Collect
        } else if self.streams.len() < self.concurrent {
            RunStep::Connect
        } else {
            RunStep::Measure { run: (self.runs + 1) as usize }
        }
    }

    /// How far it has come with one connection more.
    pub open spec fn after_connect(self, stream: S) -> Progress<S> {
        Progress { streams: self.streams.push(stream), ..self }
    }

    /// How far it has come with these connections more, taken one after the other.
    pub open spec fn after_connects(self, streams: Seq<S>) -> Progress<S>
        decreases streams.len(),
    {
        if streams.len() == 0 {
            self
        } else {
            self.after_connects(streams.drop_last()).after_connect(streams.last())
        }
    }

    /// How far it has come when the connections are in use.
    pub open spec fn after_start(self) -> Progress<S> {
        Progress { streams: Seq::empty(), measuring: true, ..self }
    }

    /// How far it has come with one run more, which measured `summaries`.
    pub open spec fn after_measure(self, summaries: Seq<TimingSummary>) -> Progress<S> {
        Progress {
            runs: self.runs + 1,
            measuring: false,
            summaries: self.summaries + summaries,
            ..self
        }
    }
}

/// Whether an exchange was carried through and can be summarized.
pub open spec fn measured<E>(outcome: Result<ClientTiming, E>) -> bool {
    outcome matches Ok(ct) && forall|k: int| 0 <= k < 4 ==> #[trigger] ct.intervals()[k] >= 0
}

/// Whether `summary` is what the exchange measured.
pub open spec fn summary_of<E>(summary: TimingSummary, outcome: Result<ClientTiming, E>) -> bool {
    outcome matches Ok(ct) && summary.summarizes(ct)
}

/// Whether `error` says why an exchange that measured nothing did so: its own error, or the clock
/// that went back in it.
pub open spec fn error_of<E>(error: RunError<E>, outcome: Result<ClientTiming, E>) -> bool {
    match outcome {
        Err(e) => error == RunError::Failed(e),
        Ok(ct) => {
            &&& error is Clock
            &&& exists|k: int| #[trigger]
                ct.first_goes_back_in(k) && error->Clock_0.behind@ == -ct.intervals()[k]
        },
    }
}

/// Whether exchange `k` is the first that measured nothing.
pub open spec fn first_unmeasured<E>(outcomes: Seq<Result<ClientTiming, E>>, k: int) -> bool {
    &&& 0 <= k < outcomes.len()
    &&& !measured(outcomes[k])
    &&& forall|j: int| 0 <= j < k ==> measured(#[trigger] outcomes[j])
}

/// Summarizes the exchanges of one run. Fails if one of them failed or cannot be summarized, with
/// the error of the first of these.
pub fn summarize_run<E>(outcomes: Vec<Result<ClientTiming, E>>) -> (r: Result<
    Vec<TimingSummary>,
    RunError<E>,
>)
    ensures
        r is Ok <==> forall|k: int| 0 <= k < outcomes@.len() ==> measured(#[trigger] outcomes@[k]),
        r matches Ok(summaries) ==> summaries@.len() == outcomes@.len() && forall|k: int|
            0 <= k < outcomes@.len() ==> summary_of(#[trigger] summaries@[k], outcomes@[k]),
        r matches Err(e) ==> exists|k: int| #[trigger]
            first_unmeasured(outcomes@, k) && error_of(e, outcomes@[k]),
        r is Ok <==> forall|k: int|
            0 <= k < outcomes@.len() ==> (#[trigger] outcomes@[k] matches Ok(ct)
                && ct.server.accepted_ts@ <= ct.first_byte_ts@ <= ct.read_done_ts@
                <= ct.server.first_byte_ts@ <= ct.server.read_done_ts@),
        r matches Ok(summaries) ==> forall|k: int|
            0 <= k < outcomes@.len() ==> (#[trigger] outcomes@[k] matches Ok(ct)
                && summaries@[k].summarizes(ct)),
{
    let ghost all = outcomes@;
    let mut summaries: Vec<TimingSummary> = Vec::new();
    for outcome in it: outcomes
        invariant
            it.seq() == all,
            summaries@.len() == it.index(),
            forall|j: int| 0 <= j < it.index() ==> measured(#[trigger] all[j]),
            forall|j: int| 0 <= j < it.index() ==> summary_of(#[trigger] summaries@[j], all[j]),
    {
        let ghost k = it.index();
        assert(outcome == all[k]);
        match outcome {
            Err(e) => {
                assert(first_unmeasured(all, k));
                assert(!(all[k] is Ok));
                return Err(RunError::Failed(e));
            },
            Ok(ct) => match TimingSummary::generate(&ct) {
                Err(e) => {
                    assert(first_unmeasured(all, k));
                    proof {
                        law_measured_meaning(all[k]);
                    }
                    return Err(RunError::Clock(e));
                },
                Ok(summary) => summaries.push(summary),
            },
        }
    }
    proof {
        assert forall|k: int| 0 <= k < all.len() implies summary_of(
            summaries@[k],
            #[trigger] all[k],
        ) by {}
        assert forall|k: int| 0 <= k < all.len() implies (#[trigger] all[k] matches Ok(ct)
            && ct.server.accepted_ts@ <= ct.first_byte_ts@ <= ct.read_done_ts@
            <= ct.server.first_byte_ts@ <= ct.server.read_done_ts@) by {
            law_measured_meaning(all[k]);
        }
    }
    Ok(summaries)
}

impl<S> View for BenchmarkRun<S> {
    type V = Progress<S>;

    closed spec fn view(&self) -> Progress<S> {
        Progress {
            ty: self.ty,
            samples: self.samples as nat,
            concurrent: self.concurrent as nat,
            runs: self.runs as nat,
            streams: self.streams@,
            measuring: self.measuring,
            summaries: self.summaries@,
        }
    }
}

impl<S> BenchmarkRun<S> {
    /// A benchmark of `samples` runs over `concurrent` connections each, about to start.
    pub fn new(ty: BenchmarkType, samples: usize, concurrent: usize) -> (run: BenchmarkRun<S>)
        requires
            samples * concurrent <= usize::MAX,
        ensures
            run@ == (Progress {
                ty,
                samples: samples as nat,
                concurrent: concurrent as nat,
                runs: 0,
                streams: Seq::<S>::empty(),
                measuring: false,
                summaries: Seq::empty(),
            }),
            run@.well_formed(),
    {
        BenchmarkRun {
            ty,
            samples,
            concurrent,
            runs: 0,
            streams: Vec::new(),
            measuring: false,
            summaries: Vec::new(),
        }
    }

    /// How many connections the benchmark takes in all.
    pub fn stream_budget(&self) -> (budget: usize)
        requires
            self@.well_formed(),
        ensures
            budget == self@.budget(),
            budget == self@.samples * self@.concurrent,
    {
        self.samples * self.concurrent
    }

    /// What the benchmark does next.
    pub fn next_step(&self) -> (step: RunStep)
        requires
            self@.well_formed(),
        ensures
            step == self@.next_step(),
            step is Finish <==> self@.runs == self@.samples,
            step is Collect <==> self@.runs < self@.samples && self@.measuring,
            step is Connect <==> self@.runs < self@.samples && !self@.measuring
                && self@.streams.len() < self@.concurrent,
            step matches RunStep::Measure { run } ==> run == self@.runs + 1,
    {
        if self.runs == self.samples {
            RunStep::Finish
        } else if self.measuring {
            RunStep::Collect
        } else if self.streams.len() < self.concurrent {
            RunStep::Connect
        } else {
            RunStep::Measure { run: self.runs + 1 }
        }
    }

    /// A connection was asked for, and this came: none, because there are no more, or the failure
    /// to make one, or one, which is kept for the run to come.
    pub fn stream_supplied<E>(&mut self, next: Option<Result<S, E>>) -> (r: Result<
        (),
        RunError<E>,
    >)
        requires
            old(self)@.well_formed(),
            old(self)@.next_step() is Connect,
        ensures
            final(self)@.well_formed(),
            match next {
                None => r == Err::<(), RunError<E>>(RunError::OutOfStreams) && final(self)@
                    == old(self)@,
                Some(Err(e)) => r == Err::<(), RunError<E>>(RunError::Failed(e)) && final(self)@
                    == old(self)@,
                Some(Ok(stream)) => r is Ok && final(self)@ == old(self)@.after_connect(stream),
            },
            next matches Some(Ok(stream)) ==> final(self)@.streams == old(self)@.streams.push(
                stream,
            ),
            final(self)@.ty == old(self)@.ty,
            final(self)@.samples == old(self)@.samples,
            final(self)@.concurrent == old(self)@.concurrent,
            final(self)@.runs == old(self)@.runs,
            final(self)@.measuring == old(self)@.measuring,
            final(self)@.summaries == old(self)@.summaries,
    {
        match next {
            None => Err(RunError::OutOfStreams),
            Some(Err(e)) => Err(RunError::Failed(e)),
            Some(Ok(stream)) => {
                self.streams.push(stream);
                Ok(())
            },
        }
    }

    /// A run starts: hands out the connections taken for it, in the order in which they were
    /// taken, and keeps none.
    pub fn start_run(&mut self) -> (streams: Vec<S>)
        requires
            old(self)@.well_formed(),
            old(self)@.next_step() is Measure,
        ensures
            final(self)@.well_formed(),
            final(self)@ == old(self)@.after_start(),
            streams@ == old(self)@.streams,
            streams@.len() == old(self)@.concurrent,
            final(self)@.ty == old(self)@.ty,
            final(self)@.samples == old(self)@.samples,
            final(self)@.concurrent == old(self)@.concurrent,
            final(self)@.runs == old(self)@.runs,
            final(self)@.streams.len() == 0,
            final(self)@.measuring,
            final(self)@.summaries == old(self)@.summaries,
    {
        let mut streams: Vec<S> = Vec::new();
        std::mem::swap(&mut streams, &mut self.streams);
        self.measuring = true;
        streams
    }

    /// The exchanges of one run are over, and this came of them. Fails if one of them failed or
    /// cannot be summarized, with the error of the first of these.
    pub fn run_measured<E>(&mut self, outcomes: Vec<Result<ClientTiming, E>>) -> (r: Result<
        (),
        RunError<E>,
    >)
        requires
            old(self)@.well_formed(),
            old(self)@.next_step() is Collect,
            outcomes@.len() == old(self)@.concurrent,
        ensures
            final(self)@.well_formed(),
            r is Ok <==> forall|k: int|
                0 <= k < outcomes@.len() ==> measured(#[trigger] outcomes@[k]),
            r is Ok ==> exists|summaries: Seq<TimingSummary>|
                final(self)@ == #[trigger] old(self)@.after_measure(summaries) && summaries.len()
                    == outcomes@.len() && forall|k: int|
                    0 <= k < outcomes@.len() ==> summary_of(#[trigger] summaries[k], outcomes@[k]),
            r matches Err(e) ==> final(self)@ == old(self)@ && exists|k: int| #[trigger]
                first_unmeasured(outcomes@, k) && error_of(e, outcomes@[k]),
            r is Ok <==> forall|k: int|
                0 <= k < outcomes@.len() ==> (#[trigger] outcomes@[k] matches Ok(ct)
                    && ct.server.accepted_ts@ <= ct.first_byte_ts@ <= ct.read_done_ts@
                    <= ct.server.first_byte_ts@ <= ct.server.read_done_ts@),
            r is Ok ==> final(self)@.summaries.len() == old(self)@.summaries.len() + outcomes@.len(),
            r is Ok ==> forall|k: int|
                0 <= k < old(self)@.summaries.len() ==> #[trigger] final(self)@.summaries[k]
                    == old(self)@.summaries[k],
            r is Ok ==> forall|k: int|
                0 <= k < outcomes@.len() ==> (#[trigger] outcomes@[k] matches Ok(ct)
                    && final(self)@.summaries[old(self)@.summaries.len() + k].summarizes(ct)),
            r is Ok ==> final(self)@.runs == old(self)@.runs + 1 && !final(self)@.measuring,
            final(self)@.ty == old(self)@.ty,
            final(self)@.samples == old(self)@.samples,
            final(self)@.concurrent == old(self)@.concurrent,
            final(self)@.streams == old(self)@.streams,
    {
        let ghost before = self@;
        match summarize_run(outcomes) {
            Err(e) => Err(e),
            Ok(mut summaries) => {
                let ghost added = summaries@;
                self.summaries.append(&mut summaries);
                self.runs = self.runs + 1;
                self.measuring = false;
                assert(self@ == before.after_measure(added));
                assert((before.runs + 1) * before.concurrent == before.runs * before.concurrent
                    + before.concurrent) by (nonlinear_arith);
                Ok(())
            },
        }
    }

    /// What all exchanges so far have measured, in the order of the runs.
    pub fn summaries(&self) -> (summaries: &Vec<TimingSummary>)
        ensures
            summaries@ == self@.summaries,
    {
        &self.summaries
    }

    /// All samples are taken: works out the results of the benchmark and keeps them under its
    /// type. The figures of the samples are given in `raw`, one for each summary.
    pub fn conclude(self, raw: Vec<Metrics>, results: &mut ResultTable)
        requires
            self@.well_formed(),
            self@.next_step() is Finish,
            raw@.len() == self@.summaries.len(),
            raw@.len() > 0,
        ensures
            final(results)@ == old(results)@.insert(self@.ty, final(results)@[self@.ty]),
            final(results)@[self@.ty].ty == self@.ty,
            final(results)@[self@.ty].connections == self@.concurrent,
            final(results)@[self@.ty].samples == self@.samples * self@.concurrent,
            final(results)@[self@.ty].results_raw@ == raw@,
            final(results)@[self@.ty].well_formed(),
            old(results).well_formed() ==> final(results).well_formed(),
    {
        results.insert(BenchmarkResults::generate(self.ty, self.concurrent, raw));
    }
}

/// The benchmarks to conduct, in this order: without any proxy, through the proxy if there is one,
/// and through Arti.
pub fn planned_benchmarks(with_proxy: bool) -> (plan: Vec<BenchmarkType>)
    ensures
        plan@ == if with_proxy {
            seq![BenchmarkType::RawLoopback, BenchmarkType::Socks, BenchmarkType::Arti]
        } else {
            seq![BenchmarkType::RawLoopback, BenchmarkType::Arti]
        },
{
    let mut plan: Vec<BenchmarkType> = Vec::new();
    plan.push(BenchmarkType::RawLoopback);
    if with_proxy {
        plan.push(BenchmarkType::Socks);
    }
    plan.push(BenchmarkType::Arti);
    plan
}

/// An exchange is measured exactly if it was carried through and the server's accept, the client's
/// first byte, the client's last byte, the server's first byte and the server's last byte are noted
/// in this order.
pub proof fn law_measured_meaning<E>(outcome: Result<ClientTiming, E>)
    ensures
        measured(outcome) <==> (outcome matches Ok(ct) && ct.server.accepted_ts@
            <= ct.first_byte_ts@ <= ct.read_done_ts@ <= ct.server.first_byte_ts@
            <= ct.server.read_done_ts@),
{
    if let Ok(ct) = outcome {
        law_summarized_iff_in_order(ct);
    }
}

/// The summary of an exchange is a summary of its timing.
pub proof fn law_summary_of_meaning<E>(summary: TimingSummary, outcome: Result<ClientTiming, E>)
    ensures
        summary_of(summary, outcome) <==> (outcome matches Ok(ct) && summary.download_ttfb@
            == ct.first_byte_ts@ - ct.server.accepted_ts@ && summary.download_rate.bytes
            == ct.download_size && summary.download_rate.time@ == ct.read_done_ts@
            - ct.first_byte_ts@ && summary.upload_ttfb@ == ct.server.first_byte_ts@
            - ct.read_done_ts@ && summary.upload_rate.bytes == ct.upload_size
            && summary.upload_rate.time@ == ct.server.read_done_ts@ - ct.server.first_byte_ts@),
{
    if let Ok(ct) = outcome {
        law_summary_meaning(ct, summary);
    }
}

/// A run that fails does so with the error of the first of its exchanges that failed or whose
/// clocks are not in order: with the exchange's own error if it has one, and otherwise with the
/// clock's. Every exchange before that one was carried through with its clocks in order.
pub proof fn law_run_error_meaning<E>(
    outcomes: Seq<Result<ClientTiming, E>>,
    k: int,
    error: RunError<E>,
)
    requires
        first_unmeasured(outcomes, k),
        error_of(error, outcomes[k]),
    ensures
        0 <= k < outcomes.len(),
        forall|j: int|
            0 <= j < k ==> (#[trigger] outcomes[j] matches Ok(ct) && ct.server.accepted_ts@
                <= ct.first_byte_ts@ <= ct.read_done_ts@ <= ct.server.first_byte_ts@
                <= ct.server.read_done_ts@),
        outcomes[k] matches Err(e) ==> error == RunError::Failed(e),
        outcomes[k] matches Ok(ct) ==> error is Clock && !(ct.server.accepted_ts@
            <= ct.first_byte_ts@ <= ct.read_done_ts@ <= ct.server.first_byte_ts@
            <= ct.server.read_done_ts@) && error->Clock_0.behind@ == if ct.first_byte_ts@
            < ct.server.accepted_ts@ {
            ct.server.accepted_ts@ - ct.first_byte_ts@
        } else if ct.read_done_ts@ < ct.first_byte_ts@ {
            ct.first_byte_ts@ - ct.read_done_ts@
        } else if ct.server.first_byte_ts@ < ct.read_done_ts@ {
            ct.read_done_ts@ - ct.server.first_byte_ts@
        } else {
            ct.server.first_byte_ts@ - ct.server.read_done_ts@
        },
{
    assert forall|j: int| 0 <= j < k implies (#[trigger] outcomes[j] matches Ok(ct)
        && ct.server.accepted_ts@ <= ct.first_byte_ts@ <= ct.read_done_ts@
        <= ct.server.first_byte_ts@ <= ct.server.read_done_ts@) by {
        law_measured_meaning(outcomes[j]);
    }
    law_measured_meaning(outcomes[k]);
    if let Ok(ct) = outcomes[k] {
        let i = choose|i: int| #[trigger]
            ct.first_goes_back_in(i) && error->Clock_0.behind@ == -ct.intervals()[i];
        law_failure_meaning(ct, i);
    }
}

/// What a benchmark does next: it is over when it has made all its runs; while a run is under way
/// it waits for it; and before that it takes connections until there are as many as a run uses,
/// and then starts the run, which has the number that follows those made.
pub proof fn law_next_step_meaning<S>(p: Progress<S>)
    requires
        p.well_formed(),
    ensures
        p.next_step() is Finish <==> p.runs == p.samples,
        p.next_step() is Collect <==> p.runs < p.samples && p.measuring,
        p.next_step() is Connect <==> p.runs < p.samples && !p.measuring && p.streams.len()
            < p.concurrent,
        p.next_step() is Measure <==> p.runs < p.samples && !p.measuring && p.streams.len()
            == p.concurrent,
        p.next_step() matches RunStep::Measure { run } ==> run == p.runs + 1,
        p.budget() == p.samples * p.concurrent,
{
}

/// No step changes what the benchmark is: its type, how many runs it makes and how many connections
/// each uses. Taking a connection adds it behind those taken and changes nothing else. Starting a
/// run leaves the runs made and all summaries as they are. Collecting adds exactly the summaries of
/// the run behind those before, in order, and counts one run more.
pub proof fn law_steps_keep_benchmark<S>(p: Progress<S>, stream: S, summaries: Seq<TimingSummary>)
    ensures
        p.after_connect(stream).ty == p.ty,
        p.after_connect(stream).samples == p.samples,
        p.after_connect(stream).concurrent == p.concurrent,
        p.after_connect(stream).runs == p.runs,
        p.after_connect(stream).measuring == p.measuring,
        p.after_connect(stream).summaries == p.summaries,
        p.after_connect(stream).streams.len() == p.streams.len() + 1,
        forall|i: int|
            0 <= i < p.streams.len() ==> #[trigger] p.after_connect(stream).streams[i]
                == p.streams[i],
        p.after_connect(stream).streams[p.streams.len() as int] == stream,
        p.after_start().ty == p.ty,
        p.after_start().samples == p.samples,
        p.after_start().concurrent == p.concurrent,
        p.after_start().runs == p.runs,
        p.after_start().streams.len() == 0,
        p.after_start().measuring,
        p.after_start().summaries == p.summaries,
        p.after_measure(summaries).ty == p.ty,
        p.after_measure(summaries).samples == p.samples,
        p.after_measure(summaries).concurrent == p.concurrent,
        p.after_measure(summaries).runs == p.runs + 1,
        p.after_measure(summaries).streams == p.streams,
        !p.after_measure(summaries).measuring,
        p.after_measure(summaries).summaries.len() == p.summaries.len() + summaries.len(),
        forall|i: int|
            0 <= i < p.summaries.len() ==> #[trigger] p.after_measure(summaries).summaries[i]
                == p.summaries[i],
        forall|i: int|
            0 <= i < summaries.len() ==> p.after_measure(summaries).summaries[p.summaries.len() + i]
                == #[trigger] summaries[i],
{
}

/// How far a benchmark has come after more runs, each with the connections taken for it and the
/// summaries it gave.
pub open spec fn after_runs<S>(
    p: Progress<S>,
    runs: Seq<(Seq<S>, Seq<TimingSummary>)>,
) -> Progress<S>
    decreases runs.len(),
{
    if runs.len() == 0 {
        p
    } else {
        after_runs(p, runs.drop_last()).after_connects(runs.last().0).after_start().after_measure(
            runs.last().1,
        )
    }
}

/// A benchmark from its start to any later run is still of its type, with as many runs to make and
/// as many connections in each; it has a summary of every exchange of every run, in order, and it
/// is over exactly if it has made all its runs.
pub proof fn law_benchmark_keeps_everything<S>(
    p: Progress<S>,
    runs: Seq<(Seq<S>, Seq<TimingSummary>)>,
)
    requires
        p.well_formed(),
        p.runs == 0,
        !p.measuring,
        p.streams.len() == 0,
        runs.len() <= p.samples,
        forall|k: int|
            0 <= k < runs.len() ==> (#[trigger] runs[k]).0.len() == p.concurrent && runs[k].1.len()
                == p.concurrent,
    ensures
        after_runs(p, runs).well_formed(),
        after_runs(p, runs).ty == p.ty,
        after_runs(p, runs).samples == p.samples,
        after_runs(p, runs).concurrent == p.concurrent,
        after_runs(p, runs).runs == runs.len(),
        after_runs(p, runs).streams.len() == 0,
        !after_runs(p, runs).measuring,
        after_runs(p, runs).next_step() is Finish <==> runs.len() == p.samples,
        after_runs(p, runs).summaries.len() == runs.len() * p.concurrent,
        forall|k: int, j: int|
            #![trigger runs[k].1[j]]
            0 <= k < runs.len() && 0 <= j < p.concurrent ==> after_runs(p, runs).summaries[k
                * p.concurrent + j] == runs[k].1[j],
    decreases runs.len(),
{
    let c = p.concurrent as int;
    if runs.len() > 0 {
        let n = runs.len() - 1;
        let before = runs.drop_last();
        let q = after_runs(p, before);
        assert(runs.last() == runs[n]);
        assert forall|k: int| 0 <= k < before.len() implies (#[trigger] before[k]).0.len()
            == p.concurrent && before[k].1.len() == p.concurrent by {
            assert(before[k] == runs[k]);
        }
        law_benchmark_keeps_everything(p, before);
        law_run_uses_its_streams(q, runs[n].0);
        let connected = q.after_connects(runs[n].0);
        law_steps_keep_progress(connected.after_start(), runs[n].0.last(), runs[n].1);
        assert((n + 1) * c == n * c + c) by (nonlinear_arith);
        assert forall|k: int, j: int|
            #![trigger runs[k].1[j]]
            0 <= k < runs.len() && 0 <= j < p.concurrent implies after_runs(p, runs).summaries[k
            * p.concurrent + j] == runs[k].1[j] by {
            assert(k * c >= 0) by (nonlinear_arith)
                requires
                    k >= 0,
                    c >= 0,
            ;
            if k < n {
                assert(before[k].1[j] == runs[k].1[j]);
                assert(k * c + j < n * c) by (nonlinear_arith)
                    requires
                        k < n,
                        0 <= j < c,
                ;
            }
        }
    }
}

/// A benchmark never asks for more connections than its budget: when it asks for one, it has taken
/// fewer, and when all samples are taken, it has taken exactly as many and has a summary of each.
pub proof fn law_budget_suffices<S>(p: Progress<S>)
    requires
        p.well_formed(),
    ensures
        p.next_step() is Connect ==> p.taken() < p.budget(),
        p.next_step() is Finish ==> p.taken() == p.budget() == p.summaries.len(),
        p.taken() <= p.budget(),
{
    let (runs, samples, concurrent) = (p.runs, p.samples, p.concurrent);
    if runs < samples {
        assert(runs * concurrent + concurrent <= samples * concurrent) by (nonlinear_arith)
            requires
                runs < samples,
        ;
    }
}

/// Taking a connection uses up one of the budget. Measuring uses up none, starts the next run
/// without connections, and keeps all that was measured before.
pub proof fn law_steps_keep_progress<S>(
    p: Progress<S>,
    stream: S,
    summaries: Seq<TimingSummary>,
)
    requires
        p.well_formed(),
        summaries.len() == p.concurrent,
    ensures
        p.next_step() is Connect ==> p.after_connect(stream).well_formed() && p.after_connect(
            stream,
        ).taken() == p.taken() + 1,
        p.next_step() is Measure ==> p.after_start().well_formed() && p.after_start().taken()
            == p.taken() && p.after_start().next_step() is Collect,
        p.next_step() is Collect ==> {
            let q = p.after_measure(summaries);
            &&& q.well_formed()
            &&& q.taken() == p.taken()
            &&& q.streams.len() == 0
            &&& p.summaries.is_prefix_of(q.summaries)
        },
{
    let (runs, concurrent) = (p.runs, p.concurrent);
    assert((runs + 1) * concurrent == runs * concurrent + concurrent) by (nonlinear_arith);
}

/// A run measures exactly the connections taken for it, each once and in the order in which they
/// were taken. Before the run there are none; as long as fewer are taken than a run uses, one more
/// is asked for; and when there are as many, the run starts with these. After it there are none
/// again.
pub proof fn law_run_uses_its_streams<S>(p: Progress<S>, streams: Seq<S>)
    requires
        p.well_formed(),
        p.runs < p.samples,
        !p.measuring,
        p.streams.len() == 0,
        streams.len() <= p.concurrent,
    ensures
        p.after_connects(streams).well_formed(),
        p.after_connects(streams).streams == streams,
        p.after_connects(streams) == (Progress { streams, ..p }),
        streams.len() < p.concurrent <==> p.after_connects(streams).next_step() is Connect,
        streams.len() == p.concurrent <==> p.after_connects(streams).next_step() is Measure,
        p.after_connects(streams).after_start().streams.len() == 0,
    decreases streams.len(),
{
    if streams.len() == 0 {
        assert(streams =~= p.streams);
    } else {
        law_run_uses_its_streams(p, streams.drop_last());
        assert(streams.drop_last().push(streams.last()) =~= streams);
    }
}

/// How many steps a benchmark has still to take: for each run one for each connection, one to
/// start measuring and one to collect what was measured.
pub open spec fn steps_left<S>(p: Progress<S>) -> int {
    (p.samples - p.runs) * (p.concurrent + 2) - if p.measuring {
        p.concurrent + 1
    } else {
        p.streams.len()
    }
}

/// A benchmark ends: each step that does not fail leaves one step fewer to take, and it finishes
/// when there are none left.
pub proof fn law_benchmark_ends<S>(p: Progress<S>, stream: S, summaries: Seq<TimingSummary>)
    requires
        p.well_formed(),
    ensures
        steps_left(p) >= 0,
        p.next_step() is Finish <==> steps_left(p) == 0,
        p.next_step() is Connect ==> steps_left(p.after_connect(stream)) == steps_left(p) - 1,
        p.next_step() is Measure ==> steps_left(p.after_start()) == steps_left(p) - 1,
        p.next_step() is Collect ==> steps_left(p.after_measure(summaries)) == steps_left(p) - 1,
{
    let left = p.samples - p.runs;
    let each = p.concurrent + 2;
    if left > 0 {
        assert(left * each >= each) by (nonlinear_arith)
            requires
                left > 0,
                each > 0,
        ;
    } else {
        assert(left * each == 0) by (nonlinear_arith)
            requires
                left == 0,
        ;
    }
    assert((left - 1) * each == left * each - each) by (nonlinear_arith);
}

} // verus!
