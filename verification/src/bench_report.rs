//! The benchmark's cases, their statistics, and the reports on them.

use crate::bench::BenchSample;
use crate::model::stands_in_text;
use crate::report::{Line, Tone};
use crate::stats::{
    count_at_most, percentile, percentile_is_least, percentile_nearest_rank, percentiles_rise, sort,
    sorted, sorted_is_ascending, sum, total,
};
use crate::suite::concat;
use crate::text::{
    chars_of, decimal, group_texts, join, joined, opt_text, pad_left, pad_right, padded,
    right_aligned, texts, u128_to_string, u64_to_string, usize_to_string,
};
use crate::views::{group_views, views};
use vstd::prelude::*;

verus! {

broadcast use {group_views, group_texts};

// ---------------------------------------------------------------------------
// Statistics
// ---------------------------------------------------------------------------

/// What the samples of a case say. Averages and rates are left as their parts.
#[derive(Debug, Clone, Copy, PartialEq, Eq, Structural)]
pub struct SummaryStats {
    pub sample_count: usize,
    pub ttft_min_ms: u64,
    pub ttft_median_ms: u64,
    pub ttft_p95_ms: u64,
    pub ttft_total_ms: u128,
    pub ttft_max_ms: u64,
    pub duration_min_ms: u64,
    pub duration_median_ms: u64,
    pub duration_p95_ms: u64,
    pub duration_total_ms: u128,
    pub duration_max_ms: u64,
    pub notification_total: u128,
    pub output_bytes_total: u128,
}

pub open spec fn ttfts(samples: Seq<BenchSample>) -> Seq<u64> {
    samples.map_values(|s: BenchSample| s.ttft_ms)
}

pub open spec fn durations(samples: Seq<BenchSample>) -> Seq<u64> {
    samples.map_values(|s: BenchSample| s.duration_ms)
}

pub open spec fn notifications(samples: Seq<BenchSample>) -> Seq<u64> {
    samples.map_values(|s: BenchSample| s.notification_count as u64)
}

pub open spec fn byte_counts(samples: Seq<BenchSample>) -> Seq<u64> {
    samples.map_values(|s: BenchSample| s.output_bytes as u64)
}

/// The statistics of samples, of which there must be some.
pub open spec fn stats_of(samples: Seq<BenchSample>) -> Option<SummaryStats> {
    let t = sorted(ttfts(samples));
    let d = sorted(durations(samples));
    if samples.len() == 0 {
        None
    } else {
        Some(
            SummaryStats {
                sample_count: samples.len() as usize,
                ttft_min_ms: t.first(),
                ttft_median_ms: percentile(t, 50),
                ttft_p95_ms: percentile(t, 95),
                ttft_total_ms: total(ttfts(samples)) as u128,
                ttft_max_ms: t.last(),
                duration_min_ms: d.first(),
                duration_median_ms: percentile(d, 50),
                duration_p95_ms: percentile(d, 95),
                duration_total_ms: total(durations(samples)) as u128,
                duration_max_ms: d.last(),
                notification_total: total(notifications(samples)) as u128,
                output_bytes_total: total(byte_counts(samples)) as u128,
            },
        )
    }
}

/// Works the statistics of samples out.
pub fn summary_stats(samples: &Vec<BenchSample>) -> (r: Option<SummaryStats>)
    ensures
        r == stats_of(samples@),
        r matches Some(s) ==> s.sample_count == samples@.len() && s.ttft_total_ms == total(
            ttfts(samples@),
        ) && s.duration_total_ms == total(durations(samples@)) && s.notification_total == total(
            notifications(samples@),
        ) && s.output_bytes_total == total(byte_counts(samples@)),
{
    if samples.len() == 0 {
        return None;
    }
    let mut t: Vec<u64> = Vec::new();
    let mut d: Vec<u64> = Vec::new();
    let mut n: Vec<u64> = Vec::new();
    let mut b: Vec<u64> = Vec::new();
    let mut i: usize = 0;
    while i < samples.len()
        invariant
            i <= samples@.len(),
            t@ == ttfts(samples@).take(i as int),
            d@ == durations(samples@).take(i as int),
            n@ == notifications(samples@).take(i as int),
            b@ == byte_counts(samples@).take(i as int),
        decreases samples@.len() - i,
    {
        t.push(samples[i].ttft_ms);
        d.push(samples[i].duration_ms);
        n.push(samples[i].notification_count as u64);
        b.push(samples[i].output_bytes as u64);
        i += 1;
        assert(t@ =~= ttfts(samples@).take(i as int));
        assert(d@ =~= durations(samples@).take(i as int));
        assert(n@ =~= notifications(samples@).take(i as int));
        assert(b@ =~= byte_counts(samples@).take(i as int));
    }
    assert(t@ =~= ttfts(samples@));
    assert(d@ =~= durations(samples@));
    assert(n@ =~= notifications(samples@));
    assert(b@ =~= byte_counts(samples@));
    let ts = sort(&t);
    let ds = sort(&d);
    let last: usize = samples.len() - 1;
    Some(
        SummaryStats {
            sample_count: samples.len(),
            ttft_min_ms: ts[0],
            ttft_median_ms: percentile_nearest_rank(&ts, 50),
            ttft_p95_ms: percentile_nearest_rank(&ts, 95),
            ttft_total_ms: sum(&t),
            ttft_max_ms: ts[last],
            duration_min_ms: ds[0],
            duration_median_ms: percentile_nearest_rank(&ds, 50),
            duration_p95_ms: percentile_nearest_rank(&ds, 95),
            duration_total_ms: sum(&d),
            duration_max_ms: ds[last],
            notification_total: sum(&n),
            output_bytes_total: sum(&b),
        },
    )
}

/// Least, median, 95th percentile and greatest stand in this order, for both times.
pub proof fn stats_in_order(samples: Seq<BenchSample>)
    ensures
        stats_of(samples) matches Some(s) ==> {
            &&& s.ttft_min_ms <= s.ttft_median_ms <= s.ttft_p95_ms <= s.ttft_max_ms
            &&& s.duration_min_ms <= s.duration_median_ms <= s.duration_p95_ms <= s.duration_max_ms
        },
{
    if samples.len() > 0 {
        sorted_is_ascending(ttfts(samples));
        sorted_is_ascending(durations(samples));
        let n = samples.len() as int;
        let t = sorted(ttfts(samples));
        let d = sorted(durations(samples));
        assert(t.len() == n && d.len() == n);
        let m = (50 * n + 99) / 100;
        let p = (95 * n + 99) / 100;
        assert(1 <= m <= p <= n);
        assert(t[0] <= t[m - 1] <= t[p - 1] <= t[n - 1]);
        assert(d[0] <= d[m - 1] <= d[p - 1] <= d[n - 1]);
    }
}

impl SummaryStats {
    /// The throughput in bytes per millisecond, as a fraction; zero where no time passed.
    pub fn throughput(&self) -> (r: (u128, u128))
        ensures
            r.1 > 0,
            if self.duration_total_ms > 0 {
                r == (self.output_bytes_total, self.duration_total_ms)
            } else {
                r == (0u128, 1u128)
            },
    {
        if self.duration_total_ms > 0 {
            (self.output_bytes_total, self.duration_total_ms)
        } else {
            (0, 1)
        }
    }
}

// ---------------------------------------------------------------------------
// Cases
// ---------------------------------------------------------------------------

/// Whether a run is measured.
#[derive(Debug, Clone, Copy, PartialEq, Eq, Structural)]
pub enum Phase {
    Warmup,
    Measurement,
}

/// The name of a phase.
pub open spec fn phase_name(phase: Phase) -> Seq<char> {
    match phase {
        Phase::Warmup => "warmup"@,
        Phase::Measurement => "measurement"@,
    }
}

impl Phase {
    /// The name of the phase.
    pub fn name(self) -> (r: &'static str)
        ensures
            r@ == phase_name(self),
    {
        match self {
            Phase::Warmup => "warmup",
            Phase::Measurement => "measurement",
        }
    }
}

/// A run that failed.
#[derive(Debug, PartialEq, Eq)]
pub struct BenchError {
    pub iteration: u32,
    pub phase: Phase,
    pub message: String,
}

impl View for BenchError {
    type V = (u32, Phase, Seq<char>);

    open spec fn view(&self) -> (u32, Phase, Seq<char>) {
        (self.iteration, self.phase, self.message@)
    }
}

/// A plugin, a scenario and a model, and how their runs went.
#[derive(Debug, PartialEq)]
pub struct BenchCaseReport {
    pub plugin_name: String,
    pub plugin_path: String,
    pub scenario: String,
    pub model: String,
    pub prompt: String,
    pub iterations_requested: u32,
    pub warmup_iterations: u32,
    pub timeout_ms: u64,
    pub samples: Vec<BenchSample>,
    pub errors: Vec<BenchError>,
    pub summary: Option<SummaryStats>,
}

#[verifier::ext_equal]
pub struct CaseView {
    pub plugin_name: Seq<char>,
    pub plugin_path: Seq<char>,
    pub scenario: Seq<char>,
    pub model: Seq<char>,
    pub prompt: Seq<char>,
    pub iterations_requested: int,
    pub warmup_iterations: int,
    pub timeout_ms: int,
    pub samples: Seq<BenchSample>,
    pub errors: Seq<(u32, Phase, Seq<char>)>,
    pub summary: Option<SummaryStats>,
}

impl View for BenchCaseReport {
    type V = CaseView;

    open spec fn view(&self) -> CaseView {
        CaseView {
            plugin_name: self.plugin_name@,
            plugin_path: self.plugin_path@,
            scenario: self.scenario@,
            model: self.model@,
            prompt: self.prompt@,
            iterations_requested: self.iterations_requested as int,
            warmup_iterations: self.warmup_iterations as int,
            timeout_ms: self.timeout_ms as int,
            samples: self.samples@,
            errors: views(self.errors@),
            summary: self.summary,
        }
    }
}

impl CaseView {
    /// Whether a run failed, or a measurement is missing.
    pub open spec fn has_failures(self) -> bool {
        self.errors.len() > 0 || self.samples.len() != self.iterations_requested
    }

    /// The status of the case.
    pub open spec fn status(self) -> Seq<char> {
        if self.has_failures() {
            "fail"@
        } else {
            "pass"@
        }
    }
}

impl BenchCaseReport {
    /// Whether a run failed, or a measurement is missing.
    pub fn has_failures(&self) -> (r: bool)
        ensures
            r == self@.has_failures(),
    {
        self.errors.len() > 0 || self.samples.len() as u64 != self.iterations_requested as u64
    }

    /// The status of the case.
    pub fn status(&self) -> (r: &'static str)
        ensures
            r@ == self@.status(),
    {
        if self.has_failures() {
            "fail"
        } else {
            "pass"
        }
    }
}

/// Whether any case has failures.
pub fn has_failures(cases: &Vec<BenchCaseReport>) -> (r: bool)
    ensures
        r == exists|i: int| 0 <= i < cases@.len() && (#[trigger] cases@[i])@.has_failures(),
{
    let mut i: usize = 0;
    while i < cases.len()
        invariant
            i <= cases@.len(),
            forall|k: int| 0 <= k < i ==> !(#[trigger] cases@[k])@.has_failures(),
        decreases cases@.len() - i,
    {
        if cases[i].has_failures() {
            return true;
        }
        i += 1;
    }
    false
}

/// The name of a plugin, from the last part of its path.
pub fn plugin_label(file_name: &Option<String>) -> (r: String)
    ensures
        r@ == (match opt_text(*file_name) {
            Some(name) => name,
            None => "plugin"@,
        }),
{
    match file_name {
        Some(name) => name.clone(),
        None => "plugin".to_owned(),
    }
}

/// A case under way: how many runs were made, and the phase in which it was broken off.
#[derive(Debug, PartialEq)]
pub struct CaseRun {
    case: BenchCaseReport,
    fail_fast: bool,
    made: u64,
    broken: Option<Phase>,
}

#[verifier::ext_equal]
pub struct CaseState {
    pub case: CaseView,
    pub fail_fast: bool,
    pub made: int,
    pub broken: Option<Phase>,
}

impl View for CaseRun {
    type V = CaseState;

    closed spec fn view(&self) -> CaseState {
        CaseState {
            case: self.case@,
            fail_fast: self.fail_fast,
            made: self.made as int,
            broken: self.broken,
        }
    }
}

/// The next run of a case, by its phase and its number in it: first the warmups, then the
/// measurements.
pub open spec fn case_next(st: CaseState) -> Option<(Phase, int)> {
    let warmups = st.case.warmup_iterations;
    if st.broken is Some {
        None
    } else if st.made < warmups {
        Some((Phase::Warmup, st.made + 1))
    } else if st.made < warmups + st.case.iterations_requested {
        Some((Phase::Measurement, st.made - warmups + 1))
    } else {
        None
    }
}

/// A case after a run. Failures are kept; successes are kept where they are measured. A failure
/// breaks the case off where it is to be left at once.
pub open spec fn case_after(st: CaseState, outcome: Result<BenchSample, Seq<char>>) -> CaseState {
    match case_next(st) {
        None => st,
        Some((phase, number)) => match outcome {
            Ok(sample) => CaseState {
                made: st.made + 1,
                case: if phase == Phase::Warmup {
                    st.case
                } else {
                    CaseView { samples: st.case.samples.push(sample), ..st.case }
                },
                ..st
            },
            Err(message) => CaseState {
                made: st.made + 1,
                case: CaseView {
                    errors: st.case.errors.push((number as u32, phase, message)),
                    ..st.case
                },
                broken: if st.fail_fast {
                    Some(phase)
                } else {
                    None
                },
                ..st
            },
        },
    }
}

/// The report of a case. One that broke off while it warmed up has no statistics.
pub open spec fn case_report(st: CaseState) -> CaseView {
    if st.broken == Some(Phase::Warmup) {
        st.case
    } else {
        CaseView { summary: stats_of(st.case.samples), ..st.case }
    }
}

/// What a run came to stands for.
pub open spec fn sample_outcome(r: Result<BenchSample, String>) -> Result<BenchSample, Seq<char>> {
    match r {
        Ok(s) => Ok(s),
        Err(e) => Err(e@),
    }
}

impl CaseRun {
    /// A case before its first run.
    pub fn new(
        plugin_name: String,
        plugin_path: String,
        scenario: String,
        model: String,
        prompt: String,
        iterations: u32,
        warmup_iterations: u32,
        timeout_ms: u64,
        fail_fast: bool,
    ) -> (r: CaseRun)
        ensures
            r@ == (CaseState {
                case: CaseView {
                    plugin_name: plugin_name@,
                    plugin_path: plugin_path@,
                    scenario: scenario@,
                    model: model@,
                    prompt: prompt@,
                    iterations_requested: iterations as int,
                    warmup_iterations: warmup_iterations as int,
                    timeout_ms: timeout_ms as int,
                    samples: Seq::empty(),
                    errors: Seq::empty(),
                    summary: None,
                },
                fail_fast,
                made: 0,
                broken: None,
            }),
            case_valid(r@),
            samples_numbered(r@),
    {
        proof {
            reveal(Seq::filter);
        }
        let case = BenchCaseReport {
            plugin_name,
            plugin_path,
            scenario,
            model,
            prompt,
            iterations_requested: iterations,
            warmup_iterations,
            timeout_ms,
            samples: Vec::new(),
            errors: Vec::new(),
            summary: None,
        };
        CaseRun { case, fail_fast, made: 0, broken: None }
    }

    /// The next run.
    pub fn next(&self) -> (r: Option<(Phase, u32)>)
        ensures
            case_next(self@) == (match r {
                Some((phase, number)) => Some((phase, number as int)),
                None => None,
            }),
    {
        let warmups: u64 = self.case.warmup_iterations as u64;
        let all: u64 = warmups + self.case.iterations_requested as u64;
        if self.broken.is_some() {
            None
        } else if self.made < warmups {
            Some((Phase::Warmup, (self.made + 1) as u32))
        } else if self.made < all {
            Some((Phase::Measurement, (self.made - warmups + 1) as u32))
        } else {
            None
        }
    }

    /// Records how the next run went.
    pub fn record(&mut self, outcome: Result<BenchSample, String>)
        ensures
            final(self)@ == case_after(old(self)@, sample_outcome(outcome)),
    {
        match self.next() {
            None => {},
            Some((phase, number)) => {
                self.made = self.made + 1;
                match outcome {
                    Ok(sample) => {
                        if phase == Phase::Measurement {
                            self.case.samples.push(sample);
                        }
                    },
                    Err(message) => {
                        self.case.errors.push(BenchError { iteration: number, phase, message });
                        if self.fail_fast {
                            self.broken = Some(phase);
                        }
                    },
                }
            },
        }
    }

    /// Whether the case ends with its statistics: not where it broke off while it warmed up.
    pub fn is_summarised(&self) -> (r: bool)
        ensures
            r == (self@.broken != Some(Phase::Warmup)),
    {
        match self.broken {
            Some(Phase::Warmup) => false,
            _ => true,
        }
    }

    /// The report of the case.
    pub fn finish(self) -> (r: BenchCaseReport)
        ensures
            r@ == case_report(self@),
    {
        let summarised = self.is_summarised();
        let mut case = self.case;
        if summarised {
            case.summary = summary_stats(&case.samples);
        }
        case
    }
}

/// How many measurements were made so far.
pub open spec fn measured(st: CaseState) -> int {
    if st.made > st.case.warmup_iterations {
        st.made - st.case.warmup_iterations
    } else {
        0
    }
}

/// How many of the errors are of measurements.
pub open spec fn measurement_errors(errors: Seq<(u32, Phase, Seq<char>)>) -> nat {
    errors.filter(|e: (u32, Phase, Seq<char>)| e.1 == Phase::Measurement).len()
}

/// Whether a case holds what its runs so far gave: each measurement left a sample or an error, and
/// the case was broken off only where it is to be left at a failure, and there was one.
pub open spec fn case_valid(st: CaseState) -> bool {
    &&& 0 <= st.made <= st.case.warmup_iterations + st.case.iterations_requested
    &&& 0 <= st.case.warmup_iterations
    &&& 0 <= st.case.iterations_requested
    &&& st.case.summary is None
    &&& st.case.samples.len() + measurement_errors(st.case.errors) == measured(st)
    &&& st.broken is Some ==> st.fail_fast && st.case.errors.len() > 0
    &&& st.broken == Some(Phase::Warmup) ==> st.made <= st.case.warmup_iterations
}

/// Whether the samples are numbered in ascending order, by measurements that were made.
pub open spec fn samples_numbered(st: CaseState) -> bool {
    &&& forall|i: int|
        0 <= i < st.case.samples.len() ==> 1 <= (#[trigger] st.case.samples[i]).iteration
            <= measured(st)
    &&& forall|i: int, j: int|
        0 <= i < j < st.case.samples.len() ==> (#[trigger] st.case.samples[i]).iteration < (
        #[trigger] st.case.samples[j]).iteration
}

/// Whether a sample carries the number of the run that is next.
pub open spec fn carries_number(st: CaseState, outcome: Result<BenchSample, Seq<char>>) -> bool {
    match (outcome, case_next(st)) {
        (Ok(sample), Some((_, number))) => sample.iteration == number,
        _ => true,
    }
}

proof fn measurement_errors_push(
    errors: Seq<(u32, Phase, Seq<char>)>,
    e: (u32, Phase, Seq<char>),
)
    ensures
        measurement_errors(errors.push(e)) == measurement_errors(errors) + if e.1
            == Phase::Measurement {
            1nat
        } else {
            0
        },
{
    reveal(Seq::filter);
    assert(errors.push(e).drop_last() =~= errors);
}

/// Every run keeps a case valid, and its samples numbered where they carry the numbers of their
/// runs.
pub proof fn cases_stay_valid(st: CaseState, outcome: Result<BenchSample, Seq<char>>)
    requires
        case_valid(st),
    ensures
        case_valid(case_after(st, outcome)),
        samples_numbered(st) && carries_number(st, outcome) ==> samples_numbered(
            case_after(st, outcome),
        ),
{
    if let (Some((phase, number)), Err(message)) = (case_next(st), outcome) {
        measurement_errors_push(st.case.errors, (number as u32, phase, message));
    }
}

/// A case whose runs are over passes exactly where no run of it failed, warmups counted.
pub proof fn case_passes_iff_no_errors(st: CaseState)
    requires
        case_valid(st),
        case_next(st) is None,
    ensures
        case_report(st).has_failures() == (st.case.errors.len() > 0),
{
    reveal(Seq::filter);
}

/// What the report of a case whose runs are over says: its statistics are those of its samples;
/// unless it is to be left at a failure, each iteration left a sample or an error; and the samples'
/// numbers rise within the iterations.
pub proof fn case_reports_add_up(st: CaseState)
    requires
        case_valid(st),
        samples_numbered(st),
        case_next(st) is None,
    ensures
        ({
            let report = case_report(st);
            &&& report.summary == stats_of(report.samples)
            &&& !st.fail_fast ==> report.samples.len() + measurement_errors(report.errors)
                == report.iterations_requested
            &&& forall|i: int|
                0 <= i < report.samples.len() ==> 1 <= (#[trigger] report.samples[i]).iteration
                    <= report.iterations_requested
            &&& forall|i: int, j: int|
                0 <= i < j < report.samples.len() ==> (#[trigger] report.samples[i]).iteration < (
                #[trigger] report.samples[j]).iteration
        }),
{
}

// ---------------------------------------------------------------------------
// What is printed
// ---------------------------------------------------------------------------

/// The line above a matrix.
pub open spec fn suite_head_view(
    plugins: int,
    scenarios: int,
    models: int,
    iterations: int,
    warmups: int,
) -> Seq<(Seq<char>, Tone)> {
    seq![
        ("==> bench suite"@, Tone::CyanBold),
        (
            " plugins="@ + decimal(plugins as nat) + " scenarios="@ + decimal(scenarios as nat)
                + " models="@ + decimal(models as nat) + " iterations="@ + decimal(
                iterations as nat,
            ) + " warmup="@ + decimal(warmups as nat),
            Tone::Plain,
        ),
    ]
}

/// Describes a matrix.
pub fn suite_head(
    plugins: usize,
    scenarios: usize,
    models: usize,
    iterations: u32,
    warmups: u32,
) -> (r: Line)
    ensures
        r@ == suite_head_view(
            plugins as int,
            scenarios as int,
            models as int,
            iterations as int,
            warmups as int,
        ),
{
    let mut m = " plugins=".to_owned();
    m.append(usize_to_string(plugins).as_str());
    m.append(" scenarios=");
    m.append(usize_to_string(scenarios).as_str());
    m.append(" models=");
    m.append(usize_to_string(models).as_str());
    m.append(" iterations=");
    m.append(u64_to_string(iterations as u64).as_str());
    m.append(" warmup=");
    m.append(u64_to_string(warmups as u64).as_str());
    Line::new().add("==> bench suite", Tone::CyanBold).add(m.as_str(), Tone::Plain)
}

/// The line above a case.
pub open spec fn case_head_view(plugin: Seq<char>, scenario: Seq<char>, model: Seq<char>) -> Seq<
    (Seq<char>, Tone),
> {
    seq![
        ("==> case"@, Tone::CyanBold),
        (" plugin="@ + plugin + " scenario="@ + scenario + " model="@ + model, Tone::Plain),
    ]
}

/// Describes a case.
pub fn case_head(plugin: &str, scenario: &str, model: &str) -> (r: Line)
    ensures
        r@ == case_head_view(plugin@, scenario@, model@),
{
    let mut m = " plugin=".to_owned();
    m.append(plugin);
    m.append(" scenario=");
    m.append(scenario);
    m.append(" model=");
    m.append(model);
    Line::new().add("==> case", Tone::CyanBold).add(m.as_str(), Tone::Plain)
}

/// The line about a run that succeeded.
pub open spec fn sample_text(phase: Phase, number: int, s: BenchSample) -> Seq<char> {
    (match phase {
        Phase::Warmup => "  warmup "@,
        Phase::Measurement => "  iter   "@,
    }) + right_aligned(decimal(number as nat), 2) + " ttft "@ + right_aligned(
        decimal(s.ttft_ms as nat),
        5,
    ) + "ms total "@ + right_aligned(decimal(s.duration_ms as nat), 5) + "ms notifs "@
        + right_aligned(decimal(s.notification_count as nat), 4) + " bytes "@ + right_aligned(
        decimal(s.output_bytes as nat),
        6,
    )
}

/// Describes a run that succeeded.
pub fn sample_line(phase: Phase, number: u32, s: &BenchSample) -> (r: String)
    ensures
        r@ == sample_text(phase, number as int, *s),
{
    let mut m = match phase {
        Phase::Warmup => "  warmup ".to_owned(),
        Phase::Measurement => "  iter   ".to_owned(),
    };
    m.append(pad_left(u64_to_string(number as u64).as_str(), 2).as_str());
    m.append(" ttft ");
    m.append(pad_left(u64_to_string(s.ttft_ms).as_str(), 5).as_str());
    m.append("ms total ");
    m.append(pad_left(u64_to_string(s.duration_ms).as_str(), 5).as_str());
    m.append("ms notifs ");
    m.append(pad_left(u64_to_string(s.notification_count as u64).as_str(), 4).as_str());
    m.append(" bytes ");
    m.append(pad_left(usize_to_string(s.output_bytes).as_str(), 6).as_str());
    m
}

/// The line about a run that failed.
pub open spec fn failure_view(phase: Phase, number: int, message: Seq<char>) -> Seq<
    (Seq<char>, Tone),
> {
    seq![
        (
            (match phase {
                Phase::Warmup => "  warmup "@,
                Phase::Measurement => "  iter   "@,
            }) + right_aligned(decimal(number as nat), 2) + " "@,
            Tone::Plain,
        ),
        ("FAIL "@ + message, Tone::Red),
    ]
}

/// Describes a run that failed.
pub fn failure_line(phase: Phase, number: u32, message: &str) -> (r: Line)
    ensures
        r@ == failure_view(phase, number as int, message@),
{
    let mut m = match phase {
        Phase::Warmup => "  warmup ".to_owned(),
        Phase::Measurement => "  iter   ".to_owned(),
    };
    m.append(pad_left(u64_to_string(number as u64).as_str(), 2).as_str());
    m.append(" ");
    Line::new().add(m.as_str(), Tone::Plain).add(concat("FAIL ", message).as_str(), Tone::Red)
}

/// The line about a case, below the runs; `throughput` is the rate in bytes per second.
pub open spec fn case_summary_text(summary: Option<SummaryStats>, throughput: Seq<char>) -> Seq<
    char,
> {
    match summary {
        None => "  summary unavailable: no successful measured iterations"@,
        Some(s) => "  summary ttft median "@ + right_aligned(decimal(s.ttft_median_ms as nat), 5)
            + "ms p95 "@ + right_aligned(decimal(s.ttft_p95_ms as nat), 5) + "ms | total median "@
            + right_aligned(decimal(s.duration_median_ms as nat), 5) + "ms p95 "@ + right_aligned(
            decimal(s.duration_p95_ms as nat),
            5,
        ) + "ms | throughput "@ + right_aligned(throughput, 7) + " B/s"@,
    }
}

/// Describes a case, below its runs.
pub fn case_summary_line(summary: &Option<SummaryStats>, throughput: &str) -> (r: String)
    ensures
        r@ == case_summary_text(*summary, throughput@),
{
    match summary {
        None => "  summary unavailable: no successful measured iterations".to_owned(),
        Some(s) => {
            let mut m = "  summary ttft median ".to_owned();
            m.append(pad_left(u64_to_string(s.ttft_median_ms).as_str(), 5).as_str());
            m.append("ms p95 ");
            m.append(pad_left(u64_to_string(s.ttft_p95_ms).as_str(), 5).as_str());
            m.append("ms | total median ");
            m.append(pad_left(u64_to_string(s.duration_median_ms).as_str(), 5).as_str());
            m.append("ms p95 ");
            m.append(pad_left(u64_to_string(s.duration_p95_ms).as_str(), 5).as_str());
            m.append("ms | throughput ");
            m.append(pad_left(throughput, 7).as_str());
            m.append(" B/s");
            m
        },
    }
}

/// The line about a case in the summary of all.
pub open spec fn suite_text(c: CaseView) -> Seq<char> {
    let head = "  ["@ + (if c.has_failures() {
        "FAIL"@
    } else {
        "PASS"@
    }) + "] "@ + padded(c.plugin_name, 28) + " "@ + padded(c.scenario, 18) + " "@ + padded(
        c.model,
        24,
    );
    match c.summary {
        None => head + " samples  0/"@ + padded(decimal(c.iterations_requested as nat), 2),
        Some(s) => head + " samples "@ + right_aligned(decimal(s.sample_count as nat), 2) + "/"@
            + padded(decimal(c.iterations_requested as nat), 2) + " ttft_p95 "@ + right_aligned(
            decimal(s.ttft_p95_ms as nat),
            5,
        ) + "ms dur_p95 "@ + right_aligned(decimal(s.duration_p95_ms as nat), 5) + "ms"@,
    }
}

/// Describes a case in the summary of all.
pub fn suite_line(c: &BenchCaseReport) -> (r: String)
    ensures
        r@ == suite_text(c@),
{
    let mut m = "  [".to_owned();
    if c.has_failures() {
        m.append("FAIL");
    } else {
        m.append("PASS");
    }
    m.append("] ");
    m.append(pad_right(c.plugin_name.as_str(), 28).as_str());
    m.append(" ");
    m.append(pad_right(c.scenario.as_str(), 18).as_str());
    m.append(" ");
    m.append(pad_right(c.model.as_str(), 24).as_str());
    let requested = pad_right(u64_to_string(c.iterations_requested as u64).as_str(), 2);
    match &c.summary {
        None => {
            m.append(" samples  0/");
            m.append(requested.as_str());
        },
        Some(s) => {
            m.append(" samples ");
            m.append(pad_left(usize_to_string(s.sample_count).as_str(), 2).as_str());
            m.append("/");
            m.append(requested.as_str());
            m.append(" ttft_p95 ");
            m.append(pad_left(u64_to_string(s.ttft_p95_ms).as_str(), 5).as_str());
            m.append("ms dur_p95 ");
            m.append(pad_left(u64_to_string(s.duration_p95_ms).as_str(), 5).as_str());
            m.append("ms");
        },
    }
    m
}

// ---------------------------------------------------------------------------
// CSV
// ---------------------------------------------------------------------------

/// Whether a character makes a field need quotes.
pub open spec fn needs_quotes(c: char) -> bool {
    c == ',' || c == '"' || c == '\n' || c == '\r'
}

/// A text with every quote doubled.
pub open spec fn doubled(s: Seq<char>) -> Seq<char>
    decreases s.len(),
{
    if s.len() == 0 {
        Seq::empty()
    } else if s.last() == '"' {
        doubled(s.drop_last()).push('"').push('"')
    } else {
        doubled(s.drop_last()).push(s.last())
    }
}

/// Whether a text needs quotes.
pub open spec fn is_special(s: Seq<char>) -> bool {
    exists|i: int| 0 <= i < s.len() && needs_quotes(#[trigger] s[i])
}

/// A text as a field of a CSV file.
pub open spec fn csv_text(s: Seq<char>) -> Seq<char> {
    if is_special(s) {
        seq!['"'] + doubled(s) + seq!['"']
    } else {
        s
    }
}

/// Writes a text as a field of a CSV file.
pub fn csv_field(value: &str) -> (r: String)
    ensures
        r@ == csv_text(value@),
{
    let c = chars_of(value);
    let mut special: bool = false;
    let mut i: usize = 0;
    while i < c.len()
        invariant
            i <= c@.len(),
            c@ == value@,
            special == exists|k: int| 0 <= k < i && needs_quotes(#[trigger] value@[k]),
        decreases c@.len() - i,
    {
        if c[i] == ',' || c[i] == '"' || c[i] == '\n' || c[i] == '\r' {
            assert(needs_quotes(value@[i as int]));
            special = true;
        }
        i += 1;
    }
    if !special {
        return value.to_owned();
    }
    let mut r = String::new();
    r.push('"');
    let mut k: usize = 0;
    assert(c@.take(0) =~= Seq::<char>::empty());
    assert(r@ =~= seq!['"'] + doubled(c@.take(0)));
    while k < c.len()
        invariant
            k <= c@.len(),
            r@ == seq!['"'] + doubled(c@.take(k as int)),
        decreases c@.len() - k,
    {
        assert(c@.take(k + 1).drop_last() =~= c@.take(k as int));
        if c[k] == '"' {
            r.push('"');
            r.push('"');
        } else {
            r.push(c[k]);
        }
        k += 1;
        assert(r@ =~= seq!['"'] + doubled(c@.take(k as int)));
    }
    r.push('"');
    assert(c@.take(k as int) =~= value@);
    assert(r@ =~= seq!['"'] + doubled(value@) + seq!['"']);
    r
}

/// A text in which every two quotes are taken for one, read from the end.
pub open spec fn undoubled(s: Seq<char>) -> Seq<char>
    decreases s.len(),
{
    if s.len() == 0 {
        Seq::empty()
    } else if s.len() >= 2 && s.last() == '"' {
        undoubled(s.drop_last().drop_last()).push('"')
    } else {
        undoubled(s.drop_last()).push(s.last())
    }
}

/// What a reader of CSV takes a field for.
pub open spec fn csv_read(field: Seq<char>) -> Seq<char> {
    if field.len() >= 2 && field.first() == '"' {
        undoubled(field.subrange(1, field.len() - 1))
    } else {
        field
    }
}

proof fn undoubled_doubled(s: Seq<char>)
    ensures
        undoubled(doubled(s)) == s,
    decreases s.len(),
{
    if s.len() > 0 {
        let head = s.drop_last();
        undoubled_doubled(head);
        let d = doubled(head);
        if s.last() == '"' {
            assert(d.push('"').push('"').drop_last() =~= d.push('"'));
            assert(d.push('"').drop_last() =~= d);
        } else {
            assert(d.push(s.last()).drop_last() =~= d);
        }
        assert(head.push(s.last()) =~= s);
    }
}

/// Reading a field of a CSV file gives back the text that it was written from.
pub proof fn csv_round_trip(s: Seq<char>)
    ensures
        csv_read(csv_text(s)) == s,
{
    if is_special(s) {
        let field = seq!['"'] + doubled(s) + seq!['"'];
        assert(field.subrange(1, field.len() - 1) =~= doubled(s));
        undoubled_doubled(s);
    } else if s.len() > 0 {
        assert(!needs_quotes(s[0]));
    }
}

/// The averages and the rate of a case, as they are to be written.
#[derive(Debug, PartialEq, Eq)]
pub struct RateTexts {
    pub ttft_avg_ms: String,
    pub duration_avg_ms: String,
    pub notification_avg: String,
    pub throughput_bps: String,
}

#[verifier::ext_equal]
pub struct RateView {
    pub ttft_avg_ms: Seq<char>,
    pub duration_avg_ms: Seq<char>,
    pub notification_avg: Seq<char>,
    pub throughput_bps: Seq<char>,
}

impl View for RateTexts {
    type V = RateView;

    open spec fn view(&self) -> RateView {
        RateView {
            ttft_avg_ms: self.ttft_avg_ms@,
            duration_avg_ms: self.duration_avg_ms@,
            notification_avg: self.notification_avg@,
            throughput_bps: self.throughput_bps@,
        }
    }
}

/// The first line of the CSV report.
pub const CSV_HEADER: &'static str = "plugin,plugin_path,scenario,model,status,sample_count,error_count,ttft_min_ms,ttft_median_ms,ttft_p95_ms,ttft_avg_ms,ttft_max_ms,duration_min_ms,duration_median_ms,duration_p95_ms,duration_avg_ms,duration_max_ms,notification_avg,output_bytes_total,throughput_bps";

/// The statistics of a case as fields; empty where there are none.
pub open spec fn csv_stats(summary: Option<SummaryStats>, rates: RateView) -> Seq<Seq<char>> {
    match summary {
        None => Seq::new(13, |i: int| Seq::<char>::empty()),
        Some(s) => seq![
            decimal(s.ttft_min_ms as nat),
            decimal(s.ttft_median_ms as nat),
            decimal(s.ttft_p95_ms as nat),
            rates.ttft_avg_ms,
            decimal(s.ttft_max_ms as nat),
            decimal(s.duration_min_ms as nat),
            decimal(s.duration_median_ms as nat),
            decimal(s.duration_p95_ms as nat),
            rates.duration_avg_ms,
            decimal(s.duration_max_ms as nat),
            rates.notification_avg,
            decimal(s.output_bytes_total as nat),
            rates.throughput_bps,
        ],
    }
}

/// The fields of a case.
pub open spec fn csv_fields(c: CaseView, rates: RateView) -> Seq<Seq<char>> {
    seq![
        csv_text(c.plugin_name),
        csv_text(c.plugin_path),
        csv_text(c.scenario),
        csv_text(c.model),
        csv_text(c.status()),
        decimal(c.samples.len()),
        decimal(c.errors.len()),
    ] + csv_stats(c.summary, rates)
}

/// The line of a case in the CSV report.
pub fn csv_row(c: &BenchCaseReport, rates: &RateTexts) -> (r: String)
    ensures
        r@ == joined(csv_fields(c@, rates@), ","@),
{
    let mut f: Vec<String> = Vec::new();
    f.push(csv_field(c.plugin_name.as_str()));
    f.push(csv_field(c.plugin_path.as_str()));
    f.push(csv_field(c.scenario.as_str()));
    f.push(csv_field(c.model.as_str()));
    f.push(csv_field(c.status()));
    f.push(usize_to_string(c.samples.len()));
    f.push(usize_to_string(c.errors.len()));
    let ghost head = texts(f@);
    match &c.summary {
        None => {
            let mut i: usize = 0;
            assert(head + Seq::new(0, |k: int| Seq::<char>::empty()) =~= head);
            while i < 13
                invariant
                    i <= 13,
                    texts(f@) == head + Seq::new(i as nat, |k: int| Seq::<char>::empty()),
                decreases 13 - i,
            {
                f.push(String::new());
                assert(texts(f@) =~= head + Seq::new((i + 1) as nat, |k: int| Seq::<char>::empty()));
                i += 1;
            }
        },
        Some(s) => {
            f.push(u64_to_string(s.ttft_min_ms));
            f.push(u64_to_string(s.ttft_median_ms));
            f.push(u64_to_string(s.ttft_p95_ms));
            f.push(rates.ttft_avg_ms.clone());
            f.push(u64_to_string(s.ttft_max_ms));
            f.push(u64_to_string(s.duration_min_ms));
            f.push(u64_to_string(s.duration_median_ms));
            f.push(u64_to_string(s.duration_p95_ms));
            f.push(rates.duration_avg_ms.clone());
            f.push(u64_to_string(s.duration_max_ms));
            f.push(rates.notification_avg.clone());
            f.push(u128_to_string(s.output_bytes_total));
            f.push(rates.throughput_bps.clone());
        },
    }
    assert(texts(f@) =~= csv_fields(c@, rates@));
    join(&f, ",")
}

/// Every row of the CSV report has the same twenty fields, with statistics or without.
pub proof fn csv_rows_are_level(c: CaseView, rates: RateView)
    ensures
        csv_fields(c, rates).len() == 20,
{
}

/// Lines, each with its end.
pub open spec fn ended_lines(lines: Seq<Seq<char>>) -> Seq<char>
    decreases lines.len(),
{
    if lines.len() == 0 {
        Seq::empty()
    } else {
        ended_lines(lines.drop_last()) + lines.last() + "\n"@
    }
}

/// The CSV report with the given rows.
pub fn csv_report(rows: &Vec<String>) -> (r: String)
    ensures
        r@ == CSV_HEADER@ + "\n"@ + ended_lines(texts(rows@)),
{
    let mut r = concat(CSV_HEADER, "\n");
    let ghost head = r@;
    let mut i: usize = 0;
    assert(texts(rows@).take(0) =~= Seq::<Seq<char>>::empty());
    assert(head + ended_lines(texts(rows@).take(0)) =~= head);
    while i < rows.len()
        invariant
            i <= rows@.len(),
            r@ == head + ended_lines(texts(rows@).take(i as int)),
        decreases rows@.len() - i,
    {
        let ghost before = ended_lines(texts(rows@).take(i as int));
        assert(texts(rows@).take(i + 1).drop_last() =~= texts(rows@).take(i as int));
        r.append(rows[i].as_str());
        r.append("\n");
        assert(head + before + rows@[i as int]@ + "\n"@ =~= head + (before + rows@[i as int]@
            + "\n"@));
        i += 1;
    }
    assert(texts(rows@).take(i as int) =~= texts(rows@));
    r
}

// ---------------------------------------------------------------------------
// Laws
// ---------------------------------------------------------------------------

/// Least and greatest of some numbers, in order, bound them all and are among them.
proof fn ends_bound_all(s: Seq<u64>, i: int)
    requires
        0 <= i < s.len(),
    ensures
        sorted(s).first() <= s[i] <= sorted(s).last(),
        s.contains(sorted(s).first()),
        s.contains(sorted(s).last()),
        s.contains(percentile(sorted(s), 50)),
        s.contains(percentile(sorted(s), 95)),
{
    let t = sorted(s);
    sorted_is_ascending(s);
    s.to_multiset_ensures();
    t.to_multiset_ensures();
    assert(s.contains(s[i]));
    assert(s.to_multiset().count(s[i]) > 0);
    let k = choose|k: int| 0 <= k < t.len() && t[k] == s[i];
    assert(t.contains(s[i]));
    assert(t[0] <= t[k] <= t[t.len() - 1]);
    assert(t.contains(t[0]) && t.contains(t[t.len() - 1]));
    percentiles_rise(t, 50, 95);
    percentiles_rise(t, 95, 95);
    assert(t.to_multiset().count(t[0]) > 0);
    assert(t.to_multiset().count(t[t.len() - 1]) > 0);
    assert(t.to_multiset().count(percentile(t, 50)) > 0);
    assert(t.to_multiset().count(percentile(t, 95)) > 0);
}

/// Whether a number is that of one of the samples, read by `f`.
pub open spec fn among(samples: Seq<BenchSample>, f: spec_fn(BenchSample) -> u64, v: u64) -> bool {
    exists|i: int| 0 <= i < samples.len() && f(#[trigger] samples[i]) == v
}

/// The times of a case are those of its samples: no sample lies outside the least and the greatest,
/// and the least, the median, the 95th percentile and the greatest each belong to a sample. Half of
/// the samples take no longer than the median, 95 of a hundred no longer than the 95th percentile,
/// and that is so of no smaller number.
pub proof fn stats_describe_the_samples(samples: Seq<BenchSample>, i: int)
    requires
        0 <= i < samples.len() <= usize::MAX,
    ensures
        stats_of(samples) matches Some(s) && {
            &&& s.sample_count == samples.len()
            &&& s.ttft_min_ms <= samples[i].ttft_ms <= s.ttft_max_ms
            &&& s.duration_min_ms <= samples[i].duration_ms <= s.duration_max_ms
            &&& among(samples, |x: BenchSample| x.ttft_ms, s.ttft_min_ms)
            &&& among(samples, |x: BenchSample| x.ttft_ms, s.ttft_median_ms)
            &&& among(samples, |x: BenchSample| x.ttft_ms, s.ttft_p95_ms)
            &&& among(samples, |x: BenchSample| x.ttft_ms, s.ttft_max_ms)
            &&& among(samples, |x: BenchSample| x.duration_ms, s.duration_min_ms)
            &&& among(samples, |x: BenchSample| x.duration_ms, s.duration_median_ms)
            &&& among(samples, |x: BenchSample| x.duration_ms, s.duration_p95_ms)
            &&& among(samples, |x: BenchSample| x.duration_ms, s.duration_max_ms)
            &&& count_at_most(sorted(ttfts(samples)), s.ttft_median_ms) * 2 >= samples.len()
            &&& count_at_most(sorted(ttfts(samples)), s.ttft_p95_ms) * 100 >= 95 * samples.len()
            &&& count_at_most(sorted(durations(samples)), s.duration_median_ms) * 2
                >= samples.len()
            &&& count_at_most(sorted(durations(samples)), s.duration_p95_ms) * 100 >= 95
                * samples.len()
            &&& forall|w: u64|
                w < s.ttft_median_ms ==> #[trigger] count_at_most(sorted(ttfts(samples)), w) * 2
                    < samples.len()
            &&& forall|w: u64|
                w < s.ttft_p95_ms ==> #[trigger] count_at_most(sorted(ttfts(samples)), w) * 100 < 95
                    * samples.len()
            &&& forall|w: u64|
                w < s.duration_median_ms ==> #[trigger] count_at_most(
                    sorted(durations(samples)),
                    w,
                ) * 2 < samples.len()
            &&& forall|w: u64|
                w < s.duration_p95_ms ==> #[trigger] count_at_most(sorted(durations(samples)), w)
                    * 100 < 95 * samples.len()
        },
{
    let t = ttfts(samples);
    let d = durations(samples);
    let by_ttft = |x: BenchSample| x.ttft_ms;
    let by_duration = |x: BenchSample| x.duration_ms;
    ends_bound_all(t, i);
    ends_bound_all(d, i);
    sorted_is_ascending(t);
    sorted_is_ascending(d);
    percentile_is_least(sorted(t), 50);
    percentile_is_least(sorted(t), 95);
    percentile_is_least(sorted(d), 50);
    percentile_is_least(sorted(d), 95);
    assert forall|v: u64| t.contains(v) implies among(samples, by_ttft, v) by {
        let k = choose|k: int| 0 <= k < t.len() && t[k] == v;
        assert(by_ttft(samples[k]) == v);
    }
    assert forall|v: u64| d.contains(v) implies among(samples, by_duration, v) by {
        let k = choose|k: int| 0 <= k < d.len() && d[k] == v;
        assert(by_duration(samples[k]) == v);
    }
}

/// The sums grow by what each sample has, from nothing.
pub proof fn totals_add_samples_up(samples: Seq<BenchSample>, x: BenchSample)
    ensures
        total(ttfts(samples.push(x))) == total(ttfts(samples)) + x.ttft_ms,
        total(durations(samples.push(x))) == total(durations(samples)) + x.duration_ms,
        total(notifications(samples.push(x))) == total(notifications(samples))
            + x.notification_count,
        total(byte_counts(samples.push(x))) == total(byte_counts(samples)) + (x.output_bytes
            as u64),
        total(ttfts(Seq::empty())) == 0,
        total(durations(Seq::empty())) == 0,
        total(notifications(Seq::empty())) == 0,
        total(byte_counts(Seq::empty())) == 0,
        stats_of(Seq::empty()) is None,
{
    assert(ttfts(samples.push(x)) =~= ttfts(samples).push(x.ttft_ms));
    assert(durations(samples.push(x)) =~= durations(samples).push(x.duration_ms));
    assert(notifications(samples.push(x)) =~= notifications(samples).push(
        x.notification_count as u64,
    ));
    assert(byte_counts(samples.push(x)) =~= byte_counts(samples).push(x.output_bytes as u64));
    assert(ttfts(samples).push(x.ttft_ms).drop_last() =~= ttfts(samples));
    assert(durations(samples).push(x.duration_ms).drop_last() =~= durations(samples));
    assert(notifications(samples).push(x.notification_count as u64).drop_last() =~= notifications(
        samples,
    ));
    assert(byte_counts(samples).push(x.output_bytes as u64).drop_last() =~= byte_counts(samples));
}

/// The runs of a case come in order: the warmups, numbered from one, then the measurements, numbered
/// from one. Each run is recorded by what it came to: a warmup that succeeds leaves no trace, a
/// measurement that succeeds leaves its sample behind those before it, and a run that fails leaves
/// its number, its phase and its message. A failure ends the case exactly where it is to be left at
/// one.
pub proof fn runs_are_recorded(st: CaseState, sample: BenchSample, message: Seq<char>)
    requires
        case_valid(st),
        st.broken is None,
        st.case.warmup_iterations <= u32::MAX,
        st.case.iterations_requested <= u32::MAX,
    ensures
        ({
            let warmups = st.case.warmup_iterations;
            let done = case_after(st, Ok(sample));
            let failed = case_after(st, Err(message));
            &&& st.made < warmups ==> {
                &&& case_next(st) == Some((Phase::Warmup, st.made + 1))
                &&& done.case == st.case
                &&& failed.case.errors == st.case.errors.push(
                    ((st.made + 1) as u32, Phase::Warmup, message),
                )
                &&& st.fail_fast ==> case_report(failed).summary is None
            }
            &&& warmups <= st.made < warmups + st.case.iterations_requested ==> {
                &&& case_next(st) == Some((Phase::Measurement, st.made - warmups + 1))
                &&& done.case.samples == st.case.samples.push(sample)
                &&& done.case.errors == st.case.errors
                &&& failed.case.errors == st.case.errors.push(
                    ((st.made - warmups + 1) as u32, Phase::Measurement, message),
                )
            }
            &&& st.made >= warmups + st.case.iterations_requested ==> {
                &&& case_next(st) is None
                &&& done == st
                &&& failed == st
            }
            &&& case_next(st) is Some ==> {
                &&& done.made == st.made + 1
                &&& failed.made == st.made + 1
                &&& failed.case.samples == st.case.samples
                &&& done.broken is None
                &&& (failed.broken is Some) == st.fail_fast
                &&& st.fail_fast ==> case_next(failed) is None
            }
        }),
{
}

/// A row of the CSV report says what it is headed by: read as a field, the names are those of the
/// case, and behind them stand its status, how many samples and errors there are, and the
/// statistics.
pub proof fn csv_rows_say_what_they_are_headed_by(c: CaseView, rates: RateView)
    ensures
        ({
            let f = csv_fields(c, rates);
            &&& csv_read(f[0]) == c.plugin_name
            &&& csv_read(f[1]) == c.plugin_path
            &&& csv_read(f[2]) == c.scenario
            &&& csv_read(f[3]) == c.model
            &&& (csv_read(f[4]) == "fail"@) == (c.errors.len() > 0 || c.samples.len()
                != c.iterations_requested)
            &&& csv_read(f[4]) == "fail"@ || csv_read(f[4]) == "pass"@
            &&& f[5] == decimal(c.samples.len())
            &&& f[6] == decimal(c.errors.len())
            &&& c.summary is None ==> forall|k: int| 7 <= k < 20 ==> (#[trigger] f[k]).len() == 0
            &&& c.summary matches Some(s) ==> {
                &&& f[7] == decimal(s.ttft_min_ms as nat)
                &&& f[8] == decimal(s.ttft_median_ms as nat)
                &&& f[9] == decimal(s.ttft_p95_ms as nat)
                &&& f[10] == rates.ttft_avg_ms
                &&& f[11] == decimal(s.ttft_max_ms as nat)
                &&& f[12] == decimal(s.duration_min_ms as nat)
                &&& f[13] == decimal(s.duration_median_ms as nat)
                &&& f[14] == decimal(s.duration_p95_ms as nat)
                &&& f[15] == rates.duration_avg_ms
                &&& f[16] == decimal(s.duration_max_ms as nat)
                &&& f[17] == rates.notification_avg
                &&& f[18] == decimal(s.output_bytes_total as nat)
                &&& f[19] == rates.throughput_bps
            }
        }),
{
    csv_round_trip(c.plugin_name);
    csv_round_trip(c.plugin_path);
    csv_round_trip(c.scenario);
    csv_round_trip(c.model);
    csv_round_trip(c.status());
    reveal_strlit("fail");
    reveal_strlit("pass");
    assert("fail"@[0] != "pass"@[0]);
}

/// A field stands in quotes exactly where its text has a comma, a quote or the end of a line in it;
/// one that does not has none of these, so that no reader takes it for two.
pub proof fn fields_are_quoted_where_they_must_be(s: Seq<char>, i: int)
    ensures
        0 <= i < s.len() && (s[i] == ',' || s[i] == '"' || s[i] == '\n' || s[i] == '\r') ==> {
            let f = csv_text(s);
            &&& f.len() >= s.len() + 2
            &&& f.first() == '"'
            &&& f.last() == '"'
        },
        (forall|k: int|
            0 <= k < s.len() ==> #[trigger] s[k] != ',' && s[k] != '"' && s[k] != '\n' && s[k]
                != '\r') ==> csv_text(s) == s,
{
    if 0 <= i < s.len() && (s[i] == ',' || s[i] == '"' || s[i] == '\n' || s[i] == '\r') {
        assert(needs_quotes(s[i]));
        doubled_is_no_shorter(s);
    }
}

proof fn doubled_is_no_shorter(s: Seq<char>)
    ensures
        doubled(s).len() >= s.len(),
    decreases s.len(),
{
    if s.len() > 0 {
        doubled_is_no_shorter(s.drop_last());
    }
}

/// A case is shown as failed exactly where a run of it failed or a measurement is missing, with the
/// names, how many samples there are of how many, and the slowest of 95 in a hundred where there are
/// samples.
pub proof fn cases_are_shown(c: CaseView)
    ensures
        ({
            let mark = if c.errors.len() > 0 || c.samples.len() != c.iterations_requested {
                "FAIL"@
            } else {
                "PASS"@
            };
            let names = "  ["@ + mark + "] "@ + padded(c.plugin_name, 28) + " "@ + padded(
                c.scenario,
                18,
            ) + " "@ + padded(c.model, 24);
            let requested = padded(decimal(c.iterations_requested as nat), 2);
            &&& c.summary is None ==> suite_text(c) == names + " samples  0/"@ + requested
            &&& c.summary matches Some(s) ==> suite_text(c) == names + " samples "@ + right_aligned(
                decimal(s.sample_count as nat),
                2,
            ) + "/"@ + requested + " ttft_p95 "@ + right_aligned(decimal(s.ttft_p95_ms as nat), 5)
                + "ms dur_p95 "@ + right_aligned(decimal(s.duration_p95_ms as nat), 5) + "ms"@
        }),
{
}

/// A run is shown by its phase and its number; one that succeeded with its times, its notifications
/// and its bytes, one that failed with its message.
pub proof fn runs_are_shown(number: int, s: BenchSample, message: Seq<char>)
    ensures
        ({
            let n = right_aligned(decimal(number as nat), 2);
            let measured = " ttft "@ + right_aligned(decimal(s.ttft_ms as nat), 5) + "ms total "@
                + right_aligned(decimal(s.duration_ms as nat), 5) + "ms notifs "@ + right_aligned(
                decimal(s.notification_count as nat),
                4,
            ) + " bytes "@ + right_aligned(decimal(s.output_bytes as nat), 6);
            &&& sample_text(Phase::Warmup, number, s) == "  warmup "@ + n + measured
            &&& sample_text(Phase::Measurement, number, s) == "  iter   "@ + n + measured
            &&& failure_view(Phase::Warmup, number, message)[0].0 == "  warmup "@ + n + " "@
            &&& failure_view(Phase::Measurement, number, message)[0].0 == "  iter   "@ + n + " "@
            &&& failure_view(Phase::Warmup, number, message)[1].0 == "FAIL "@ + message
            &&& failure_view(Phase::Measurement, number, message)[1].0 == "FAIL "@ + message
            &&& phase_name(Phase::Warmup) == "warmup"@
            &&& phase_name(Phase::Measurement) == "measurement"@
        }),
{
    let n = right_aligned(decimal(number as nat), 2);
    let measured = " ttft "@ + right_aligned(decimal(s.ttft_ms as nat), 5) + "ms total "@
        + right_aligned(decimal(s.duration_ms as nat), 5) + "ms notifs "@ + right_aligned(
        decimal(s.notification_count as nat),
        4,
    ) + " bytes "@ + right_aligned(decimal(s.output_bytes as nat), 6);
    assert(sample_text(Phase::Warmup, number, s) =~= "  warmup "@ + n + measured);
    assert(sample_text(Phase::Measurement, number, s) =~= "  iter   "@ + n + measured);
}

/// The summary of a case gives the median and the 95th percentile of both times and the rate, and
/// says so where there is none.
pub proof fn summaries_are_shown(s: SummaryStats, throughput: Seq<char>)
    ensures
        case_summary_text(None, throughput)
            == "  summary unavailable: no successful measured iterations"@,
        stands_in_text(
            "ttft median "@ + right_aligned(decimal(s.ttft_median_ms as nat), 5) + "ms p95 "@
                + right_aligned(decimal(s.ttft_p95_ms as nat), 5) + "ms | total median "@
                + right_aligned(decimal(s.duration_median_ms as nat), 5) + "ms p95 "@
                + right_aligned(decimal(s.duration_p95_ms as nat), 5) + "ms | throughput "@
                + right_aligned(throughput, 7) + " B/s"@,
            case_summary_text(Some(s), throughput),
        ),
{
    reveal_strlit("  summary ttft median ");
    reveal_strlit("  summary ");
    reveal_strlit("ttft median ");
    assert("  summary ttft median "@ =~= "  summary "@ + "ttft median "@);
    let shown = "ttft median "@ + right_aligned(decimal(s.ttft_median_ms as nat), 5) + "ms p95 "@
        + right_aligned(decimal(s.ttft_p95_ms as nat), 5) + "ms | total median "@ + right_aligned(
        decimal(s.duration_median_ms as nat),
        5,
    ) + "ms p95 "@ + right_aligned(decimal(s.duration_p95_ms as nat), 5) + "ms | throughput "@
        + right_aligned(throughput, 7) + " B/s"@;
    assert(case_summary_text(Some(s), throughput) =~= "  summary "@ + shown + Seq::<
        char,
    >::empty());
}

} // verus!
