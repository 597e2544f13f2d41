//! A conformance run as a whole: what it has to report on, and the results so far.

use crate::model::{
    count_failed, count_passed, count_skipped, counts_add_up, MatrixReport, Moment, ResultView,
    TestResult, TestScenario,
};
use crate::report::{build_report, passes, report_of, result_statuses, summary_of, ReportView};
use crate::rpc::{InitializeResult, InitializeResultView};
use crate::text::{group_texts, texts};
use crate::views::{group_views, views};
use vstd::prelude::*;

verus! {

broadcast use {group_views, group_texts};

/// The names under which results stand.
pub open spec fn result_names(results: Seq<ResultView>) -> Seq<Seq<char>> {
    results.map_values(|r: ResultView| r.scenario)
}

/// The names of checks.
pub open spec fn check_names(checks: Seq<(Seq<char>, Seq<char>)>) -> Seq<Seq<char>> {
    checks.map_values(|c: (Seq<char>, Seq<char>)| c.0)
}

/// A result under another name.
pub open spec fn renamed(r: ResultView, name: Seq<char>) -> ResultView {
    ResultView { scenario: name, ..r }
}

/// A conformance run against a plugin that has introduced itself.
#[derive(Debug, PartialEq)]
pub struct Conformance {
    init: InitializeResult,
    names: Vec<String>,
    results: Vec<TestResult>,
}

/// What a conformance run holds: how the plugin introduced itself, the names to report on, and the
/// results of the first of them.
#[verifier::ext_equal]
pub struct ConformanceView {
    pub init: InitializeResultView,
    pub names: Seq<Seq<char>>,
    pub results: Seq<ResultView>,
}

impl View for Conformance {
    type V = ConformanceView;

    closed spec fn view(&self) -> ConformanceView {
        ConformanceView {
            init: self.init@,
            names: texts(self.names@),
            results: views(self.results@),
        }
    }
}

impl ConformanceView {
    /// A run without results.
    pub open spec fn fresh(init: InitializeResultView, names: Seq<Seq<char>>) -> ConformanceView {
        ConformanceView { init, names, results: Seq::empty() }
    }

    /// Whether the results stand under the first names, one under each.
    pub open spec fn valid(self) -> bool {
        result_names(self.results).is_prefix_of(self.names)
    }

    /// Whether every name has its result.
    pub open spec fn complete(self) -> bool {
        self.results.len() >= self.names.len()
    }

    /// The run with one more result, under the name whose turn it is. There is none once every
    /// name has its result.
    pub open spec fn with(self, r: ResultView) -> ConformanceView {
        if self.complete() {
            self
        } else {
            ConformanceView {
                results: self.results.push(renamed(r, self.names[self.results.len() as int])),
                ..self
            }
        }
    }

    /// The run with the given results, one after another.
    pub open spec fn with_all(self, outcomes: Seq<ResultView>) -> ConformanceView
        decreases outcomes.len(),
    {
        if outcomes.len() == 0 {
            self
        } else {
            self.with_all(outcomes.drop_last()).with(outcomes.last())
        }
    }

    /// The report on the run.
    pub open spec fn report(self, started_at: Moment, finished_at: Moment) -> ReportView {
        report_of(self.init, started_at, finished_at, self.results)
    }
}

impl Conformance {
    /// Begins a run where the plugin could be asked to introduce itself. Where it could not, the
    /// run ends with that error and nothing is reported on.
    pub fn begin<E>(probe: Result<InitializeResult, E>, names: Vec<String>) -> (r: Result<
        Conformance,
        E,
    >)
        ensures
            match probe {
                Ok(init) => r is Ok && r->Ok_0@ == ConformanceView::fresh(init@, texts(names@))
                    && r->Ok_0@.valid(),
                Err(e) => r == Err::<Conformance, E>(e),
            },
    {
        match probe {
            Ok(init) => {
                let c = Conformance { init, names, results: Vec::new() };
                assert(result_names(c@.results) =~= Seq::empty());
                Ok(c)
            },
            Err(e) => Err(e),
        }
    }

    /// Begins a run of the checks of a suite.
    pub fn of_checks<E>(probe: Result<InitializeResult, E>, checks: &Vec<TestScenario>) -> (r:
        Result<Conformance, E>)
        ensures
            match probe {
                Ok(init) => r is Ok && r->Ok_0@ == ConformanceView::fresh(
                    init@,
                    check_names(views(checks@)),
                ) && r->Ok_0@.valid(),
                Err(e) => r == Err::<Conformance, E>(e),
            },
    {
        let ghost all = check_names(views(checks@));
        let mut names: Vec<String> = Vec::new();
        let mut i: usize = 0;
        assert(all.take(0) =~= texts(names@));
        while i < checks.len()
            invariant
                i <= checks@.len(),
                all == check_names(views(checks@)),
                texts(names@) == all.take(i as int),
            decreases checks@.len() - i,
        {
            assert(all.take(i + 1) =~= all.take(i as int).push(checks@[i as int].name@));
            names.push(checks[i].name.to_owned());
            i += 1;
        }
        assert(all.take(i as int) =~= all);
        Conformance::begin(probe, names)
    }

    /// How the plugin introduced itself.
    pub fn init(&self) -> (r: &InitializeResult)
        ensures
            r@ == self@.init,
    {
        &self.init
    }

    /// How many results there are.
    pub fn recorded(&self) -> (r: usize)
        ensures
            r == self@.results.len(),
    {
        self.results.len()
    }

    /// The name whose turn it is, if any is left.
    pub fn next(&self) -> (r: Option<&str>)
        ensures
            match r {
                Some(name) => !self@.complete() && name@
                    == self@.names[self@.results.len() as int],
                None => self@.complete(),
            },
    {
        if self.results.len() < self.names.len() {
            Some(self.names[self.results.len()].as_str())
        } else {
            None
        }
    }

    /// Records a result under the name whose turn it is.
    pub fn record(&mut self, result: TestResult)
        ensures
            final(self)@ == old(self)@.with(result@),
            old(self)@.valid() ==> final(self)@.valid(),
    {
        let k: usize = self.results.len();
        proof {
            valid_with(self@, result@);
        }
        if k < self.names.len() {
            self.results.push(TestResult { scenario: self.names[k].clone(), ..result });
        }
    }

    /// The report, once every name has its result: the results stand under exactly the names, in
    /// their order.
    pub fn finish(self, started_at: Moment, finished_at: Moment) -> (r: Option<MatrixReport>)
        requires
            self@.valid(),
        ensures
            match r {
                Some(report) => {
                    &&& self@.complete()
                    &&& report@ == self@.report(started_at, finished_at)
                    &&& result_names(report@.scenarios) == self@.names
                    &&& report@.summary == summary_of(report@.scenarios)
                },
                None => !self@.complete(),
            },
    {
        if self.results.len() < self.names.len() {
            None
        } else {
            assert(result_names(self@.results) =~= self@.names);
            Some(build_report(&self.init, started_at, finished_at, self.results))
        }
    }
}

proof fn valid_with(c: ConformanceView, r: ResultView)
    ensures
        c.valid() ==> c.with(r).valid(),
{
    if c.valid() && !c.complete() {
        let name = c.names[c.results.len() as int];
        assert(result_names(c.with(r).results) =~= result_names(c.results).push(name));
    }
}

/// Recording results one after another gives each of the first names the result that came in its
/// turn.
proof fn with_all_so_far(
    init: InitializeResultView,
    names: Seq<Seq<char>>,
    outcomes: Seq<ResultView>,
)
    requires
        outcomes.len() <= names.len(),
    ensures
        ({
            let c = ConformanceView::fresh(init, names).with_all(outcomes);
            &&& c.init == init
            &&& c.names == names
            &&& c.results.len() == outcomes.len()
            &&& forall|i: int|
                0 <= i < outcomes.len() ==> #[trigger] c.results[i] == renamed(
                    outcomes[i],
                    names[i],
                )
        }),
    decreases outcomes.len(),
{
    if outcomes.len() > 0 {
        with_all_so_far(init, names, outcomes.drop_last());
    }
}

/// A conformance run whose results are all in reports on each name once, in order, with the result
/// that came in its turn. The summary counts these results. A run with nothing to report on does
/// not pass.
pub proof fn each_name_is_reported_once(
    init: InitializeResultView,
    names: Seq<Seq<char>>,
    outcomes: Seq<ResultView>,
    started_at: Moment,
    finished_at: Moment,
)
    requires
        outcomes.len() == names.len(),
    ensures
        ({
            let c = ConformanceView::fresh(init, names).with_all(outcomes);
            let report = c.report(started_at, finished_at);
            &&& c.valid()
            &&& c.complete()
            &&& result_names(report.scenarios) == names
            &&& forall|i: int|
                0 <= i < names.len() ==> #[trigger] report.scenarios[i] == renamed(
                    outcomes[i],
                    names[i],
                )
            &&& report.summary == summary_of(report.scenarios)
            &&& names.len() == 0 ==> !passes(report.summary)
        }),
{
    with_all_so_far(init, names, outcomes);
    let c = ConformanceView::fresh(init, names).with_all(outcomes);
    assert(result_names(c.results) =~= names);
}

/// A result is reported as it came: its status, its time, what was logged and answered and what was
/// noted are those of the outcome, and only its name is that of its turn. What comes when every name
/// has its result is not reported.
pub proof fn results_are_reported_as_they_came(c: ConformanceView, r: ResultView)
    ensures
        c.results.len() < c.names.len() ==> {
            let after = c.with(r);
            let kept = after.results.last();
            &&& after.init == c.init
            &&& after.names == c.names
            &&& after.results.len() == c.results.len() + 1
            &&& forall|i: int| 0 <= i < c.results.len() ==> after.results[i] == c.results[i]
            &&& kept.scenario == c.names[c.results.len() as int]
            &&& kept.status == r.status
            &&& kept.duration_ms == r.duration_ms
            &&& kept.notification_log == r.notification_log
            &&& kept.response == r.response
            &&& kept.diagnostics == r.diagnostics
        },
        c.results.len() >= c.names.len() ==> c.with(r) == c,
{
}

/// The report names the plugin as it introduced itself, and counts the results: how many there are,
/// and how many of them passed, failed and were skipped, which add up.
pub proof fn reports_introduce_the_plugin(
    c: ConformanceView,
    started_at: Moment,
    finished_at: Moment,
)
    ensures
        ({
            let report = c.report(started_at, finished_at);
            &&& report.plugin_name == c.init.plugin_info.name
            &&& report.plugin_version == c.init.plugin_info.version
            &&& report.plugin_kind == c.init.plugin_info.plugin_kind
            &&& report.protocol_version == c.init.protocol_version
            &&& report.started_at == started_at
            &&& report.finished_at == finished_at
            &&& report.scenarios == c.results
            &&& report.summary.total == c.results.len()
            &&& report.summary.passed + report.summary.failed + report.summary.skipped
                == report.summary.total
            &&& report.summary.passed == c.results.filter(
                |r: ResultView| r.status is Pass,
            ).len()
            &&& report.summary.failed == c.results.filter(
                |r: ResultView| r.status is Fail,
            ).len()
            &&& report.summary.skipped == c.results.filter(
                |r: ResultView| r.status is Skip,
            ).len()
        }),
{
    counts_are_of_results(c.results);
    counts_add_up(result_statuses(c.results));
}

proof fn counts_are_of_results(results: Seq<ResultView>)
    ensures
        count_passed(result_statuses(results)) == results.filter(
            |r: ResultView| r.status is Pass,
        ).len(),
        count_failed(result_statuses(results)) == results.filter(
            |r: ResultView| r.status is Fail,
        ).len(),
        count_skipped(result_statuses(results)) == results.filter(
            |r: ResultView| r.status is Skip,
        ).len(),
    decreases results.len(),
{
    reveal(Seq::filter);
    if results.len() > 0 {
        counts_are_of_results(results.drop_last());
        assert(result_statuses(results).drop_last() =~= result_statuses(results.drop_last()));
        assert(result_statuses(results).last() == results.last().status);
    }
}

} // verus!
