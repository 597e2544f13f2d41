//! Reports: what they hold, how they are shown, and what they exit with.

use crate::json::{fields_view, JsonView};
use crate::model::{
    count_failed, count_passed, count_skipped, statuses, ConformanceSummary, MatrixReport, Moment,
    ResultView, StatusView, TestResult, TestStatus,
};
use crate::rpc::{InitializeResult, InitializeResultView};
use crate::text::{decimal, pad_right, padded, texts, u64_to_string, usize_to_string};
use crate::views::{group_views, views};
use vstd::prelude::*;

verus! {

broadcast use group_views;

// ---------------------------------------------------------------------------
// What a report holds
// ---------------------------------------------------------------------------

#[verifier::ext_equal]
pub struct ReportView {
    pub plugin_name: Seq<char>,
    pub plugin_version: Seq<char>,
    pub plugin_kind: Seq<char>,
    pub protocol_version: Seq<char>,
    pub started_at: Moment,
    pub finished_at: Moment,
    pub scenarios: Seq<ResultView>,
    pub summary: SummaryView,
    pub host: Map<Seq<char>, JsonView>,
}

#[verifier::ext_equal]
pub struct SummaryView {
    pub total: nat,
    pub passed: nat,
    pub failed: nat,
    pub skipped: nat,
}

impl View for ConformanceSummary {
    type V = SummaryView;

    open spec fn view(&self) -> SummaryView {
        SummaryView {
            total: self.total as nat,
            passed: self.passed as nat,
            failed: self.failed as nat,
            skipped: self.skipped as nat,
        }
    }
}

impl View for MatrixReport {
    type V = ReportView;

    open spec fn view(&self) -> ReportView {
        ReportView {
            plugin_name: self.plugin_name@,
            plugin_version: self.plugin_version@,
            plugin_kind: self.plugin_kind@,
            protocol_version: self.protocol_version@,
            started_at: self.started_at,
            finished_at: self.finished_at,
            scenarios: views(self.scenarios@),
            summary: self.summary@,
            host: fields_view(self.host@),
        }
    }
}

/// The statuses of a list of results.
pub open spec fn result_statuses(results: Seq<ResultView>) -> Seq<StatusView> {
    results.map_values(|r: ResultView| r.status)
}

/// The results of a report in numbers.
pub open spec fn summary_of(results: Seq<ResultView>) -> SummaryView {
    SummaryView {
        total: results.len(),
        passed: count_passed(result_statuses(results)),
        failed: count_failed(result_statuses(results)),
        skipped: count_skipped(result_statuses(results)),
    }
}

/// Whether a run passes as a whole: something ran, and nothing failed.
pub open spec fn passes(summary: SummaryView) -> bool {
    summary.failed == 0 && summary.total > 0
}

/// The report on a plugin.
pub open spec fn report_of(
    init: InitializeResultView,
    started_at: Moment,
    finished_at: Moment,
    results: Seq<ResultView>,
) -> ReportView {
    ReportView {
        plugin_name: init.plugin_info.name,
        plugin_version: init.plugin_info.version,
        plugin_kind: init.plugin_info.plugin_kind,
        protocol_version: init.protocol_version,
        started_at,
        finished_at,
        scenarios: results,
        summary: summary_of(results),
        host: Map::empty(),
    }
}

fn summarize(results: &Vec<TestResult>) -> (r: ConformanceSummary)
    ensures
        r@ == summary_of(views(results@)),
{
    assert(statuses(results@) =~= result_statuses(views(results@)));
    ConformanceSummary::from_results(results.as_slice())
}

/// Puts a report together.
pub fn build_report(
    init: &InitializeResult,
    started_at: Moment,
    finished_at: Moment,
    results: Vec<TestResult>,
) -> (r: MatrixReport)
    ensures
        r@ == report_of(init@, started_at, finished_at, views(results@)),
{
    let summary = summarize(&results);
    MatrixReport {
        plugin_name: init.plugin_info.name.clone(),
        plugin_version: init.plugin_info.version.clone(),
        plugin_kind: init.plugin_info.plugin_kind.clone(),
        protocol_version: init.protocol_version.clone(),
        started_at,
        finished_at,
        scenarios: results,
        summary,
        host: Vec::new(),
    }
}

/// The exit code of a conformance run: zero exactly where it passes as a whole.
pub fn exit_code(report: &MatrixReport) -> (r: u8)
    ensures
        r == if passes(summary_of(report@.scenarios)) {
            0u8
        } else {
            1u8
        },
{
    if summarize(&report.scenarios).overall_pass() {
        0
    } else {
        1
    }
}

/// A run passes as a whole exactly where there are results and none of them failed; skipped
/// scenarios do not count against it.
pub proof fn passes_iff_none_failed(results: Seq<ResultView>)
    ensures
        passes(summary_of(results)) == (results.len() > 0 && forall|i: int|
            0 <= i < results.len() ==> !((#[trigger] results[i]).status is Fail)),
{
    let list = result_statuses(results);
    crate::model::no_failure_counted(list);
    assert forall|i: int| 0 <= i < results.len() implies list[i] == (#[trigger] results[i]).status by {
    }
    if results.len() > 0 && !passes(summary_of(results)) {
        let i = choose|i: int| 0 <= i < list.len() && (#[trigger] list[i]) is Fail;
        assert(results[i].status is Fail);
    }
}

/// One line of a list of scenarios.
pub fn listing(name: &str, description: &str) -> (r: String)
    ensures
        r@ == name@ + "\t"@ + description@,
{
    let mut m = name.to_owned();
    m.append("\t");
    m.append(description);
    m
}

// ---------------------------------------------------------------------------
// How a report is shown
// ---------------------------------------------------------------------------

/// How a piece of text is set off.
#[derive(Debug, Clone, Copy, PartialEq, Eq, Structural)]
pub enum Tone {
    Plain,
    Bold,
    Dimmed,
    CyanBold,
    Green,
    GreenBold,
    Red,
    RedBold,
    Yellow,
    YellowBold,
}

/// A piece of a line.
#[derive(Debug, PartialEq, Eq)]
pub struct Span {
    pub text: String,
    pub tone: Tone,
}

impl View for Span {
    type V = (Seq<char>, Tone);

    open spec fn view(&self) -> (Seq<char>, Tone) {
        (self.text@, self.tone)
    }
}

/// A line of a report.
#[derive(Debug, PartialEq, Eq)]
pub struct Line {
    pub spans: Vec<Span>,
}

impl View for Line {
    type V = Seq<(Seq<char>, Tone)>;

    open spec fn view(&self) -> Seq<(Seq<char>, Tone)> {
        views(self.spans@)
    }
}

impl Line {
    /// The empty line.
    pub fn new() -> (r: Line)
        ensures
            r@ == Seq::<(Seq<char>, Tone)>::empty(),
    {
        Line { spans: Vec::new() }
    }

    /// The line with one more piece.
    pub fn add(self, text: &str, tone: Tone) -> (r: Line)
        ensures
            r@ == self@.push((text@, tone)),
    {
        let mut spans = self.spans;
        spans.push(Span { text: text.to_owned(), tone });
        Line { spans }
    }
}

/// The lines above the results.
pub open spec fn head_lines(report: ReportView) -> Seq<Seq<(Seq<char>, Tone)>> {
    seq![
        seq![],
        seq![
            ("==>"@, Tone::CyanBold),
            (" "@, Tone::Plain),
            ("conformance report:"@, Tone::Bold),
            (" "@, Tone::Plain),
            (report.plugin_name, Tone::Bold),
            (" "@, Tone::Plain),
            ("v"@ + report.plugin_version, Tone::Dimmed),
        ],
        seq![
            ("    "@, Tone::Plain),
            ("kind:"@, Tone::Dimmed),
            (" "@, Tone::Plain),
            (report.plugin_kind, Tone::Plain),
            ("   "@, Tone::Plain),
            ("protocol:"@, Tone::Dimmed),
            (" "@, Tone::Plain),
            (report.protocol_version, Tone::Plain),
        ],
        seq![],
    ]
}

fn show_head(report: &MatrixReport) -> (r: Vec<Line>)
    ensures
        views(r@) == head_lines(report@),
{
    let mut version = "v".to_owned();
    version.append(report.plugin_version.as_str());
    let mut lines: Vec<Line> = Vec::new();
    lines.push(Line::new());
    lines.push(
        Line::new().add("==>", Tone::CyanBold).add(" ", Tone::Plain).add(
            "conformance report:",
            Tone::Bold,
        ).add(" ", Tone::Plain).add(report.plugin_name.as_str(), Tone::Bold).add(
            " ",
            Tone::Plain,
        ).add(version.as_str(), Tone::Dimmed),
    );
    lines.push(
        Line::new().add("    ", Tone::Plain).add("kind:", Tone::Dimmed).add(" ", Tone::Plain).add(
            report.plugin_kind.as_str(),
            Tone::Plain,
        ).add("   ", Tone::Plain).add("protocol:", Tone::Dimmed).add(" ", Tone::Plain).add(
            report.protocol_version.as_str(),
            Tone::Plain,
        ),
    );
    lines.push(Line::new());
    assert(views(lines@) =~~= head_lines(report@));
    lines
}

/// How wide the names of scenarios are set.
pub const NAME_WIDTH: usize = 28;

/// The badge of a status, and the tones of the badge and of the name.
pub open spec fn badge(status: StatusView) -> (Seq<char>, Tone, Tone) {
    match status {
        StatusView::Pass => ("[PASS]"@, Tone::GreenBold, Tone::Plain),
        StatusView::Fail { .. } => ("[FAIL]"@, Tone::RedBold, Tone::RedBold),
        StatusView::Skip { .. } => ("[SKIP]"@, Tone::YellowBold, Tone::Yellow),
    }
}

/// A line below a result.
pub open spec fn detail(label: Seq<char>, tone: Tone, text: Seq<char>) -> Seq<(Seq<char>, Tone)> {
    seq![
        ("        "@, Tone::Plain),
        (label, tone),
        (" "@, Tone::Plain),
        (text, Tone::Plain),
    ]
}

fn show_detail(label: &str, tone: Tone, text: &str) -> (r: Line)
    ensures
        r@ == detail(label@, tone, text@),
{
    Line::new().add("        ", Tone::Plain).add(label, tone).add(" ", Tone::Plain).add(
        text,
        Tone::Plain,
    )
}

/// The lines of one result: its status, the reason where there is one, and its diagnostics.
pub open spec fn result_lines(r: ResultView) -> Seq<Seq<(Seq<char>, Tone)>> {
    let (mark, mark_tone, name_tone) = badge(r.status);
    let first = seq![
        ("  "@, Tone::Plain),
        (mark, mark_tone),
        ("  "@, Tone::Plain),
        (padded(r.scenario, NAME_WIDTH as nat), name_tone),
        ("  "@, Tone::Plain),
        (decimal(r.duration_ms as nat) + "ms"@, Tone::Dimmed),
    ];
    let reason = match r.status {
        StatusView::Fail { reason } => seq![detail("reason:"@, Tone::Red, reason)],
        StatusView::Skip { reason } => seq![detail("skip:"@, Tone::Yellow, reason)],
        StatusView::Pass => seq![],
    };
    seq![first] + reason + r.diagnostics.map_values(
        |d: Seq<char>| detail("note:"@, Tone::Dimmed, d),
    )
}

fn show_result(r: &TestResult, lines: &mut Vec<Line>)
    ensures
        views(final(lines)@) == views(old(lines)@) + result_lines(r@),
{
    let ghost before = views(lines@);
    let ghost notes = texts(r.diagnostics@).map_values(
        |d: Seq<char>| detail("note:"@, Tone::Dimmed, d),
    );
    let (mark, mark_tone, name_tone) = match &r.status {
        TestStatus::Pass => ("[PASS]", Tone::GreenBold, Tone::Plain),
        TestStatus::Fail { .. } => ("[FAIL]", Tone::RedBold, Tone::RedBold),
        TestStatus::Skip { .. } => ("[SKIP]", Tone::YellowBold, Tone::Yellow),
    };
    let mut took = u64_to_string(r.duration_ms);
    took.append("ms");
    let first = Line::new().add("  ", Tone::Plain).add(mark, mark_tone).add("  ", Tone::Plain).add(
        pad_right(r.scenario.as_str(), NAME_WIDTH).as_str(),
        name_tone,
    ).add("  ", Tone::Plain).add(took.as_str(), Tone::Dimmed);
    let ghost head = first@;
    lines.push(first);
    match &r.status {
        TestStatus::Fail { reason } => {
            lines.push(show_detail("reason:", Tone::Red, reason.as_str()));
        },
        TestStatus::Skip { reason } => {
            lines.push(show_detail("skip:", Tone::Yellow, reason.as_str()));
        },
        TestStatus::Pass => {},
    }
    let ghost shown = views(lines@);
    proof {
        let reason = match r@.status {
            StatusView::Fail { reason } => seq![detail("reason:"@, Tone::Red, reason)],
            StatusView::Skip { reason } => seq![detail("skip:"@, Tone::Yellow, reason)],
            StatusView::Pass => seq![],
        };
        assert(head =~= seq![
            ("  "@, Tone::Plain),
            (badge(r@.status).0, badge(r@.status).1),
            ("  "@, Tone::Plain),
            (padded(r@.scenario, NAME_WIDTH as nat), badge(r@.status).2),
            ("  "@, Tone::Plain),
            (decimal(r@.duration_ms as nat) + "ms"@, Tone::Dimmed),
        ]);
        assert(shown =~= before + seq![head] + reason);
        assert(before + result_lines(r@) =~= shown + notes);
    }
    let mut i: usize = 0;
    assert(shown =~= shown + notes.take(0));
    while i < r.diagnostics.len()
        invariant
            i <= r.diagnostics@.len(),
            notes == texts(r.diagnostics@).map_values(
                |d: Seq<char>| detail("note:"@, Tone::Dimmed, d),
            ),
            views(lines@) == shown + notes.take(i as int),
        decreases r.diagnostics@.len() - i,
    {
        assert(notes[i as int] == detail("note:"@, Tone::Dimmed, r.diagnostics@[i as int]@));
        assert(shown + notes.take(i + 1) =~= (shown + notes.take(i as int)).push(notes[i as int]));
        lines.push(show_detail("note:", Tone::Dimmed, r.diagnostics[i].as_str()));
        i += 1;
    }
    assert(notes.take(i as int) =~= notes);
}

/// The lines of all results.
pub open spec fn all_result_lines(results: Seq<ResultView>) -> Seq<Seq<(Seq<char>, Tone)>>
    decreases results.len(),
{
    if results.len() == 0 {
        Seq::empty()
    } else {
        all_result_lines(results.drop_last()) + result_lines(results.last())
    }
}

/// The lines below the results.
pub open spec fn foot_lines(summary: SummaryView) -> Seq<Seq<(Seq<char>, Tone)>> {
    seq![
        seq![],
        seq![
            ("summary:"@, Tone::Bold),
            (" total "@, Tone::Plain),
            (decimal(summary.total), Tone::Plain),
            ("   passed "@, Tone::Plain),
            (decimal(summary.passed), Tone::Green),
            ("   failed "@, Tone::Plain),
            (
                decimal(summary.failed),
                if summary.failed == 0 {
                    Tone::Dimmed
                } else {
                    Tone::RedBold
                },
            ),
            ("   skipped "@, Tone::Plain),
            (decimal(summary.skipped), Tone::Yellow),
        ],
        if passes(summary) {
            seq![("OVERALL: PASS"@, Tone::GreenBold)]
        } else {
            seq![("OVERALL: FAIL"@, Tone::RedBold)]
        },
    ]
}

fn show_foot(summary: &ConformanceSummary, lines: &mut Vec<Line>)
    ensures
        views(final(lines)@) == views(old(lines)@) + foot_lines(summary@),
{
    let ghost before = views(lines@);
    lines.push(Line::new());
    let failed_tone = if summary.failed == 0 {
        Tone::Dimmed
    } else {
        Tone::RedBold
    };
    lines.push(
        Line::new().add("summary:", Tone::Bold).add(" total ", Tone::Plain).add(
            usize_to_string(summary.total).as_str(),
            Tone::Plain,
        ).add("   passed ", Tone::Plain).add(
            usize_to_string(summary.passed).as_str(),
            Tone::Green,
        ).add("   failed ", Tone::Plain).add(
            usize_to_string(summary.failed).as_str(),
            failed_tone,
        ).add("   skipped ", Tone::Plain).add(
            usize_to_string(summary.skipped).as_str(),
            Tone::Yellow,
        ),
    );
    lines.push(
        if summary.overall_pass() {
            Line::new().add("OVERALL: PASS", Tone::GreenBold)
        } else {
            Line::new().add("OVERALL: FAIL", Tone::RedBold)
        },
    );
    assert(views(lines@) =~~= before + foot_lines(summary@));
}

/// A report as lines.
pub open spec fn report_lines(report: ReportView) -> Seq<Seq<(Seq<char>, Tone)>> {
    head_lines(report) + all_result_lines(report.scenarios) + foot_lines(
        summary_of(report.scenarios),
    )
}

/// Lays a report out in lines. The numbers are counted from the results.
pub fn print(report: &MatrixReport) -> (r: Vec<Line>)
    ensures
        views(r@) == report_lines(report@),
{
    let ghost results = views(report.scenarios@);
    let mut lines = show_head(report);
    let mut i: usize = 0;
    assert(results.take(0) =~= Seq::<ResultView>::empty());
    assert(views(lines@) =~= head_lines(report@) + all_result_lines(results.take(0)));
    while i < report.scenarios.len()
        invariant
            i <= report.scenarios@.len(),
            results == views(report.scenarios@),
            views(lines@) == head_lines(report@) + all_result_lines(results.take(i as int)),
        decreases report.scenarios@.len() - i,
    {
        assert(results[i as int] == report.scenarios@[i as int]@);
        assert(results.take(i + 1).drop_last() =~= results.take(i as int));
        show_result(&report.scenarios[i], &mut lines);
        assert(views(lines@) =~= head_lines(report@) + all_result_lines(results.take(i + 1)));
        i += 1;
    }
    assert(results.take(i as int) =~= results);
    let summary = summarize(&report.scenarios);
    show_foot(&summary, &mut lines);
    lines
}

// ---------------------------------------------------------------------------
// Laws
// ---------------------------------------------------------------------------

/// Whether a line has a piece with a given text.
pub open spec fn shows(line: Seq<(Seq<char>, Tone)>, text: Seq<char>) -> bool {
    exists|i: int| 0 <= i < line.len() && (#[trigger] line[i]).0 == text
}

/// Whether one of the lines has two pieces with given texts.
pub open spec fn a_line_shows(lines: Seq<Seq<(Seq<char>, Tone)>>, a: Seq<char>, b: Seq<char>) -> bool {
    exists|i: int| 0 <= i < lines.len() && shows(#[trigger] lines[i], a) && shows(lines[i], b)
}

/// Whether the lines show a result: its name behind its badge, how long it took, why it failed or
/// was skipped, and each of its notes.
pub open spec fn shows_result(lines: Seq<Seq<(Seq<char>, Tone)>>, r: ResultView) -> bool {
    let name = padded(r.scenario, 28);
    &&& a_line_shows(lines, name, decimal(r.duration_ms as nat) + "ms"@)
    &&& match r.status {
        StatusView::Pass => a_line_shows(lines, "[PASS]"@, name),
        StatusView::Fail { reason } => a_line_shows(lines, "[FAIL]"@, name) && a_line_shows(
            lines,
            "reason:"@,
            reason,
        ),
        StatusView::Skip { reason } => a_line_shows(lines, "[SKIP]"@, name) && a_line_shows(
            lines,
            "skip:"@,
            reason,
        ),
    }
    &&& forall|k: int|
        0 <= k < r.diagnostics.len() ==> a_line_shows(lines, "note:"@, #[trigger] r.diagnostics[k])
}

proof fn detail_shows(label: Seq<char>, tone: Tone, text: Seq<char>)
    ensures
        shows(detail(label, tone, text), label),
        shows(detail(label, tone, text), text),
{
    let line = detail(label, tone, text);
    assert(line[1].0 == label);
    assert(line[3].0 == text);
}

proof fn result_lines_show(r: ResultView)
    ensures
        shows_result(result_lines(r), r),
{
    let lines = result_lines(r);
    let name = padded(r.scenario, 28);
    let first = lines[0];
    assert(first[1].0 == badge(r.status).0);
    assert(first[3].0 == name);
    assert(first[5].0 == decimal(r.duration_ms as nat) + "ms"@);
    assert(shows(lines[0], name));
    assert(shows(lines[0], badge(r.status).0));
    let notes = r.diagnostics.map_values(|d: Seq<char>| detail("note:"@, Tone::Dimmed, d));
    let above = lines.len() - notes.len();
    match r.status {
        StatusView::Fail { reason } => {
            detail_shows("reason:"@, Tone::Red, reason);
            assert(lines[1] == detail("reason:"@, Tone::Red, reason));
        },
        StatusView::Skip { reason } => {
            detail_shows("skip:"@, Tone::Yellow, reason);
            assert(lines[1] == detail("skip:"@, Tone::Yellow, reason));
        },
        StatusView::Pass => {},
    }
    assert forall|k: int| 0 <= k < r.diagnostics.len() implies a_line_shows(
        lines,
        "note:"@,
        #[trigger] r.diagnostics[k],
    ) by {
        detail_shows("note:"@, Tone::Dimmed, r.diagnostics[k]);
        assert(notes[k] == detail("note:"@, Tone::Dimmed, r.diagnostics[k]));
        assert(lines[above + k] == notes[k]);
    }
}

/// Whatever some lines show is shown where they stand among others.
proof fn more_lines_show(
    before: Seq<Seq<(Seq<char>, Tone)>>,
    lines: Seq<Seq<(Seq<char>, Tone)>>,
    behind: Seq<Seq<(Seq<char>, Tone)>>,
    r: ResultView,
)
    requires
        shows_result(lines, r),
    ensures
        shows_result(before + lines + behind, r),
{
    let all = before + lines + behind;
    assert forall|a: Seq<char>, b: Seq<char>| #[trigger] a_line_shows(lines, a, b) implies a_line_shows(
        all,
        a,
        b,
    ) by {
        let i = choose|i: int|
            0 <= i < lines.len() && shows(#[trigger] lines[i], a) && shows(lines[i], b);
        assert(all[before.len() + i] == lines[i]);
    }
    assert forall|k: int| 0 <= k < r.diagnostics.len() implies a_line_shows(
        all,
        "note:"@,
        #[trigger] r.diagnostics[k],
    ) by {
        assert(a_line_shows(lines, "note:"@, r.diagnostics[k]));
    }
}

proof fn all_lines_show(results: Seq<ResultView>, i: int)
    requires
        0 <= i < results.len(),
    ensures
        shows_result(all_result_lines(results), results[i]),
    decreases results.len(),
{
    let none = Seq::<Seq<(Seq<char>, Tone)>>::empty();
    let head = all_result_lines(results.drop_last());
    let last = result_lines(results.last());
    if i == results.len() - 1 {
        result_lines_show(results.last());
        more_lines_show(head, last, none, results[i]);
        assert(head + last + none =~= head + last);
    } else {
        all_lines_show(results.drop_last(), i);
        more_lines_show(none, head, last, results[i]);
        assert(none + head + last =~= head + last);
    }
}

/// A printed report shows every result, whatever came of it.
pub proof fn every_result_is_shown(report: ReportView, i: int)
    requires
        0 <= i < report.scenarios.len(),
    ensures
        shows_result(report_lines(report), report.scenarios[i]),
{
    all_lines_show(report.scenarios, i);
    more_lines_show(
        head_lines(report),
        all_result_lines(report.scenarios),
        foot_lines(summary_of(report.scenarios)),
        report.scenarios[i],
    );
}

/// A printed report names the plugin with its kind and its protocol above the results, and gives the
/// numbers and the verdict below: it passes exactly where there are results and none failed.
pub proof fn reports_are_framed(report: ReportView)
    ensures
        ({
            let lines = report_lines(report);
            let results = report.scenarios;
            let numbers = lines[lines.len() - 2];
            let verdict = lines.last();
            &&& lines.len() >= 7
            &&& shows(lines[1], report.plugin_name)
            &&& shows(lines[1], "v"@ + report.plugin_version)
            &&& shows(lines[2], report.plugin_kind)
            &&& shows(lines[2], report.protocol_version)
            &&& numbers[2].0 == decimal(results.len())
            &&& numbers[4].0 == decimal(count_passed(result_statuses(results)))
            &&& numbers[6].0 == decimal(count_failed(result_statuses(results)))
            &&& numbers[8].0 == decimal(count_skipped(result_statuses(results)))
            &&& shows(verdict, "OVERALL: PASS"@) == (results.len() > 0 && forall|i: int|
                0 <= i < results.len() ==> !((#[trigger] results[i]).status is Fail))
            &&& shows(verdict, "OVERALL: PASS"@) != shows(verdict, "OVERALL: FAIL"@)
        }),
{
    let lines = report_lines(report);
    let head = head_lines(report);
    let foot = foot_lines(summary_of(report.scenarios));
    let body = all_result_lines(report.scenarios);
    passes_iff_none_failed(report.scenarios);
    assert(lines[1] == head[1] && lines[2] == head[2]);
    assert(head[1][4].0 == report.plugin_name);
    assert(head[1][6].0 == "v"@ + report.plugin_version);
    assert(head[2][3].0 == report.plugin_kind);
    assert(head[2][7].0 == report.protocol_version);
    let n = (head + body).len() as int;
    assert(lines[n + 1] == foot[1] && lines[n + 2] == foot[2]);
    reveal_strlit("OVERALL: PASS");
    reveal_strlit("OVERALL: FAIL");
    assert("OVERALL: PASS"@[9] != "OVERALL: FAIL"@[9]);
    let verdict = lines.last();
    assert(verdict.len() == 1);
    assert(verdict[0].0 == "OVERALL: PASS"@ || verdict[0].0 == "OVERALL: FAIL"@);
}

} // verus!
