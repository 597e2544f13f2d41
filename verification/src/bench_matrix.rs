//! The benchmark as a whole: every plugin on every scenario with every model.

use crate::bench::{
    cell_after, cell_index, cells_in_order, first_cell, next_cell, resolve_scenarios, resolved,
    BenchOptions, Cell,
};
use crate::bench_report::{BenchCaseReport, CaseView};
use crate::text::{clone_strings, group_texts, texts};
use crate::views::{group_views, views};
use vstd::arithmetic::div_mod::lemma_fundamental_div_mod_converse;
use vstd::prelude::*;

verus! {

broadcast use {group_views, group_texts};

/// A cell by the path of its plugin, its scenario and its model.
pub type CellNames = (Seq<char>, Seq<char>, Seq<char>);

/// The benchmark under way: its cells, and the cases of the first of them.
#[verifier::ext_equal]
pub struct MatrixView {
    pub plugins: Seq<Seq<char>>,
    pub scenarios: Seq<Seq<char>>,
    pub models: Seq<Seq<char>>,
    pub fail_fast: bool,
    pub cases: Seq<CaseView>,
}

/// The cell that a case is about.
pub open spec fn case_cell(c: CaseView) -> CellNames {
    (c.plugin_path, c.scenario, c.model)
}

/// The cells that cases are about.
pub open spec fn case_cells(cases: Seq<CaseView>) -> Seq<CellNames> {
    cases.map_values(|c: CaseView| case_cell(c))
}

impl MatrixView {
    /// How many cells there are.
    pub open spec fn size(self) -> nat {
        self.plugins.len() * self.scenarios.len() * self.models.len()
    }

    /// The cells, in the order in which they are run: models change fastest, plugins slowest.
    pub open spec fn cells(self) -> Seq<CellNames> {
        Seq::new(
            self.size(),
            |i: int|
                {
                    let row = i / self.models.len() as int;
                    (
                        self.plugins[row / self.scenarios.len() as int],
                        self.scenarios[row % self.scenarios.len() as int],
                        self.models[i % self.models.len() as int],
                    )
                },
        )
    }

    /// Whether nothing is left to run: every cell has its case, or the last case failed and the
    /// benchmark is to be left at a failure.
    pub open spec fn over(self) -> bool {
        ||| self.cases.len() >= self.size()
        ||| self.fail_fast && self.cases.len() > 0 && self.cases.last().has_failures()
    }

    /// Whether the cases are those of the first cells, one of each, and, where the benchmark is to
    /// be left at a failure, none but the last of them failed.
    pub open spec fn valid(self) -> bool {
        &&& self.cases.len() <= self.size()
        &&& case_cells(self.cases) == self.cells().take(self.cases.len() as int)
        &&& self.fail_fast ==> forall|i: int|
            0 <= i < self.cases.len() - 1 ==> !(#[trigger] self.cases[i]).has_failures()
    }

    /// The benchmark with one more case, which is put down to the cell whose turn it is. There is
    /// none once nothing is left to run.
    pub open spec fn with(self, c: CaseView) -> MatrixView {
        if self.over() {
            self
        } else {
            let (plugin_path, scenario, model) = self.cells()[self.cases.len() as int];
            MatrixView {
                cases: self.cases.push(CaseView { plugin_path, scenario, model, ..c }),
                ..self
            }
        }
    }

    /// The benchmark with the given cases, one after another.
    pub open spec fn with_all(self, outcomes: Seq<CaseView>) -> MatrixView
        decreases outcomes.len(),
    {
        if outcomes.len() == 0 {
            self
        } else {
            self.with_all(outcomes.drop_last()).with(outcomes.last())
        }
    }
}

/// What a benchmark that is over has run: every cell, or, where it is left at a failure, the cells
/// up to the first case that failed.
pub open spec fn ran_as_asked(st: MatrixView) -> bool {
    ||| case_cells(st.cases) == st.cells()
    ||| {
        &&& st.fail_fast
        &&& st.cases.len() > 0
        &&& st.cases.last().has_failures()
        &&& case_cells(st.cases) == st.cells().take(st.cases.len() as int)
        &&& forall|i: int|
            0 <= i < st.cases.len() - 1 ==> !(#[trigger] st.cases[i]).has_failures()
    }
}

/// Every case keeps the benchmark valid.
proof fn with_stays_valid(st: MatrixView, c: CaseView)
    requires
        st.valid(),
    ensures
        st.with(c).valid(),
{
    if !st.over() {
        let after = st.with(c);
        let k = st.cases.len() as int;
        assert(after.cells() == st.cells());
        assert(case_cells(after.cases) =~= case_cells(st.cases).push(st.cells()[k]));
        assert(st.cells().take(k + 1) =~= st.cells().take(k).push(st.cells()[k]));
        assert forall|i: int| st.fail_fast && 0 <= i < k implies !(
        #[trigger] after.cases[i]).has_failures() by {
            assert(after.cases[i] == st.cases[i]);
        }
    }
}

proof fn over_means(st: MatrixView)
    requires
        st.valid(),
        st.over(),
    ensures
        ran_as_asked(st),
{
    if st.cases.len() >= st.size() {
        assert(st.cells().take(st.cases.len() as int) =~= st.cells());
    }
}

/// Whatever comes of the cases, the benchmark runs the cells in their order, each at most once. When
/// it is over it has run every cell, unless it is left at a failure: it has then run the cells up to
/// the first case that failed, and none after that.
pub proof fn cells_are_run_in_order(
    plugins: Seq<Seq<char>>,
    scenarios: Seq<Seq<char>>,
    models: Seq<Seq<char>>,
    fail_fast: bool,
    outcomes: Seq<CaseView>,
)
    ensures
        ({
            let fresh = MatrixView { plugins, scenarios, models, fail_fast, cases: Seq::empty() };
            let st = fresh.with_all(outcomes);
            &&& st.valid()
            &&& st.cells() == fresh.cells()
            &&& st.fail_fast == fail_fast
            &&& st.over() ==> ran_as_asked(st)
            &&& !fail_fast && outcomes.len() >= fresh.size() ==> case_cells(st.cases)
                == fresh.cells()
        }),
    decreases outcomes.len(),
{
    let fresh = MatrixView { plugins, scenarios, models, fail_fast, cases: Seq::empty() };
    if outcomes.len() == 0 {
        assert(case_cells(fresh.cases) =~= fresh.cells().take(0));
    } else {
        cells_are_run_in_order(plugins, scenarios, models, fail_fast, outcomes.drop_last());
        with_stays_valid(fresh.with_all(outcomes.drop_last()), outcomes.last());
    }
    let st = fresh.with_all(outcomes);
    counts_so_far(fresh, outcomes);
    if st.over() {
        over_means(st);
    }
    if !fail_fast && outcomes.len() >= fresh.size() {
        assert(st.cases.len() >= st.size());
        assert(st.cells().take(st.cases.len() as int) =~= st.cells());
    }
}

/// What recording cases leaves as it was, and how many cases there are where none can end the
/// benchmark early.
proof fn counts_so_far(st: MatrixView, outcomes: Seq<CaseView>)
    requires
        st.cases.len() == 0,
    ensures
        ({
            let after = st.with_all(outcomes);
            &&& after.plugins == st.plugins
            &&& after.scenarios == st.scenarios
            &&& after.models == st.models
            &&& after.fail_fast == st.fail_fast
            &&& after.size() == st.size()
            &&& after.cells() == st.cells()
            &&& !st.fail_fast ==> after.cases.len() == if outcomes.len() < st.size() {
                outcomes.len()
            } else {
                st.size()
            }
        }),
    decreases outcomes.len(),
{
    if outcomes.len() > 0 {
        counts_so_far(st, outcomes.drop_last());
    }
}

// ---------------------------------------------------------------------------
// Positions
// ---------------------------------------------------------------------------

/// The cell at a position has the names at that position.
proof fn cell_at(st: MatrixView, c: Cell)
    requires
        c.plugin < st.plugins.len(),
        c.scenario < st.scenarios.len(),
        c.model < st.models.len(),
    ensures
        ({
            let i = cell_index(
                c.plugin as int,
                c.scenario as int,
                c.model as int,
                st.scenarios.len() as int,
                st.models.len() as int,
            );
            &&& 0 <= i < st.size()
            &&& st.cells()[i] == (
                st.plugins[c.plugin as int],
                st.scenarios[c.scenario as int],
                st.models[c.model as int],
            )
        }),
{
    let (p, s, m) = (c.plugin as int, c.scenario as int, c.model as int);
    let (plugins, scenarios, models) = (
        st.plugins.len() as int,
        st.scenarios.len() as int,
        st.models.len() as int,
    );
    let row = p * scenarios + s;
    let i = row * models + m;
    lemma_fundamental_div_mod_converse(i, models, row, m);
    lemma_fundamental_div_mod_converse(row, scenarios, p, s);
    assert(0 <= row < plugins * scenarios) by (nonlinear_arith)
        requires
            row == p * scenarios + s,
            0 <= p < plugins,
            0 <= s < scenarios,
    ;
    let rows = plugins * scenarios;
    assert(0 <= i < rows * models) by (nonlinear_arith)
        requires
            i == row * models + m,
            0 <= row < rows,
            0 <= m < models,
    ;
}

/// The benchmark under way.
#[derive(Debug, PartialEq)]
pub struct BenchMatrix {
    plugins: Vec<String>,
    scenarios: Vec<String>,
    models: Vec<String>,
    fail_fast: bool,
    at: Option<Cell>,
    cases: Vec<BenchCaseReport>,
}

impl View for BenchMatrix {
    type V = MatrixView;

    closed spec fn view(&self) -> MatrixView {
        MatrixView {
            plugins: texts(self.plugins@),
            scenarios: texts(self.scenarios@),
            models: texts(self.models@),
            fail_fast: self.fail_fast,
            cases: views(self.cases@),
        }
    }
}

impl BenchMatrix {
    /// Whether the benchmark is valid and stands at the cell whose turn it is.
    pub closed spec fn well_formed(&self) -> bool {
        &&& self@.valid()
        &&& match self.at {
            Some(c) => {
                &&& c.plugin < self.plugins@.len()
                &&& c.scenario < self.scenarios@.len()
                &&& c.model < self.models@.len()
                &&& !self@.over()
                &&& self@.cases.len() == cell_index(
                    c.plugin as int,
                    c.scenario as int,
                    c.model as int,
                    self.scenarios@.len() as int,
                    self.models@.len() as int,
                )
            },
            None => self@.over(),
        }
    }

    /// Begins the benchmark that is asked for.
    pub fn begin(options: &BenchOptions) -> (r: BenchMatrix)
        ensures
            r.well_formed(),
            r@.valid(),
            r@ == (MatrixView {
                plugins: texts(options.plugin@),
                scenarios: resolved(texts(options.scenarios@), options.suite),
                models: texts(options.models@),
                fail_fast: options.fail_fast,
                cases: Seq::empty(),
            }),
    {
        let plugins = clone_strings(&options.plugin);
        let scenarios = resolve_scenarios(options);
        let models = clone_strings(&options.models);
        let at = first_cell(plugins.len(), scenarios.len(), models.len());
        let r = BenchMatrix {
            plugins,
            scenarios,
            models,
            fail_fast: options.fail_fast,
            at,
            cases: Vec::new(),
        };
        proof {
            let st = r@;
            assert(case_cells(st.cases) =~= st.cells().take(0));
            match at {
                Some(c) => {
                    cell_at(st, c);
                    let (scenarios, models) = (st.scenarios.len() as int, st.models.len() as int);
                    assert(cell_index(0, 0, 0, scenarios, models) == 0) by (nonlinear_arith);
                },
                None => {
                    let (a, b, c) = (
                        st.plugins.len() as int,
                        st.scenarios.len() as int,
                        st.models.len() as int,
                    );
                    assert(a * b * c == 0) by (nonlinear_arith)
                        requires
                            a == 0 || b == 0 || c == 0,
                    ;
                },
            }
        }
        r
    }

    /// How many scenarios are run with each plugin and model.
    pub fn scenario_count(&self) -> (r: usize)
        ensures
            r == self@.scenarios.len(),
    {
        self.scenarios.len()
    }

    /// The cell whose turn it is, by the path of its plugin, its scenario and its model.
    pub fn next(&self) -> (r: Option<(&str, &str, &str)>)
        requires
            self.well_formed(),
        ensures
            match r {
                Some((plugin, scenario, model)) => !self@.over() && (plugin@, scenario@, model@)
                    == self@.cells()[self@.cases.len() as int],
                None => self@.over(),
            },
    {
        match self.at {
            None => None,
            Some(c) => {
                proof {
                    cell_at(self@, c);
                }
                Some(
                    (
                        self.plugins[c.plugin].as_str(),
                        self.scenarios[c.scenario].as_str(),
                        self.models[c.model].as_str(),
                    ),
                )
            },
        }
    }

    /// Records the case of the cell whose turn it is.
    pub fn record(&mut self, case: BenchCaseReport)
        requires
            old(self).well_formed(),
        ensures
            final(self).well_formed(),
            final(self)@.valid(),
            final(self)@ == old(self)@.with(case@),
    {
        let ghost before = self@;
        proof {
            with_stays_valid(before, case@);
        }
        if let Some(c) = self.at {
            proof {
                cell_at(before, c);
            }
            let placed = BenchCaseReport {
                plugin_path: self.plugins[c.plugin].clone(),
                scenario: self.scenarios[c.scenario].clone(),
                model: self.models[c.model].clone(),
                ..case
            };
            let failed = placed.has_failures();
            let (plugins, scenarios, models): (usize, usize, usize) = (
                self.plugins.len(),
                self.scenarios.len(),
                self.models.len(),
            );
            let next = next_cell(c, plugins, scenarios, models, failed, self.fail_fast);
            proof {
                cells_in_order(c, scenarios as int, models as int);
                match next {
                    Some(n) => cell_at(before, n),
                    None => {
                        let (p, s, m) = cell_after(c, scenarios as int, models as int);
                        if !(failed && before.fail_fast) {
                            assert(p == plugins && s == 0 && m == 0);
                            let rows = plugins * scenarios;
                            assert((rows + 0) * models + 0 == rows * models);
                        }
                    },
                }
            }
            self.cases.push(placed);
            self.at = next;
            assert(self@ == before.with(case@));
        }
    }

    /// The cases, once nothing is left to run: those of every cell, in order, or, where the
    /// benchmark is left at a failure, those up to the first that failed.
    pub fn finish(self) -> (r: Option<Vec<BenchCaseReport>>)
        requires
            self.well_formed(),
        ensures
            match r {
                Some(cases) => self@.over() && views(cases@) == self@.cases && ran_as_asked(self@),
                None => !self@.over(),
            },
    {
        match self.at {
            None => {
                proof {
                    over_means(self@);
                }
                Some(self.cases)
            },
            Some(_) => None,
        }
    }
}

/// The benchmark has a cell for every plugin with every scenario and every model, and no other.
/// From one cell to the next the model changes first, then the scenario, then the plugin.
pub proof fn cells_combine_everything(st: MatrixView, p: int, s: int, m: int)
    requires
        0 <= p < st.plugins.len(),
        0 <= s < st.scenarios.len(),
        0 <= m < st.models.len(),
    ensures
        ({
            let i = (p * st.scenarios.len() + s) * st.models.len() + m;
            &&& 0 <= i < st.cells().len()
            &&& st.cells()[i] == (st.plugins[p], st.scenarios[s], st.models[m])
            &&& st.cells().len() == st.plugins.len() * st.scenarios.len() * st.models.len()
            &&& m + 1 < st.models.len() ==> st.cells()[i + 1] == (
                st.plugins[p],
                st.scenarios[s],
                st.models[m + 1],
            )
            &&& m + 1 == st.models.len() && s + 1 < st.scenarios.len() ==> st.cells()[i + 1] == (
                st.plugins[p],
                st.scenarios[s + 1],
                st.models[0],
            )
            &&& m + 1 == st.models.len() && s + 1 == st.scenarios.len() && p + 1
                < st.plugins.len() ==> st.cells()[i + 1] == (
                st.plugins[p + 1],
                st.scenarios[0],
                st.models[0],
            )
        }),
{
    let (scenarios, models) = (st.scenarios.len() as int, st.models.len() as int);
    position_of(st, p, s, m);
    if m + 1 < models {
        position_of(st, p, s, m + 1);
    } else if s + 1 < scenarios {
        position_of(st, p, s + 1, 0);
        assert((p * scenarios + (s + 1)) * models == (p * scenarios + s) * models + models)
            by (nonlinear_arith);
    } else if p + 1 < st.plugins.len() {
        position_of(st, p + 1, 0, 0);
        assert(((p + 1) * scenarios) * models == (p * scenarios + s) * models + models)
            by (nonlinear_arith)
            requires
                s + 1 == scenarios,
        ;
    }
}

proof fn position_of(st: MatrixView, p: int, s: int, m: int)
    requires
        0 <= p < st.plugins.len(),
        0 <= s < st.scenarios.len(),
        0 <= m < st.models.len(),
    ensures
        ({
            let i = (p * st.scenarios.len() + s) * st.models.len() + m;
            &&& 0 <= i < st.cells().len()
            &&& st.cells()[i] == (st.plugins[p], st.scenarios[s], st.models[m])
        }),
{
    let (plugins, scenarios, models) = (
        st.plugins.len() as int,
        st.scenarios.len() as int,
        st.models.len() as int,
    );
    let row = p * scenarios + s;
    let i = row * models + m;
    lemma_fundamental_div_mod_converse(i, models, row, m);
    lemma_fundamental_div_mod_converse(row, scenarios, p, s);
    assert(0 <= row < plugins * scenarios) by (nonlinear_arith)
        requires
            row == p * scenarios + s,
            0 <= p < plugins,
            0 <= s < scenarios,
    ;
    let rows = plugins * scenarios;
    assert(0 <= i < rows * models) by (nonlinear_arith)
        requires
            i == row * models + m,
            0 <= row < rows,
            0 <= m < models,
    ;
}

/// Recording a case keeps what it measured and puts it down to the cell whose turn it is. A case
/// that failed ends the benchmark exactly where it is to be left at a failure; otherwise it ends
/// with the last cell.
pub proof fn cases_are_recorded(st: MatrixView, c: CaseView)
    requires
        !st.over(),
    ensures
        ({
            let after = st.with(c);
            let kept = after.cases.last();
            &&& after.cases.len() == st.cases.len() + 1
            &&& forall|i: int| 0 <= i < st.cases.len() ==> after.cases[i] == st.cases[i]
            &&& (kept.plugin_path, kept.scenario, kept.model) == st.cells()[st.cases.len() as int]
            &&& kept.plugin_name == c.plugin_name
            &&& kept.prompt == c.prompt
            &&& kept.samples == c.samples
            &&& kept.errors == c.errors
            &&& kept.summary == c.summary
            &&& kept.iterations_requested == c.iterations_requested
            &&& kept.warmup_iterations == c.warmup_iterations
            &&& kept.timeout_ms == c.timeout_ms
            &&& st.fail_fast && (c.errors.len() > 0 || c.samples.len() != c.iterations_requested)
                ==> after.over()
            &&& !st.fail_fast || (c.errors.len() == 0 && c.samples.len() == c.iterations_requested)
                ==> after.over() == (after.cases.len() == st.plugins.len() * st.scenarios.len()
                * st.models.len())
        }),
{
}

} // verus!
