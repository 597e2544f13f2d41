//! A provider scenario from launch to result, as a machine that is told what happened and says
//! what to do.

use crate::harness::{HARNESS_NAME, INITIALIZE_TIMEOUT_MS, RUN_REQUEST_ID};
use crate::json::{Json, JsonView};
use crate::model::{
    bare_result, pass_or_fail, ResultView, ScenarioFile, ScenarioView, StatusView, TestResult,
    TestStatus,
};
use crate::rpc::{
    handshake_event, handshake_on, initialize_request, initialize_view, initialized_notification,
    notification_view, request_view, requests_say_what_is_asked, says, Event, EventView,
    HandshakeStep, HandshakeView,
};
use crate::run::{
    fresh_run, gate, harness_wording, harness_words, mock_scenario_of, mock_script, next_action,
    received, result_of, run_method, run_params, run_request, skip_reason, stage_text, Action,
    ActionView, RunView, ScenarioRun, Stage,
};
use crate::suite::concat;
use crate::text::texts;
use crate::views::{group_views, opt};
use vstd::prelude::*;

verus! {

broadcast use group_views;

/// What happened.
#[derive(Debug, PartialEq)]
pub enum News {
    /// The plugin runs.
    Launched,
    /// The plugin could not be launched.
    LaunchFailed(String),
    /// What was to be sent could not be.
    SendFailed(String),
    /// What was to be sent was.
    Sent,
    /// What waiting for a line came to.
    Read(Event),
}

pub enum NewsView {
    Launched,
    LaunchFailed(Seq<char>),
    SendFailed(Seq<char>),
    Sent,
    Read(EventView),
}

impl View for News {
    type V = NewsView;

    open spec fn view(&self) -> NewsView {
        match self {
            News::Launched => NewsView::Launched,
            News::LaunchFailed(e) => NewsView::LaunchFailed(e@),
            News::SendFailed(e) => NewsView::SendFailed(e@),
            News::Sent => NewsView::Sent,
            News::Read(e) => NewsView::Read(e@),
        }
    }
}

/// What to do.
#[derive(Debug, PartialEq)]
pub enum Command {
    /// Launch the plugin, with the mocks set to a script.
    Launch { script: String },
    /// Send a frame, and say how that went.
    Send(Json),
    /// Send that the handshake is over, however that goes; then send the request, and say how that
    /// went.
    Begin { ready: Json, request: Json },
    /// Send a frame, and go on however that goes.
    Cancel(Json),
    /// Wait this many milliseconds for a line.
    Wait(u64),
    /// Send that the handshake is over, however that goes; then finish.
    Leave { ready: Json },
    /// Shut the plugin down and ask for the result.
    Finish,
}

pub enum CommandView {
    Launch { script: Seq<char> },
    Send(JsonView),
    Begin { ready: JsonView, request: JsonView },
    Cancel(JsonView),
    Wait(int),
    Leave { ready: JsonView },
    Finish,
}

impl View for Command {
    type V = CommandView;

    open spec fn view(&self) -> CommandView {
        match self {
            Command::Launch { script } => CommandView::Launch { script: script@ },
            Command::Send(j) => CommandView::Send(j@),
            Command::Begin { ready, request } => CommandView::Begin {
                ready: ready@,
                request: request@,
            },
            Command::Cancel(j) => CommandView::Cancel(j@),
            Command::Wait(ms) => CommandView::Wait(*ms as int),
            Command::Leave { ready } => CommandView::Leave { ready: ready@ },
            Command::Finish => CommandView::Finish,
        }
    }
}

/// Where a scenario stands. Times are milliseconds since it began.
pub enum Phase {
    /// The plugin is being launched.
    Launching(ScenarioFile),
    /// `initialize` is being sent.
    Greeting(ScenarioFile),
    /// The plugin is to answer `initialize`, which was sent at `since`.
    Introducing { scenario: ScenarioFile, since: u64 },
    /// The run request is being sent.
    Asking(ScenarioFile),
    /// The plugin runs the request, which was sent at `since`.
    Running { run: ScenarioRun, since: u64 },
    /// The scenario ended.
    Over(End),
}

/// How a scenario ended.
pub enum End {
    Failed { stage: Stage, error: String },
    Skipped { reason: String },
    Ran(ScenarioRun),
}

pub enum PhaseView {
    Launching(ScenarioView),
    Greeting(ScenarioView),
    Introducing { scenario: ScenarioView, since: int },
    Asking(ScenarioView),
    Running { run: RunView, since: int },
    Over(EndView),
}

pub enum EndView {
    Failed { stage: Stage, error: Seq<char> },
    Skipped { reason: Seq<char> },
    Ran(RunView),
}

impl View for End {
    type V = EndView;

    open spec fn view(&self) -> EndView {
        match self {
            End::Failed { stage, error } => EndView::Failed { stage: *stage, error: error@ },
            End::Skipped { reason } => EndView::Skipped { reason: reason@ },
            End::Ran(run) => EndView::Ran(run@),
        }
    }
}

impl View for Phase {
    type V = PhaseView;

    open spec fn view(&self) -> PhaseView {
        match self {
            Phase::Launching(s) => PhaseView::Launching(s@),
            Phase::Greeting(s) => PhaseView::Greeting(s@),
            Phase::Introducing { scenario, since } => PhaseView::Introducing {
                scenario: scenario@,
                since: *since as int,
            },
            Phase::Asking(s) => PhaseView::Asking(s@),
            Phase::Running { run, since } => PhaseView::Running { run: run@, since: *since as int },
            Phase::Over(end) => PhaseView::Over(end@),
        }
    }
}

/// A scenario under way.
pub struct Driver {
    name: String,
    phase: Phase,
}

pub struct DriverView {
    pub name: Seq<char>,
    pub phase: PhaseView,
}

impl View for Driver {
    type V = DriverView;

    closed spec fn view(&self) -> DriverView {
        DriverView { name: self.name@, phase: self.phase@ }
    }
}

/// A scenario that has just begun.
pub open spec fn begun(s: ScenarioView) -> DriverView {
    DriverView { name: s.name, phase: PhaseView::Launching(s) }
}

/// A scenario in another phase.
pub open spec fn moved(st: DriverView, phase: PhaseView) -> DriverView {
    DriverView { phase, ..st }
}

/// A scenario that failed before its run.
pub open spec fn failed_at(st: DriverView, stage: Stage, error: Seq<char>) -> (
    DriverView,
    CommandView,
) {
    (moved(st, PhaseView::Over(EndView::Failed { stage, error })), CommandView::Finish)
}

/// The milliseconds since a moment; none where the moment is still to come.
pub open spec fn elapsed(now: int, since: int) -> int {
    if now < since {
        0
    } else {
        now - since
    }
}

/// What a run does next, as a command.
pub open spec fn run_on(st: DriverView, run: RunView, since: int, now: int) -> (
    DriverView,
    CommandView,
) {
    let (after, action) = next_action(run, elapsed(now, since));
    match action {
        ActionView::Finished => (
            moved(st, PhaseView::Over(EndView::Ran(after))),
            CommandView::Finish,
        ),
        ActionView::Send(frame) => (
            moved(st, PhaseView::Running { run: after, since }),
            CommandView::Cancel(frame),
        ),
        ActionView::Wait(ms) => (
            moved(st, PhaseView::Running { run: after, since }),
            CommandView::Wait(ms),
        ),
    }
}

/// What the introduction waits for still, as a command.
pub open spec fn introduction_wait(since: int, now: int) -> CommandView {
    let spent = elapsed(now, since);
    CommandView::Wait(
        if spent >= INITIALIZE_TIMEOUT_MS {
            0
        } else {
            INITIALIZE_TIMEOUT_MS - spent
        },
    )
}

/// The frame that says that the handshake is over.
pub open spec fn ready_view() -> JsonView {
    notification_view("initialized"@, JsonView::object())
}

/// How the run is asked for.
pub open spec fn begin_view(s: ScenarioView) -> CommandView {
    CommandView::Begin {
        ready: ready_view(),
        request: request_view(RUN_REQUEST_ID as int, run_method(s.method), run_params(s)),
    }
}

/// A scenario after what was read while the plugin introduces itself. Once it has, the scenario is
/// skipped, or the run is asked for.
pub open spec fn introduction_after(
    st: DriverView,
    scenario: ScenarioView,
    since: int,
    event: EventView,
    now: int,
) -> (DriverView, CommandView) {
    match handshake_event(event, harness_words()) {
        HandshakeView::Pending => (st, introduction_wait(since, now)),
        HandshakeView::Failed(m) => failed_at(st, Stage::Initialize, m),
        HandshakeView::Ready(init) => match skip_reason(scenario, init.capabilities.methods) {
            Some(reason) => (
                moved(st, PhaseView::Over(EndView::Skipped { reason })),
                CommandView::Leave { ready: ready_view() },
            ),
            None => (moved(st, PhaseView::Asking(scenario)), begin_view(scenario)),
        },
    }
}

/// A scenario after news, and what to do. News that does not answer the last command leaves it
/// standing.
pub open spec fn driver_after(st: DriverView, news: NewsView, now: int) -> (
    DriverView,
    CommandView,
) {
    match st.phase {
        PhaseView::Launching(scenario) => match news {
            NewsView::LaunchFailed(e) => failed_at(st, Stage::Spawn, e),
            NewsView::Launched => (
                moved(st, PhaseView::Greeting(scenario)),
                CommandView::Send(initialize_view(1, HARNESS_NAME@, true)),
            ),
            _ => (st, CommandView::Launch { script: mock_script(scenario) }),
        },
        PhaseView::Greeting(scenario) => match news {
            NewsView::SendFailed(e) => failed_at(st, Stage::Initialize, e),
            NewsView::Sent => (
                moved(st, PhaseView::Introducing { scenario, since: now }),
                introduction_wait(now, now),
            ),
            _ => (st, CommandView::Send(initialize_view(1, HARNESS_NAME@, true))),
        },
        PhaseView::Introducing { scenario, since } => match news {
            NewsView::Read(event) => introduction_after(st, scenario, since, event, now),
            _ => (st, introduction_wait(since, now)),
        },
        PhaseView::Asking(scenario) => match news {
            NewsView::SendFailed(e) => failed_at(st, Stage::Send, e),
            NewsView::Sent => run_on(st, fresh_run(scenario), now, now),
            _ => (st, begin_view(scenario)),
        },
        PhaseView::Running { run, since } => match news {
            NewsView::Read(event) => run_on(
                st,
                received(run, event, elapsed(now, since)),
                since,
                now,
            ),
            _ => run_on(st, run, since, now),
        },
        PhaseView::Over(_) => (st, CommandView::Finish),
    }
}

/// The result of a scenario that ended.
pub open spec fn driver_result(st: DriverView, duration_ms: int) -> Option<ResultView> {
    match st.phase {
        PhaseView::Over(EndView::Failed { stage, error }) => Some(
            bare_result(
                st.name,
                StatusView::Fail { reason: stage_text(stage) + error },
                duration_ms,
                Seq::empty(),
            ),
        ),
        PhaseView::Over(EndView::Skipped { reason }) => Some(
            bare_result(st.name, StatusView::Skip { reason }, duration_ms, Seq::empty()),
        ),
        PhaseView::Over(EndView::Ran(run)) => result_of(run, duration_ms),
        _ => None,
    }
}

fn since_then(now: u64, since: u64) -> (r: u64)
    ensures
        r == elapsed(now as int, since as int),
{
    if now < since {
        0
    } else {
        now - since
    }
}

fn wait_for_introduction(since: u64, now: u64) -> (r: Command)
    ensures
        r@ == introduction_wait(since as int, now as int),
{
    let spent: u64 = since_then(now, since);
    if spent >= INITIALIZE_TIMEOUT_MS {
        Command::Wait(0)
    } else {
        Command::Wait(INITIALIZE_TIMEOUT_MS - spent)
    }
}

impl Driver {
    /// Begins a scenario.
    pub fn start(scenario: ScenarioFile) -> (r: (Driver, Command))
        ensures
            r.0@ == begun(scenario@),
            r.1@ == (CommandView::Launch { script: mock_script(scenario@) }),
    {
        let script = mock_scenario_of(&scenario);
        (
            Driver { name: scenario.name.clone(), phase: Phase::Launching(scenario) },
            Command::Launch { script },
        )
    }

    fn failed(name: String, stage: Stage, error: String) -> (r: (Driver, Command))
        ensures
            forall|st: DriverView|
                st.name == name@ ==> #[trigger] failed_at(st, stage, error@) == (r.0@, r.1@),
    {
        (Driver { name, phase: Phase::Over(End::Failed { stage, error }) }, Command::Finish)
    }

    fn go_on(name: String, run: ScenarioRun, since: u64, now: u64) -> (r: (Driver, Command))
        ensures
            forall|st: DriverView|
                st.name == name@ ==> #[trigger] run_on(st, run@, since as int, now as int) == (
                    r.0@,
                    r.1@,
                ),
    {
        let mut run = run;
        match run.next(since_then(now, since)) {
            Action::Finished => (
                Driver { name, phase: Phase::Over(End::Ran(run)) },
                Command::Finish,
            ),
            Action::Send(frame) => (
                Driver { name, phase: Phase::Running { run, since } },
                Command::Cancel(frame),
            ),
            Action::Wait(ms) => (
                Driver { name, phase: Phase::Running { run, since } },
                Command::Wait(ms),
            ),
        }
    }

    fn ask(name: String, scenario: ScenarioFile) -> (r: (Driver, Command))
        ensures
            r.0@ == (DriverView { name: name@, phase: PhaseView::Asking(scenario@) }),
            r.1@ == begin_view(scenario@),
    {
        let request = run_request(&scenario);
        (
            Driver { name, phase: Phase::Asking(scenario) },
            Command::Begin { ready: initialized_notification(), request },
        )
    }

    fn introduced(name: String, scenario: ScenarioFile, since: u64, event: Event, now: u64) -> (r: (
        Driver,
        Command,
    ))
        ensures
            forall|st: DriverView|
                st.name == name@ && st.phase == (PhaseView::Introducing {
                    scenario: scenario@,
                    since: since as int,
                }) ==> #[trigger] introduction_after(
                    st,
                    scenario@,
                    since as int,
                    event@,
                    now as int,
                ) == (r.0@, r.1@),
    {
        match handshake_on(event, &harness_wording()) {
            HandshakeStep::Pending => (
                Driver { name, phase: Phase::Introducing { scenario, since } },
                wait_for_introduction(since, now),
            ),
            HandshakeStep::Failed(error) => Driver::failed(name, Stage::Initialize, error),
            HandshakeStep::Ready(init) => match gate(&scenario, &init.capabilities.methods) {
                Some(reason) => (
                    Driver { name, phase: Phase::Over(End::Skipped { reason }) },
                    Command::Leave { ready: initialized_notification() },
                ),
                None => Driver::ask(name, scenario),
            },
        }
    }

    /// Takes news, and says what to do.
    pub fn handle(self, news: News, now: u64) -> (r: (Driver, Command))
        ensures
            (r.0@, r.1@) == driver_after(self@, news@, now as int),
    {
        let name = self.name;
        match self.phase {
            Phase::Launching(scenario) => match news {
                News::LaunchFailed(error) => Driver::failed(name, Stage::Spawn, error),
                News::Launched => (
                    Driver { name, phase: Phase::Greeting(scenario) },
                    Command::Send(initialize_request(1, HARNESS_NAME, true)),
                ),
                _ => {
                    let script = mock_scenario_of(&scenario);
                    (
                        Driver { name, phase: Phase::Launching(scenario) },
                        Command::Launch { script },
                    )
                },
            },
            Phase::Greeting(scenario) => match news {
                News::SendFailed(error) => Driver::failed(name, Stage::Initialize, error),
                News::Sent => (
                    Driver { name, phase: Phase::Introducing { scenario, since: now } },
                    wait_for_introduction(now, now),
                ),
                _ => (
                    Driver { name, phase: Phase::Greeting(scenario) },
                    Command::Send(initialize_request(1, HARNESS_NAME, true)),
                ),
            },
            Phase::Introducing { scenario, since } => match news {
                News::Read(event) => Driver::introduced(name, scenario, since, event, now),
                _ => (
                    Driver { name, phase: Phase::Introducing { scenario, since } },
                    wait_for_introduction(since, now),
                ),
            },
            Phase::Asking(scenario) => match news {
                News::SendFailed(error) => Driver::failed(name, Stage::Send, error),
                News::Sent => Driver::go_on(name, ScenarioRun::new(scenario), now, now),
                _ => Driver::ask(name, scenario),
            },
            Phase::Running { run, since } => match news {
                News::Read(event) => {
                    let mut run = run;
                    run.receive(event, since_then(now, since));
                    Driver::go_on(name, run, since, now)
                },
                _ => Driver::go_on(name, run, since, now),
            },
            Phase::Over(end) => (Driver { name, phase: Phase::Over(end) }, Command::Finish),
        }
    }

    /// The result of the scenario, once it has ended.
    pub fn result(self, duration_ms: u64) -> (r: Option<TestResult>)
        ensures
            opt(r) == driver_result(self@, duration_ms as int),
    {
        let none: Vec<String> = Vec::new();
        assert(texts(none@) =~= Seq::<Seq<char>>::empty());
        match self.phase {
            Phase::Over(End::Failed { stage, error }) => {
                let reason = match stage {
                    Stage::Spawn => concat("spawn: ", error.as_str()),
                    Stage::Initialize => concat("initialize: ", error.as_str()),
                    Stage::Send => concat("send request: ", error.as_str()),
                };
                Some(
                    pass_or_fail(
                        self.name.as_str(),
                        TestStatus::Fail { reason },
                        duration_ms,
                        none,
                    ),
                )
            },
            Phase::Over(End::Skipped { reason }) => Some(
                pass_or_fail(self.name.as_str(), TestStatus::Skip { reason }, duration_ms, none),
            ),
            Phase::Over(End::Ran(run)) => run.finish(duration_ms),
            _ => None,
        }
    }
}

/// A scenario that does not apply to a plugin is skipped, not failed, and nothing is asked of the
/// plugin beyond its introduction.
pub proof fn inapplicable_is_skipped(
    s: ScenarioView,
    launched_at: int,
    sent_at: int,
    event: EventView,
    now: int,
    duration_ms: int,
)
    requires
        handshake_event(event, harness_words()) matches HandshakeView::Ready(init) && skip_reason(
            s,
            init.capabilities.methods,
        ) is Some,
    ensures
        ({
            let (launched, first) = driver_after(begun(s), NewsView::Launched, launched_at);
            let (waiting, second) = driver_after(launched, NewsView::Sent, sent_at);
            let (after, third) = driver_after(waiting, NewsView::Read(event), now);
            &&& first == CommandView::Send(initialize_view(1, HARNESS_NAME@, true))
            &&& second is Wait
            &&& third == (CommandView::Leave { ready: ready_view() })
            &&& driver_result(after, duration_ms) matches Some(result) && result.status is Skip
        }),
{
}

/// Whether a scenario has kept its name, and has ended its run where it is over.
pub open spec fn driver_valid(st: DriverView) -> bool {
    match st.phase {
        PhaseView::Launching(s) => s.name == st.name,
        PhaseView::Greeting(s) => s.name == st.name,
        PhaseView::Introducing { scenario, .. } => scenario.name == st.name,
        PhaseView::Asking(s) => s.name == st.name,
        PhaseView::Running { run, .. } => run.scenario.name == st.name,
        PhaseView::Over(EndView::Ran(run)) => run.scenario.name == st.name && run.ending is Some,
        _ => true,
    }
}

/// Every scenario keeps its name, and is told to finish exactly when it has a result.
pub proof fn drivers_finish_with_result(
    s: ScenarioView,
    st: DriverView,
    news: NewsView,
    now: int,
    duration_ms: int,
)
    requires
        driver_valid(st),
    ensures
        driver_valid(begun(s)),
        ({
            let (after, command) = driver_after(st, news, now);
            &&& driver_valid(after)
            &&& after.name == st.name
            &&& (command is Finish || command is Leave) == (driver_result(after, duration_ms)
                is Some)
            &&& driver_result(after, duration_ms) matches Some(result) ==> result.scenario == st.name
                && result.duration_ms == duration_ms
        }),
{
}

// ---------------------------------------------------------------------------
// Laws
// ---------------------------------------------------------------------------

/// Whether a scenario is over with a failure for a given reason.
pub open spec fn over_with(outcome: (DriverView, CommandView), reason: Seq<char>, ms: int) -> bool {
    &&& outcome.1 is Finish
    &&& driver_result(outcome.0, ms) matches Some(r) && r.status == (StatusView::Fail { reason })
        && r.duration_ms == ms && r.scenario == outcome.0.name && r.notification_log.len() == 0
}

/// A scenario that cannot come to its run fails, and says at which stage: where the plugin cannot be
/// launched, where it cannot be greeted, where its introduction fails, and where the run cannot be
/// asked for.
pub proof fn failures_name_their_stage(
    name: Seq<char>,
    s: ScenarioView,
    error: Seq<char>,
    event: EventView,
    since: int,
    now: int,
    ms: int,
)
    ensures
        over_with(
            driver_after(
                DriverView { name, phase: PhaseView::Launching(s) },
                NewsView::LaunchFailed(error),
                now,
            ),
            "spawn: "@ + error,
            ms,
        ),
        over_with(
            driver_after(
                DriverView { name, phase: PhaseView::Greeting(s) },
                NewsView::SendFailed(error),
                now,
            ),
            "initialize: "@ + error,
            ms,
        ),
        handshake_event(event, harness_words()) == HandshakeView::Failed(error) ==> over_with(
            driver_after(
                DriverView { name, phase: PhaseView::Introducing { scenario: s, since } },
                NewsView::Read(event),
                now,
            ),
            "initialize: "@ + error,
            ms,
        ),
        over_with(
            driver_after(
                DriverView { name, phase: PhaseView::Asking(s) },
                NewsView::SendFailed(error),
                now,
            ),
            "send request: "@ + error,
            ms,
        ),
{
}

/// A scenario comes to its run step by step: the plugin is launched with the script, greeted as soon
/// as it runs, waited for, for ten seconds in all, and, once it has introduced itself as one that the
/// scenario applies to, told that it is ready and asked for the run; the run begins when that was
/// sent.
pub proof fn scenarios_come_to_their_run(
    s: ScenarioView,
    launched_at: int,
    sent_at: int,
    pending: EventView,
    pending_at: int,
    ready: EventView,
    ready_at: int,
    asked_at: int,
)
    requires
        sent_at <= pending_at <= sent_at + 10_000,
        handshake_event(pending, harness_words()) is Pending,
        handshake_event(ready, harness_words()) matches HandshakeView::Ready(init) && skip_reason(
            s,
            init.capabilities.methods,
        ) is None,
    ensures
        ({
            let (a, first) = driver_after(begun(s), NewsView::Launched, launched_at);
            let (b, second) = driver_after(a, NewsView::Sent, sent_at);
            let (c, third) = driver_after(b, NewsView::Read(pending), pending_at);
            let (d, fourth) = driver_after(c, NewsView::Read(ready), ready_at);
            let (e, fifth) = driver_after(d, NewsView::Sent, asked_at);
            &&& first matches CommandView::Send(frame) && says(frame, "method"@, "initialize"@)
            &&& second == CommandView::Wait(10_000)
            &&& third == CommandView::Wait(sent_at + 10_000 - pending_at)
            &&& fourth matches CommandView::Begin { ready, request } && {
                &&& says(ready, "method"@, "initialized"@)
                &&& ready.get("id"@) is None
                &&& says(request, "method"@, run_method(s.method))
                &&& request.get("id"@) == Some(JsonView::Int(2))
                &&& request.get("params"@) == Some(run_params(s))
            }
            &&& (e, fifth) == run_on(d, fresh_run(s), asked_at, asked_at)
            &&& fifth matches CommandView::Wait(ms) ==> ms <= s.timeout_ms
        }),
{
    requests_say_what_is_asked(1, "initialize"@, JsonView::object(), HARNESS_NAME@, true);
    requests_say_what_is_asked(
        RUN_REQUEST_ID as int,
        run_method(s.method),
        run_params(s),
        HARNESS_NAME@,
        true,
    );
    requests_say_what_is_asked(1, "initialized"@, JsonView::object(), HARNESS_NAME@, true);
}

/// A run that is under way takes every event at the time since it was asked for, does next what the
/// run does next, and comes to the run's own result.
pub proof fn runs_are_driven(
    name: Seq<char>,
    run: RunView,
    since: int,
    event: EventView,
    now: int,
    ms: int,
)
    requires
        since <= now,
    ensures
        ({
            let st = DriverView { name, phase: PhaseView::Running { run, since } };
            let (after, command) = driver_after(st, NewsView::Read(event), now);
            let (next, action) = next_action(received(run, event, now - since), now - since);
            &&& action is Finished ==> command is Finish && driver_result(after, ms) == result_of(
                next,
                ms,
            )
            &&& action matches ActionView::Send(frame) ==> command == CommandView::Cancel(frame)
                && after.phase == (PhaseView::Running { run: next, since })
            &&& action matches ActionView::Wait(wait) ==> command == CommandView::Wait(wait)
                && after.phase == (PhaseView::Running { run: next, since })
        }),
{
}

} // verus!
