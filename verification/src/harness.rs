//! Driving one provider scenario: the request, the frames that come back, and the verdict.

use crate::fields::{read_int, read_text, required_int, required_text};
use crate::json::{Json, JsonView};
use crate::model::{
    stands_in_text, substrings_stand_in_text, AgentNotification, AgentRunResponse, ExpectedResponse,
    ExpectedResponseView, ExpectedView, NotificationView, RunResponseView, ScenarioFile,
};
use crate::rpc::{may_say, says};
use crate::text::{
    byte_len, contains, decimal, has_substring, i64_to_string, same, signed_decimal,
    usize_to_string, utf8_len, utf8_len_is_encoded_len,
};
use crate::views::{group_views, opt, outcome, views};
use vstd::prelude::*;
use vstd::utf8::encode_utf8;

verus! {

broadcast use group_views;

/// The name under which the harness introduces itself.
pub const HARNESS_NAME: &'static str = "animus-plugin-harness";

/// How long the harness waits for the answer to `initialize`.
pub const INITIALIZE_TIMEOUT_MS: u64 = 10_000;

/// What a plugin advertises that can be cancelled while it runs.
pub const CANCELLATION_CAPABILITY: &'static str = "$harness/cancellation-loop-v2";

/// The error code of a run that was cancelled.
pub const REQUEST_CANCELLED: i64 = -32002;

/// The number of the run request; `initialize` has the number before it.
pub const RUN_REQUEST_ID: u64 = 2;

/// The number of the cancel request.
pub const CANCEL_REQUEST_ID: u64 = 3;

// ---------------------------------------------------------------------------
// Notifications and responses
// ---------------------------------------------------------------------------

/// The notification that a method and its parameters stand for. What is absent, or of another
/// type, is empty, null or false; a tool result counts as a success unless it says otherwise.
pub open spec fn notification_of(method: Seq<char>, params: JsonView) -> Option<NotificationView> {
    let session_id = params.text_or_empty("session_id"@);
    if method == "agent/output"@ {
        Some(
            NotificationView::Output {
                session_id,
                text: params.text_or_empty("text"@),
                is_final: params.truth_or("final"@, false),
            },
        )
    } else if method == "agent/thinking"@ {
        Some(NotificationView::Thinking { session_id, text: params.text_or_empty("text"@) })
    } else if method == "agent/toolCall"@ {
        Some(
            NotificationView::ToolCall {
                session_id,
                name: params.text_or_empty("name"@),
                arguments: params.get_or_null("arguments"@),
                server: params.text_at("server"@),
            },
        )
    } else if method == "agent/toolResult"@ {
        Some(
            NotificationView::ToolResult {
                session_id,
                name: params.text_or_empty("name"@),
                output: params.get_or_null("output"@),
                success: params.truth_or("success"@, true),
            },
        )
    } else if method == "agent/error"@ {
        Some(
            NotificationView::Error {
                session_id,
                message: params.text_or_empty("message"@),
                recoverable: params.truth_or("recoverable"@, false),
            },
        )
    } else {
        None
    }
}

/// Reads a notification.
pub fn decode_notification(method: &str, params: &Json) -> (r: Option<AgentNotification>)
    ensures
        opt(r) == notification_of(method@, params@),
{
    let session_id = params.text_or_empty("session_id");
    if same(method, "agent/output") {
        Some(
            AgentNotification::Output {
                session_id,
                text: params.text_or_empty("text"),
                is_final: params.truth_or("final", false),
            },
        )
    } else if same(method, "agent/thinking") {
        Some(AgentNotification::Thinking { session_id, text: params.text_or_empty("text") })
    } else if same(method, "agent/toolCall") {
        let server = match params.text_at("server") {
            Some(s) => Some(s.to_owned()),
            None => None,
        };
        Some(
            AgentNotification::ToolCall {
                session_id,
                name: params.text_or_empty("name"),
                arguments: params.get_or_null("arguments"),
                server,
            },
        )
    } else if same(method, "agent/toolResult") {
        Some(
            AgentNotification::ToolResult {
                session_id,
                name: params.text_or_empty("name"),
                output: params.get_or_null("output"),
                success: params.truth_or("success", true),
            },
        )
    } else if same(method, "agent/error") {
        Some(
            AgentNotification::Error {
                session_id,
                message: params.text_or_empty("message"),
                recoverable: params.truth_or("recoverable", false),
            },
        )
    } else {
        None
    }
}

/// The run response that a value holds, or why it holds none.
pub open spec fn run_response_of(v: JsonView) -> Result<RunResponseView, Seq<char>> {
    match required_text(v, "session_id"@) {
        Err(e) => Err(e),
        Ok(session_id) => match required_int(v, "exit_code"@, i32::MIN as int, i32::MAX as int) {
            Err(e) => Err(e),
            Ok(exit_code) => match required_text(v, "output"@) {
                Err(e) => Err(e),
                Ok(output) => Ok(RunResponseView { session_id, exit_code, output }),
            },
        },
    }
}

/// Reads a run response.
pub fn decode_run_response(v: &Json) -> (r: Result<AgentRunResponse, String>)
    ensures
        outcome(r) == run_response_of(v@),
{
    let session_id = match read_text(v, "session_id") {
        Ok(s) => s,
        Err(e) => {
            return Err(e);
        },
    };
    let exit_code: i32 = match read_int(v, "exit_code", i32::MIN as i128, i32::MAX as i128) {
        Ok(n) => n as i32,
        Err(e) => {
            return Err(e);
        },
    };
    match read_text(v, "output") {
        Ok(output) => Ok(AgentRunResponse { session_id, exit_code, output }),
        Err(e) => Err(e),
    }
}

// ---------------------------------------------------------------------------
// The verdict
// ---------------------------------------------------------------------------

/// Where, from `from` on, the first notification stands that fits the pattern.
pub open spec fn next_fit(p: ExpectedView, log: Seq<NotificationView>, from: int) -> Option<int>
    decreases log.len() - from,
{
    if from >= log.len() {
        None
    } else if p.fits(log[from]) {
        Some(from)
    } else {
        next_fit(p, log, from + 1)
    }
}

/// Each pattern in turn takes the first notification after the one before it. The pattern that
/// finds none, and the position from which it searched; `None` where every pattern finds one.
pub open spec fn unmatched(
    patterns: Seq<ExpectedView>,
    log: Seq<NotificationView>,
    from: int,
) -> Option<(ExpectedView, int)>
    decreases patterns.len(),
{
    if patterns.len() == 0 {
        None
    } else {
        match next_fit(patterns[0], log, from) {
            None => Some((patterns[0], from)),
            Some(i) => unmatched(patterns.drop_first(), log, i + 1),
        }
    }
}

/// Whether `at` gives each pattern a notification that fits it, in the order of the patterns.
pub open spec fn placed(
    patterns: Seq<ExpectedView>,
    log: Seq<NotificationView>,
    from: int,
    at: Seq<int>,
) -> bool {
    &&& at.len() == patterns.len()
    &&& forall|k: int|
        0 <= k < at.len() ==> from <= #[trigger] at[k] < log.len() && patterns[k].fits(log[at[k]])
    &&& forall|j: int, k: int| 0 <= j < k < at.len() ==> #[trigger] at[j] < #[trigger] at[k]
}

/// Whether the patterns are met by the notifications as a subsequence.
pub open spec fn in_order(patterns: Seq<ExpectedView>, log: Seq<NotificationView>) -> bool {
    exists|at: Seq<int>| placed(patterns, log, 0, at)
}

proof fn next_fit_is_first(p: ExpectedView, log: Seq<NotificationView>, from: int)
    ensures
        match next_fit(p, log, from) {
            Some(i) => from <= i < log.len() && p.fits(log[i]) && forall|j: int|
                from <= j < i ==> !p.fits(#[trigger] log[j]),
            None => forall|j: int| from <= j < log.len() ==> !p.fits(#[trigger] log[j]),
        },
    decreases log.len() - from,
{
    if from < log.len() && !p.fits(log[from]) {
        next_fit_is_first(p, log, from + 1);
    }
}

/// A search that finds every pattern gives a placement.
proof fn search_places(patterns: Seq<ExpectedView>, log: Seq<NotificationView>, from: int) -> (at:
    Seq<int>)
    requires
        unmatched(patterns, log, from) is None,
    ensures
        placed(patterns, log, from, at),
    decreases patterns.len(),
{
    if patterns.len() == 0 {
        Seq::<int>::empty()
    } else {
        next_fit_is_first(patterns[0], log, from);
        let i = next_fit(patterns[0], log, from)->0;
        let rest = patterns.drop_first();
        let tail = search_places(rest, log, i + 1);
        let at = seq![i] + tail;
        assert forall|k: int| 0 <= k < at.len() implies from <= #[trigger] at[k] < log.len()
            && patterns[k].fits(log[at[k]]) by {
            if k > 0 {
                assert(at[k] == tail[k - 1]);
                assert(patterns[k] == rest[k - 1]);
            }
        }
        assert forall|j: int, k: int| 0 <= j < k < at.len() implies #[trigger] at[j]
            < #[trigger] at[k] by {
            assert(at[k] == tail[k - 1]);
            if j > 0 {
                assert(at[j] == tail[j - 1]);
            }
        }
        at
    }
}

/// Where a placement exists, the search finds every pattern.
proof fn placed_is_found(
    patterns: Seq<ExpectedView>,
    log: Seq<NotificationView>,
    from: int,
    at: Seq<int>,
)
    requires
        placed(patterns, log, from, at),
    ensures
        unmatched(patterns, log, from) is None,
    decreases patterns.len(),
{
    if patterns.len() > 0 {
        next_fit_is_first(patterns[0], log, from);
        assert(from <= at[0] < log.len() && patterns[0].fits(log[at[0]]));
        let i = next_fit(patterns[0], log, from)->0;
        let rest = patterns.drop_first();
        let tail = at.drop_first();
        assert forall|k: int| 0 <= k < tail.len() implies i + 1 <= #[trigger] tail[k] < log.len()
            && rest[k].fits(log[tail[k]]) by {
            assert(tail[k] == at[k + 1]);
            assert(at[0] < at[k + 1]);
            assert(rest[k] == patterns[k + 1]);
        }
        assert forall|j: int, k: int| 0 <= j < k < tail.len() implies #[trigger] tail[j]
            < #[trigger] tail[k] by {
            assert(tail[j] == at[j + 1] && tail[k] == at[k + 1]);
        }
        placed_is_found(rest, log, i + 1, tail);
    }
}

/// The search for the expected notifications succeeds exactly where they are a subsequence of
/// what the plugin sent, whichever way they could be placed.
pub proof fn search_is_subsequence(patterns: Seq<ExpectedView>, log: Seq<NotificationView>)
    ensures
        (unmatched(patterns, log, 0) is None) == in_order(patterns, log),
{
    if unmatched(patterns, log, 0) is None {
        let at = search_places(patterns, log, 0);
        assert(placed(patterns, log, 0, at));
    }
    if in_order(patterns, log) {
        let at = choose|at: Seq<int>| placed(patterns, log, 0, at);
        placed_is_found(patterns, log, 0, at);
    }
}

/// The scenario's demands on the final response.
pub open spec fn response_verdict(
    expected: ExpectedResponseView,
    response: Option<RunResponseView>,
) -> Result<(), Seq<char>> {
    match response {
        None => if expected.is_free() {
            Ok(())
        } else {
            Err("no AgentRunResponse received but expected_response set"@)
        },
        Some(r) => {
            if expected.output_contains matches Some(part) && !has_substring(r.output, part) {
                Err("response.output missing substring `"@ + expected.output_contains->0 + "`"@)
            } else if expected.min_output_len matches Some(min) && utf8_len(r.output) < min {
                Err(
                    "response.output length "@ + decimal(utf8_len(r.output)) + " below min "@
                        + decimal(expected.min_output_len->0 as nat),
                )
            } else if expected.exit_code matches Some(code) && r.exit_code != code {
                Err(
                    "response.exit_code "@ + signed_decimal(r.exit_code) + " != expected "@
                        + signed_decimal(expected.exit_code->0 as int),
                )
            } else {
                Ok(())
            }
        },
    }
}

/// Whether a finished run is what the scenario expects, or the first thing that is not.
pub open spec fn verdict(
    patterns: Seq<ExpectedView>,
    expected: ExpectedResponseView,
    log: Seq<NotificationView>,
    response: Option<RunResponseView>,
) -> Result<(), Seq<char>> {
    match unmatched(patterns, log, 0) {
        Some((p, from)) => Err(
            "expected notification `"@ + p.label() + "` not found after index "@ + decimal(
                from as nat,
            ),
        ),
        None => response_verdict(expected, response),
    }
}

/// What a check without a value stands for.
pub open spec fn checked(r: Result<(), String>) -> Result<(), Seq<char>> {
    match r {
        Ok(_) => Ok(()),
        Err(e) => Err(e@),
    }
}

fn check_response(expected: &ExpectedResponse, response: &Option<AgentRunResponse>) -> (r: Result<
    (),
    String,
>)
    ensures
        checked(r) == response_verdict(expected@, opt(*response)),
{
    match response {
        None => {
            if expected.output_contains.is_none() && expected.min_output_len.is_none()
                && expected.exit_code.is_none() {
                Ok(())
            } else {
                Err("no AgentRunResponse received but expected_response set".to_owned())
            }
        },
        Some(resp) => {
            if let Some(part) = &expected.output_contains {
                if !contains(resp.output.as_str(), part.as_str()) {
                    let mut m = "response.output missing substring `".to_owned();
                    m.append(part.as_str());
                    m.append("`");
                    return Err(m);
                }
            }
            if let Some(min) = expected.min_output_len {
                let len: usize = byte_len(resp.output.as_str());
                if len < min {
                    let mut m = "response.output length ".to_owned();
                    m.append(usize_to_string(len).as_str());
                    m.append(" below min ");
                    m.append(usize_to_string(min).as_str());
                    return Err(m);
                }
            }
            if let Some(code) = expected.exit_code {
                if resp.exit_code != code {
                    let mut m = "response.exit_code ".to_owned();
                    m.append(i64_to_string(resp.exit_code as i64).as_str());
                    m.append(" != expected ");
                    m.append(i64_to_string(code as i64).as_str());
                    return Err(m);
                }
            }
            Ok(())
        },
    }
}

/// Checks a finished run against its scenario.
pub fn validate(
    scenario: &ScenarioFile,
    notifications: &Vec<AgentNotification>,
    response: &Option<AgentRunResponse>,
) -> (r: Result<(), String>)
    ensures
        checked(r) == verdict(
            scenario@.expected_notifications,
            scenario@.expected_response,
            views(notifications@),
            opt(*response),
        ),
{
    let ghost patterns = views(scenario.expected_notifications@);
    let ghost log = views(notifications@);
    let mut cursor: usize = 0;
    let mut k: usize = 0;
    assert(patterns.skip(0) =~= patterns);
    while k < scenario.expected_notifications.len()
        invariant
            k <= scenario.expected_notifications@.len(),
            cursor <= notifications@.len(),
            patterns == views(scenario.expected_notifications@),
            log == views(notifications@),
            unmatched(patterns, log, 0) == unmatched(patterns.skip(k as int), log, cursor as int),
        decreases scenario.expected_notifications@.len() - k,
    {
        let pattern = &scenario.expected_notifications[k];
        let ghost rest = patterns.skip(k as int);
        assert(rest[0] == pattern@);
        assert(rest.drop_first() =~= patterns.skip(k + 1));
        let mut i: usize = cursor;
        while i < notifications.len() && !pattern.matches(&notifications[i])
            invariant
                cursor <= i <= notifications@.len(),
                log == views(notifications@),
                next_fit(pattern@, log, cursor as int) == next_fit(pattern@, log, i as int),
            decreases notifications@.len() - i,
        {
            assert(log[i as int] == notifications@[i as int]@);
            i += 1;
        }
        if i < notifications.len() {
            assert(log[i as int] == notifications@[i as int]@);
            cursor = i + 1;
        } else {
            let mut m = "expected notification `".to_owned();
            m.append(pattern.label());
            m.append("` not found after index ");
            m.append(usize_to_string(cursor).as_str());
            return Err(m);
        }
        k += 1;
    }
    check_response(&scenario.expected_response, response)
}

// ---------------------------------------------------------------------------
// Laws
// ---------------------------------------------------------------------------

/// The method by which a notification is sent.
pub open spec fn wire_method(n: NotificationView) -> Seq<char> {
    match n {
        NotificationView::Output { .. } => "agent/output"@,
        NotificationView::Thinking { .. } => "agent/thinking"@,
        NotificationView::ToolCall { .. } => "agent/toolCall"@,
        NotificationView::ToolResult { .. } => "agent/toolResult"@,
        NotificationView::Error { .. } => "agent/error"@,
    }
}

/// Whether an object holds the parameters of a notification.
pub open spec fn holds_params(p: JsonView, n: NotificationView) -> bool {
    match n {
        NotificationView::Output { session_id, text, is_final } => {
            &&& says(p, "session_id"@, session_id)
            &&& says(p, "text"@, text)
            &&& p.get("final"@) == Some(JsonView::Bool(is_final))
        },
        NotificationView::Thinking { session_id, text } => {
            &&& says(p, "session_id"@, session_id)
            &&& says(p, "text"@, text)
        },
        NotificationView::ToolCall { session_id, name, arguments, server } => {
            &&& says(p, "session_id"@, session_id)
            &&& says(p, "name"@, name)
            &&& p.get("arguments"@) == Some(arguments)
            &&& may_say(p, "server"@, server)
        },
        NotificationView::ToolResult { session_id, name, output, success } => {
            &&& says(p, "session_id"@, session_id)
            &&& says(p, "name"@, name)
            &&& p.get("output"@) == Some(output)
            &&& p.get("success"@) == Some(JsonView::Bool(success))
        },
        NotificationView::Error { session_id, message, recoverable } => {
            &&& says(p, "session_id"@, session_id)
            &&& says(p, "message"@, message)
            &&& p.get("recoverable"@) == Some(JsonView::Bool(recoverable))
        },
    }
}

/// Whether a frame sends a notification.
pub open spec fn sends(frame: JsonView, n: NotificationView) -> bool {
    &&& frame.get("id"@) is None
    &&& says(frame, "method"@, wire_method(n))
    &&& frame.get("params"@) matches Some(p) && holds_params(p, n)
}

/// The methods of notifications are all different.
proof fn methods_differ()
    ensures
        "agent/output"@ != "agent/thinking"@,
        "agent/output"@ != "agent/toolCall"@,
        "agent/output"@ != "agent/toolResult"@,
        "agent/output"@ != "agent/error"@,
        "agent/thinking"@ != "agent/toolCall"@,
        "agent/thinking"@ != "agent/toolResult"@,
        "agent/thinking"@ != "agent/error"@,
        "agent/toolCall"@ != "agent/toolResult"@,
        "agent/toolCall"@ != "agent/error"@,
        "agent/toolResult"@ != "agent/error"@,
{
    reveal_strlit("agent/output");
    reveal_strlit("agent/thinking");
    reveal_strlit("agent/toolCall");
    reveal_strlit("agent/toolResult");
    reveal_strlit("agent/error");
    assert("agent/output"@.len() == 12);
    assert("agent/thinking"@.len() == 14);
    assert("agent/toolCall"@.len() == 14);
    assert("agent/toolResult"@.len() == 16);
    assert("agent/error"@.len() == 11);
    assert("agent/thinking"@[7] != "agent/toolCall"@[7]);
}

/// Whatever a notification says is read as it was sent, and no other method is taken for one.
pub proof fn notifications_read_back(p: JsonView, n: NotificationView, method: Seq<char>)
    ensures
        holds_params(p, n) ==> notification_of(wire_method(n), p) == Some(n),
        notification_of(method, p) matches Some(m) ==> method == wire_method(m),
        notification_of(method, p) is None ==> method != wire_method(n),
{
    methods_differ();
}

/// What a plugin leaves out of a notification is empty, null or false, but a tool result is a
/// success unless it says otherwise.
pub proof fn silent_notifications(p: JsonView)
    requires
        forall|k: Seq<char>| (#[trigger] p.get(k)) is None,
    ensures
        ({
            let none = Seq::<char>::empty();
            &&& notification_of("agent/output"@, p) == Some(
                NotificationView::Output { session_id: none, text: none, is_final: false },
            )
            &&& notification_of("agent/thinking"@, p) == Some(
                NotificationView::Thinking { session_id: none, text: none },
            )
            &&& notification_of("agent/toolCall"@, p) == Some(
                NotificationView::ToolCall {
                    session_id: none,
                    name: none,
                    arguments: JsonView::Null,
                    server: None,
                },
            )
            &&& notification_of("agent/toolResult"@, p) == Some(
                NotificationView::ToolResult {
                    session_id: none,
                    name: none,
                    output: JsonView::Null,
                    success: true,
                },
            )
            &&& notification_of("agent/error"@, p) == Some(
                NotificationView::Error { session_id: none, message: none, recoverable: false },
            )
        }),
{
    methods_differ();
}

/// Whether an object holds a run's response.
pub open spec fn holds_response(v: JsonView, r: RunResponseView) -> bool {
    &&& says(v, "session_id"@, r.session_id)
    &&& v.get("exit_code"@) == Some(JsonView::Int(r.exit_code))
    &&& says(v, "output"@, r.output)
}

/// A run's response is read as it was sent.
pub proof fn responses_read_back(v: JsonView, r: RunResponseView)
    requires
        holds_response(v, r),
        i32::MIN <= r.exit_code <= i32::MAX,
    ensures
        run_response_of(v) == Ok::<RunResponseView, Seq<char>>(r),
{
}

/// Whether a response meets each of the demands that are made: it holds the text, it has at least
/// so many bytes, it has the exit code.
pub open spec fn meets(expected: ExpectedResponseView, r: RunResponseView) -> bool {
    &&& expected.output_contains matches Some(part) ==> stands_in_text(part, r.output)
    &&& expected.min_output_len matches Some(min) ==> encode_utf8(r.output).len() >= min
    &&& expected.exit_code matches Some(code) ==> r.exit_code == code
}

/// A response is accepted exactly where it meets every demand; that there is none is accepted
/// exactly where nothing is demanded.
pub proof fn responses_are_held_to_demands(expected: ExpectedResponseView, r: RunResponseView)
    ensures
        (response_verdict(expected, Some(r)) is Ok) == meets(expected, r),
        (response_verdict(expected, None) is Ok) == (expected.output_contains is None
            && expected.min_output_len is None && expected.exit_code is None),
{
    if let Some(part) = expected.output_contains {
        substrings_stand_in_text(part, r.output);
    }
    utf8_len_is_encoded_len(r.output);
}

/// Why a run is refused: the first pattern that nothing fits is named with the place from which it
/// was looked for, and otherwise the first demand that the response does not meet is named with what
/// was there instead.
pub proof fn refusals_name_what_is_missing(
    patterns: Seq<ExpectedView>,
    expected: ExpectedResponseView,
    log: Seq<NotificationView>,
    r: RunResponseView,
)
    ensures
        patterns.len() > 0 && (forall|i: int|
            0 <= i < log.len() ==> !patterns[0].fits(#[trigger] log[i])) ==> verdict(
            patterns,
            expected,
            log,
            Some(r),
        ) == Err::<(), Seq<char>>(
            "expected notification `"@ + patterns[0].label() + "` not found after index "@
                + decimal(0),
        ),
        patterns.len() == 0 ==> {
            let v = verdict(patterns, expected, log, Some(r));
            let len = encode_utf8(r.output).len();
            &&& expected.output_contains is Some && !stands_in_text(
                expected.output_contains->0,
                r.output,
            ) ==> v == Err::<(), Seq<char>>(
                "response.output missing substring `"@ + expected.output_contains->0 + "`"@,
            )
            &&& expected.output_contains is None && expected.min_output_len is Some && len
                < expected.min_output_len->0 ==> v == Err::<(), Seq<char>>(
                "response.output length "@ + decimal(len) + " below min "@ + decimal(
                    expected.min_output_len->0 as nat,
                ),
            )
            &&& expected.output_contains is None && expected.min_output_len is None
                && expected.exit_code is Some && r.exit_code != expected.exit_code->0 ==> v == Err::<
                (),
                Seq<char>,
            >(
                "response.exit_code "@ + signed_decimal(r.exit_code) + " != expected "@
                    + signed_decimal(expected.exit_code->0 as int),
            )
        },
{
    utf8_len_is_encoded_len(r.output);
    if let Some(part) = expected.output_contains {
        substrings_stand_in_text(part, r.output);
    }
    if patterns.len() > 0 && (forall|i: int|
        0 <= i < log.len() ==> !patterns[0].fits(#[trigger] log[i])) {
        nothing_fits(patterns[0], log, 0);
    }
}

proof fn nothing_fits(p: ExpectedView, log: Seq<NotificationView>, from: int)
    requires
        0 <= from,
        forall|i: int| 0 <= i < log.len() ==> !p.fits(#[trigger] log[i]),
    ensures
        next_fit(p, log, from) is None,
    decreases log.len() - from,
{
    if from < log.len() {
        nothing_fits(p, log, from + 1);
    }
}

/// A pattern is named as the notifications that fit it are called on the wire.
pub proof fn patterns_are_named_like_their_notifications(p: ExpectedView, n: NotificationView)
    requires
        p.fits(n),
    ensures
        wire_method(n) == "agent/"@ + p.label(),
{
    reveal_strlit("agent/");
    reveal_strlit("output");
    reveal_strlit("thinking");
    reveal_strlit("toolCall");
    reveal_strlit("toolResult");
    reveal_strlit("error");
    reveal_strlit("agent/output");
    reveal_strlit("agent/thinking");
    reveal_strlit("agent/toolCall");
    reveal_strlit("agent/toolResult");
    reveal_strlit("agent/error");
    assert("agent/"@ + "output"@ =~= "agent/output"@);
    assert("agent/"@ + "thinking"@ =~= "agent/thinking"@);
    assert("agent/"@ + "toolCall"@ =~= "agent/toolCall"@);
    assert("agent/"@ + "toolResult"@ =~= "agent/toolResult"@);
    assert("agent/"@ + "error"@ =~= "agent/error"@);
}

} // verus!
