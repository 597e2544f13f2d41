//! The baseline scenarios for provider plugins.

use crate::loader::{DirEntry, EntryView};
use crate::model::{ScenarioFile, ScenarioView};
use crate::scenario::{parse_scenario, scenario_text};
use crate::suite::concat3;
use crate::views::{group_views, list_outcome, views};
use vstd::prelude::*;

verus! {

broadcast use group_views;

/// Declares `streaming-short`.
pub const STREAMING_SHORT: &'static str = "name: streaming-short
description: Three short deltas and the aggregated text.
timeout_ms: 10000
request:
  prompt: \"say hello\"
  model: mock-model
expected_notifications:
  - kind: output
    contains: \"Hello\"
allow_extra_notifications: true
expected_response:
  output_contains: \"Hello world!\"
  exit_code: 0
mock:
  tool: codex
  mock_scenario: streaming-short
";

/// Declares `streaming-medium`.
pub const STREAMING_MEDIUM: &'static str = "name: streaming-medium
description: About forty deltas, as a check of buffering.
timeout_ms: 10000
request:
  prompt: \"count to forty\"
  model: mock-model
expected_notifications:
  - kind: output
    contains: \"word0\"
allow_extra_notifications: true
expected_response:
  output_contains: \"word39\"
  min_output_len: 200
  exit_code: 0
mock:
  tool: codex
  mock_scenario: streaming-medium
";

/// Declares `streaming-long`.
pub const STREAMING_LONG: &'static str = "name: streaming-long
description: About three hundred deltas, as a check of back-pressure and of large output.
timeout_ms: 20000
request:
  prompt: \"write at length\"
  model: mock-model
expected_notifications:
  - kind: output
    contains: \"token0\"
allow_extra_notifications: true
expected_response:
  output_contains: \"token299\"
  min_output_len: 2000
  exit_code: 0
mock:
  tool: codex
  mock_scenario: streaming-long
";

/// Declares `tool-call-single`.
pub const TOOL_CALL_SINGLE: &'static str = "name: tool-call-single
description: One tool call and its result, with output around them.
timeout_ms: 10000
skip_if_capabilities:
  - \"$harness/oai-style\"
request:
  prompt: \"list the files\"
  model: mock-model
expected_notifications:
  - kind: output
    contains: \"Looking up\"
  - kind: tool_call
    name: shell
  - kind: tool_result
allow_extra_notifications: true
expected_response:
  output_contains: \"done.\"
  exit_code: 0
mock:
  tool: codex
  mock_scenario: tool-call-single
";

/// Declares `tool-call-parallel`.
pub const TOOL_CALL_PARALLEL: &'static str = "name: tool-call-parallel
description: Two tool calls at once, and their results.
timeout_ms: 10000
skip_if_capabilities:
  - \"$harness/oai-style\"
request:
  prompt: \"where am I, and who\"
  model: mock-model
expected_notifications:
  - kind: tool_call
    name: shell
  - kind: tool_call
    name: shell
  - kind: tool_result
  - kind: tool_result
allow_extra_notifications: true
expected_response:
  output_contains: \"complete.\"
  exit_code: 0
mock:
  tool: codex
  mock_scenario: tool-call-parallel
";

/// Declares `tool-call-single-oai`.
pub const TOOL_CALL_SINGLE_OAI: &'static str = "name: tool-call-single-oai
description: A stateless tool call, which the host is left to execute.
timeout_ms: 10000
requires_capabilities:
  - \"$harness/oai-style\"
request:
  prompt: \"list the files\"
  model: gpt-5
expected_notifications:
  - kind: output
    contains: \"Looking up\"
  - kind: tool_call
    name: shell
allow_extra_notifications: true
mock:
  tool: oai
  mock_scenario: tool-call-single
";

/// Declares `tool-call-parallel-oai`.
pub const TOOL_CALL_PARALLEL_OAI: &'static str = "name: tool-call-parallel-oai
description: Two stateless tool calls at once, which the host is left to execute.
timeout_ms: 10000
requires_capabilities:
  - \"$harness/oai-style\"
request:
  prompt: \"where am I, and who\"
  model: gpt-5
expected_notifications:
  - kind: tool_call
    name: shell
  - kind: tool_call
    name: shell
allow_extra_notifications: true
mock:
  tool: oai
  mock_scenario: tool-call-parallel
";

/// Declares `error-recovery`.
pub const ERROR_RECOVERY: &'static str = "name: error-recovery
description: A garbled line in the stream, which the provider has to pass over.
timeout_ms: 10000
request:
  prompt: \"keep going\"
  model: mock-model
expected_notifications:
  - kind: output
    contains: \"Working\"
allow_extra_notifications: true
expected_response:
  output_contains: \"recovered.\"
  exit_code: 0
mock:
  tool: codex
  mock_scenario: error-recovery
";

/// Declares `cancellation`.
pub const CANCELLATION: &'static str = "name: cancellation
description: The run is cancelled while it streams.
timeout_ms: 8000
requires_capabilities:
  - \"$harness/cancellation-loop-v2\"
cancel_after_ms: 100
request:
  prompt: \"stream until cancelled\"
  model: mock-model
allow_extra_notifications: true
mock:
  tool: opencode
  mock_scenario: cancellation
";

/// Declares `resume-session`.
pub const RESUME_SESSION: &'static str = "name: resume-session
description: A run that takes up an earlier session.
timeout_ms: 10000
method: resume
requires_capabilities:
  - agent/resume
request:
  prompt: \"go on\"
  model: mock-model
  session_id: mock-session-resume-session
expected_notifications:
  - kind: output
    contains: \"Hello\"
allow_extra_notifications: true
expected_response:
  output_contains: \"Hello\"
  exit_code: 0
mock:
  tool: codex
  mock_scenario: resume-session
";

/// The names of the baseline scenarios with the files that declare them, in order.
pub open spec fn baseline_files() -> Seq<(Seq<char>, Seq<char>)> {
    seq![
        ("streaming-short"@, STREAMING_SHORT@),
        ("streaming-medium"@, STREAMING_MEDIUM@),
        ("streaming-long"@, STREAMING_LONG@),
        ("tool-call-single"@, TOOL_CALL_SINGLE@),
        ("tool-call-parallel"@, TOOL_CALL_PARALLEL@),
        ("tool-call-single-oai"@, TOOL_CALL_SINGLE_OAI@),
        ("tool-call-parallel-oai"@, TOOL_CALL_PARALLEL_OAI@),
        ("error-recovery"@, ERROR_RECOVERY@),
        ("cancellation"@, CANCELLATION@),
        ("resume-session"@, RESUME_SESSION@),
    ]
}

/// The files, as a table.
fn baseline_table() -> (r: Vec<(&'static str, &'static str)>)
    ensures
        r@.len() == baseline_files().len(),
        forall|i: int|
            0 <= i < r@.len() ==> ((#[trigger] r@[i]).0@, r@[i].1@) == baseline_files()[i],
{
    let mut r: Vec<(&'static str, &'static str)> = Vec::new();
    r.push(("streaming-short", STREAMING_SHORT));
    r.push(("streaming-medium", STREAMING_MEDIUM));
    r.push(("streaming-long", STREAMING_LONG));
    r.push(("tool-call-single", TOOL_CALL_SINGLE));
    r.push(("tool-call-parallel", TOOL_CALL_PARALLEL));
    r.push(("tool-call-single-oai", TOOL_CALL_SINGLE_OAI));
    r.push(("tool-call-parallel-oai", TOOL_CALL_PARALLEL_OAI));
    r.push(("error-recovery", ERROR_RECOVERY));
    r.push(("cancellation", CANCELLATION));
    r.push(("resume-session", RESUME_SESSION));
    r
}

/// The baseline files, as the files of a directory.
pub fn baseline_entries() -> (r: Vec<DirEntry>)
    ensures
        r@.len() == baseline_files().len(),
        forall|i: int|
            0 <= i < r@.len() ==> (#[trigger] r@[i])@ == (EntryView {
                path: "scenarios/"@ + baseline_files()[i].0 + ".yaml"@,
                extension: "yaml"@,
                content: Ok(baseline_files()[i].1),
            }),
{
    let table = baseline_table();
    let mut r: Vec<DirEntry> = Vec::new();
    let mut i: usize = 0;
    while i < table.len()
        invariant
            i <= table@.len(),
            r@.len() == i,
            table@.len() == baseline_files().len(),
            forall|k: int|
                0 <= k < table@.len() ==> ((#[trigger] table@[k]).0@, table@[k].1@)
                    == baseline_files()[k],
            forall|k: int|
                0 <= k < i ==> (#[trigger] r@[k])@ == (EntryView {
                    path: "scenarios/"@ + baseline_files()[k].0 + ".yaml"@,
                    extension: "yaml"@,
                    content: Ok(baseline_files()[k].1),
                }),
        decreases table@.len() - i,
    {
        let (name, raw) = table[i];
        assert((table@[i as int].0@, table@[i as int].1@) == baseline_files()[i as int]);
        r.push(
            DirEntry {
                path: concat3("scenarios/", name, ".yaml"),
                extension: "yaml".to_owned(),
                content: Ok(raw.to_owned()),
            },
        );
        i += 1;
    }
    r
}

/// The scenarios that the files declare, or the first of them that declares none.
pub open spec fn declared(files: Seq<(Seq<char>, Seq<char>)>) -> Result<Seq<ScenarioView>, Seq<char>>
    decreases files.len(),
{
    if files.len() == 0 {
        Ok(Seq::empty())
    } else {
        match declared(files.drop_last()) {
            Err(e) => Err(e),
            Ok(list) => match scenario_text(files.last().1) {
                Err(e) => Err(
                    "baseline scenario `"@ + files.last().0 + "` failed to parse: "@ + e,
                ),
                Ok(s) => Ok(list.push(s)),
            },
        }
    }
}

proof fn declared_error_stays(files: Seq<(Seq<char>, Seq<char>)>, upto: int)
    requires
        0 <= upto <= files.len(),
        declared(files.take(upto)) is Err,
    ensures
        declared(files) == declared(files.take(upto)),
    decreases files.len(),
{
    if upto == files.len() {
        assert(files.take(upto) =~= files);
    } else {
        assert(files.drop_last().take(upto) =~= files.take(upto));
        declared_error_stays(files.drop_last(), upto);
    }
}

/// Loads the baseline scenarios, in their order.
pub fn baseline_scenarios() -> (r: Result<Vec<ScenarioFile>, String>)
    ensures
        list_outcome(r) == declared(baseline_files()),
        r matches Ok(list) ==> list@.len() == 10,
{
    let table = baseline_table();
    let ghost files = baseline_files();
    let mut list: Vec<ScenarioFile> = Vec::new();
    let mut i: usize = 0;
    assert(files.take(0) =~= Seq::<(Seq<char>, Seq<char>)>::empty());
    while i < table.len()
        invariant
            i <= table@.len(),
            files == baseline_files(),
            table@.len() == files.len(),
            list@.len() == i,
            forall|k: int| 0 <= k < table@.len() ==> ((#[trigger] table@[k]).0@, table@[k].1@) == files[k],
            declared(files.take(i as int)) == Ok::<Seq<ScenarioView>, Seq<char>>(views(list@)),
        decreases table@.len() - i,
    {
        let (name, raw) = table[i];
        assert((table@[i as int].0@, table@[i as int].1@) == files[i as int]);
        assert(files.take(i + 1).drop_last() =~= files.take(i as int));
        match parse_scenario(raw) {
            Ok(s) => {
                list.push(s);
            },
            Err(e) => {
                let mut m = "baseline scenario `".to_owned();
                m.append(name);
                m.append("` failed to parse: ");
                m.append(e.as_str());
                proof {
                    declared_error_stays(files, i + 1);
                }
                return Err(m);
            },
        }
        i += 1;
    }
    assert(files.take(i as int) =~= files);
    Ok(list)
}

/// Files that load give one scenario each, in their order, and each is what its file declares; where
/// one of them declares none, all of them are refused.
pub proof fn files_are_declared_in_order(files: Seq<(Seq<char>, Seq<char>)>, i: int)
    requires
        0 <= i < files.len(),
    ensures
        declared(files) matches Ok(list) ==> list.len() == files.len() && scenario_text(files[i].1)
            == Ok::<ScenarioView, Seq<char>>(list[i]),
        scenario_text(files[i].1) is Err ==> declared(files) is Err,
    decreases files.len(),
{
    if i < files.len() - 1 {
        files_are_declared_in_order(files.drop_last(), i);
    } else if files.len() > 1 {
        files_are_declared_in_order(files.drop_last(), 0);
    }
}

} // verus!
