# plugin_testkit

A conformance testkit for Animus plugins, which speak JSON-RPC over their standard streams. The
library decides what is sent to a plugin, what to make of each line that comes back, and how a
scenario is judged; every function of it is verified with Verus. Processes, sockets, files, clocks
and the command line are in `app/`, which asks the library what to do next and does it.

## Provider scenarios

| Module                        | What it holds                                                    |
| ----------------------------- | ---------------------------------------------------------------- |
| `model`                       | scenarios, notifications, results, reports                       |
| `scenario`, `loader`          | scenario files in YAML, and directories of them                  |
| `provider`                    | the ten baseline scenarios                                       |
| `harness`                     | decoding what a plugin sends, and the verdict on a finished run  |
| `run`                         | one run: gating, the request, cancellation, time, the result     |
| `driver`                      | a scenario from launch to result, as a state machine             |
| `report`                      | reports, how they are shown, the exit code                       |
| `conformance`                 | a run as a whole: one result on each name, in order              |
| `launch`                      | the environment in which a plugin meets the mocks                |

A run that is to be cancelled waits for the first notification that names a session, lets the delay
pass, and sends `agent/cancel` for that session. It passes where the plugin, within the scenario's
time, ends the run with the error code of a cancelled request or reports an error that is not
recoverable. That counts even where the cancellation was not out yet.

## Suites for backend plugins

`subject`, `transport`, `trigger` and `log_storage` hold one suite each, built on `suite`. A check is
a machine that names the next call and takes its answer, until it ends with a status. `conformance`
walks the checks of a suite and puts their results into the report.

## Benchmark

`bench` measures one run; `bench_matrix` walks the matrix of plugins, scenarios and models; `stats`
sorts and takes percentiles by the nearest rank; `bench_report` keeps the cases and writes what is
printed and the CSV rows. Averages and rates are given as their integer parts.

## Mocks

`mock` plays the scripts of four command-line tools, `oai` those of an OpenAI-compatible server, and
`fake_plugin` is a provider that streams until it is cancelled.

## Foundations

`text` and `views` hold text operations and views of lists; `json` the JSON values; `fields` strict
readers of their members; `rpc` frames, responses and the handshake. `codec` and `time` are where
`serde_json`, `serde_yaml` and `chrono` are called: the contracts of the few functions there that are
marked `external_body` are trusted, and each says what it takes from the outside crate.

## The programs

`app/` is one binary that acts by the name it is called by: `animus-plugin-harness`,
`animus-plugin-bench`, `mock-oai`, `fake-cancellable-plugin`, and the name of a tool, with `mock-`
before it or without.

```text
animus-plugin-harness conformance --plugin <path> [--kind subject] [--report-json <path>]
animus-plugin-harness list-scenarios [--scenarios <dir>]
animus-plugin-bench --plugin <path> [--suite full] [--iterations 10] [--report-csv <path>]
```
