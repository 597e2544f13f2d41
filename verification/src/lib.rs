//! Verified core of a conformance testkit for stdio JSON-RPC plugins.

pub mod bench;
pub mod bench_matrix;
pub mod bench_report;
pub mod codec;
pub mod conformance;
pub mod driver;
pub mod fake_plugin;
pub mod fields;
pub mod harness;
pub mod json;
pub mod launch;
pub mod loader;
pub mod log_storage;
pub mod mock;
pub mod model;
pub mod oai;
pub mod provider;
pub mod report;
pub mod rpc;
pub mod run;
pub mod scenario;
pub mod stats;
pub mod subject;
pub mod suite;
pub mod text;
pub mod time;
pub mod transport;
pub mod trigger;
pub mod views;
