//! Verified core of a workload supervisor: runtime backends, the manager's
//! registry of live workloads, and the decisions of the transport bridge.

/// Building and comparing text.
pub mod text;
/// Decimal text of numbers, both ways.
pub mod decimal;
/// Environment variables of a workload.
pub mod env;
/// Errors of the supervisor.
pub mod error;
/// What a start request asks for, and the launch built from it.
pub mod config;
/// Ports that container images declare.
pub mod ports;
/// Making sure that a backend's tool is present.
pub mod tooling;
/// The interpreter backends.
pub mod process;
/// The container backend.
pub mod docker;
/// Tearing a cancelled workload down.
pub mod teardown;
/// Serving a backend's stream to network clients.
pub mod bridge;
/// The registry of live workloads.
pub mod manager;

pub use env::EnvVars;
pub use error::{Error, IoErrorKind};
pub use config::{launch_plan, LaunchPlan, RequestParams, ServerConfig, ServerRuntime, SupportedTransportAdapter};
pub use docker::DockerRunner;
pub use process::{JsRunner, PythonRunner};
pub use manager::{AccountId, Server, ServerManager};
