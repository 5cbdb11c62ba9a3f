//! Unified Linux system diagnostics: a uniform module contract, a severity-ranked
//! report model, and a runner that isolates each module's outcome.

pub mod cli;
pub mod framework;
pub mod modules;
pub mod output;
pub mod utils;

pub use cli::{Cli, Commands, OutputFormat, Shell};
pub use framework::{
    run_all_modules, run_module, DiagnosticModule, DiagnosticReport, ExecutionError, Finding,
    FloatBits, Metric, MetricValue, ModuleConfig, ModuleError, Permission, Reading,
    Recommendation, Severity, Threshold, Timestamp,
};
pub use modules::{all_modules, get_module};
