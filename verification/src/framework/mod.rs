//! Severity, the report model, the module contract and the runner.

pub mod float_bits;
pub mod report;
pub mod runner;
pub mod severity;
pub mod traits;

pub use float_bits::{FloatBits, Reading};
pub use report::{
    DiagnosticReport, Finding, Metric, MetricValue, Recommendation, Threshold, Timestamp,
};
pub use runner::{run_all_modules, run_module, split_outcomes, ModuleError};
pub use severity::Severity;
pub use traits::{DiagnosticModule, ExecutionError, ModuleConfig, Permission};
