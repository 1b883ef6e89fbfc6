//! Drives a compiler through one compilation unit and captures its semantic
//! analysis instead of its build artifacts.
//!
//! The library holds the decisions of that protocol: which invocations are
//! accepted, what the lifecycle callback does at each hook, the fixed
//! configuration record handed to the analysis serializer, and how the driver's
//! outcome maps to the caller's result. Running the compiler itself is the
//! caller's part, handed in as a closure.
mod arguments;
mod callback;
mod config;
mod driver;

pub use arguments::{check_arguments, valid_arguments, AnalysisError};
pub use callback::{
    fresh_shim, stage_after_config, AnalysisDump, CallbackShim, CaptureStage, Compilation,
};
pub use config::{
    bool_json, config_json, config_variable, config_variable_name, full_capture,
    SaveAnalysisConfig,
};
pub use driver::{driver_result, generate_analysis, outcome_result, DriverOutcome};
