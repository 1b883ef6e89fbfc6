use vstd::prelude::*;
use crate::arguments::{check_arguments, valid_arguments, AnalysisError};
use crate::callback::{fresh_shim, CallbackShim};

verus! {

/// How one run of the compiler driver ended.
#[derive(Clone, Copy, Debug, PartialEq, Eq, Structural)]
pub enum DriverOutcome {
    /// The driver returned normally, having been stopped after analysis.
    Completed,
    /// The driver returned and reported compilation errors.
    ReportedErrors,
    /// A fatal failure inside the driver was caught at the isolation boundary.
    Aborted,
}

/// Every driver failure folds into the one `CompilerError`.
pub open spec fn outcome_result(o: DriverOutcome) -> Result<(), AnalysisError> {
    match o {
        DriverOutcome::Completed => Ok(()),
        _ => Err(AnalysisError::CompilerError),
    }
}

/// Maps how the driver ended to the caller's result.
pub fn driver_result(o: DriverOutcome) -> (r: Result<(), AnalysisError>)
    ensures
        r == outcome_result(o),
{
    match o {
        DriverOutcome::Completed => Ok(()),
        _ => Err(AnalysisError::CompilerError),
    }
}

/// Generates the analysis dump for one compilation unit.
///
/// `arguments` are the compiler's arguments, the first of them the empty
/// string. An invalid list is rejected before `run_compiler` is called. Else a
/// fresh callback bound to `output_dir` and `output_file_name` is built, and
/// `run_compiler` runs the driver on `arguments` with that callback registered,
/// behind a boundary that catches fatal failures.
pub fn generate_analysis<F: FnOnce(Vec<String>, CallbackShim) -> DriverOutcome>(
    arguments: Vec<String>,
    output_dir: String,
    output_file_name: String,
    run_compiler: F,
) -> (r: Result<(), AnalysisError>)
    requires
        valid_arguments(arguments@) ==> run_compiler.requires(
            (arguments, fresh_shim(output_dir, output_file_name)),
        ),
    ensures
        !valid_arguments(arguments@) ==> r == Err::<(), AnalysisError>(
            AnalysisError::InvalidArguments,
        ),
        valid_arguments(arguments@) ==> exists|o: DriverOutcome|
            run_compiler.ensures((arguments, fresh_shim(output_dir, output_file_name)), o)
                && r == outcome_result(o),
{
    match check_arguments(&arguments) {
        Err(e) => Err(e),
        Ok(()) => {
            let shim = CallbackShim::new(output_dir, output_file_name);
            let outcome = run_compiler(arguments, shim);
            driver_result(outcome)
        },
    }
}

} // verus!
