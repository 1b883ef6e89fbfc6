use vstd::prelude::*;

verus! {

/// The two failures a caller can tell apart.
#[derive(Clone, Copy, Debug, PartialEq, Eq, Structural)]
pub enum AnalysisError {
    /// The argument list is empty, or its first element is not the empty
    /// string that the driver expects in place of a program name.
    InvalidArguments,
    /// The driver reported errors or aborted.
    CompilerError,
}

impl AnalysisError {
    /// A one-line description of the failure.
    pub fn message(&self) -> (r: String)
        ensures
            *self == AnalysisError::InvalidArguments ==> r@ == invalid_arguments_message(),
            *self == AnalysisError::CompilerError ==> r@ == compiler_error_message(),
    {
        match self {
            AnalysisError::InvalidArguments => {
                String::from_str("Arguments vector must be non-empty with an empty string first")
            },
            AnalysisError::CompilerError => String::from_str("A compiler error occurred"),
        }
    }
}

pub open spec fn invalid_arguments_message() -> Seq<char> {
    "Arguments vector must be non-empty with an empty string first"@
}

pub open spec fn compiler_error_message() -> Seq<char> {
    "A compiler error occurred"@
}

/// An invocation is accepted when it has at least one argument and the first
/// one is the empty string.
pub open spec fn valid_arguments(arguments: Seq<String>) -> bool {
    arguments.len() > 0 && arguments[0]@.len() == 0
}

/// Accepts or rejects an invocation's argument list before any compiler runs.
pub fn check_arguments(arguments: &Vec<String>) -> (r: Result<(), AnalysisError>)
    ensures
        r is Ok <==> valid_arguments(arguments@),
        r is Err ==> r == Err::<(), AnalysisError>(AnalysisError::InvalidArguments),
{
    if arguments.len() == 0 {
        return Err(AnalysisError::InvalidArguments);
    }
    if !arguments[0].as_str().is_empty() {
        return Err(AnalysisError::InvalidArguments);
    }
    Ok(())
}

} // verus!
