use vstd::prelude::*;

verus! {

/// A structural flaw in a batch of test declarations, found before any
/// command is executed.
#[derive(Clone, Debug, PartialEq, Eq)]
pub enum ValidationError {
    /// Two declarations share this name.
    DuplicateName(String),
    /// A declaration with this name checks stderr without pinning an exit
    /// code, which is not a reliable expectation on its own.
    MissingExitCode(String),
}

/// An error that aborts a run.
#[derive(Clone, Debug, PartialEq, Eq)]
pub enum CliError {
    /// The batch of declarations is ill-formed; nothing was executed.
    Validation(ValidationError),
    /// A captured output stream was not valid UTF-8, so the test's outcome
    /// could not be determined.
    InvalidUtf8,
}

} // verus!
