//! The error taxonomy of the orchestrator: recoverable "no project"
//! situations are reported as `None` by the loader, everything here is
//! fatal and makes the process exit with code 1.

use vstd::prelude::*;

verus! {

/// Every failure the engine can surface. Subprocess failures carry no
/// payload: nothing is retried and no partial result is kept.
#[derive(Clone, Copy, Debug, PartialEq, Eq, Structural)]
pub enum MuCliError {
    /// The persisted config and state documents disagree structurally
    /// (the per-function lists cannot be paired up).
    StructuralMismatch,
    /// A unit names a backend kind that has no implementation.
    UnsupportedBackend,
    /// A frontend names a template kind that has no implementation.
    UnsupportedTemplate,
    /// The native release compile exited with a non-zero status.
    CompileFailed,
    /// The interface-extraction step exited with a non-zero status.
    ExtractFailed,
    /// The interface description could not be parsed, type-checked and
    /// compiled into client bindings.
    BindingsFailed,
    /// The deploy subcommand exited with a non-zero status.
    DeployFailed,
    /// The identifier-mapping file has no local entry for this unit.
    MissingCanisterId,
}

/// The one-line description printed to standard error for each error.
pub open spec fn spec_message(e: MuCliError) -> Seq<char> {
    match e {
        MuCliError::StructuralMismatch => "config and state lists do not match"@,
        MuCliError::UnsupportedBackend => "unsupported backend"@,
        MuCliError::UnsupportedTemplate => "unsupported template"@,
        MuCliError::CompileFailed => "Failed to build ICP project"@,
        MuCliError::ExtractFailed => "Failed to extract candid file"@,
        MuCliError::BindingsFailed => "Failed to generate JavaScript bindings"@,
        MuCliError::DeployFailed => "Failed to deploy ICP project"@,
        MuCliError::MissingCanisterId => "no canister id recorded for this function"@,
    }
}

impl MuCliError {
    /// The message a fatal failure prints before the process exits.
    pub fn message(&self) -> (r: String)
        ensures
            r@ == spec_message(*self),
    {
        match self {
            MuCliError::StructuralMismatch => "config and state lists do not match".to_owned(),
            MuCliError::UnsupportedBackend => "unsupported backend".to_owned(),
            MuCliError::UnsupportedTemplate => "unsupported template".to_owned(),
            MuCliError::CompileFailed => "Failed to build ICP project".to_owned(),
            MuCliError::ExtractFailed => "Failed to extract candid file".to_owned(),
            MuCliError::BindingsFailed => "Failed to generate JavaScript bindings".to_owned(),
            MuCliError::DeployFailed => "Failed to deploy ICP project".to_owned(),
            MuCliError::MissingCanisterId => "no canister id recorded for this function".to_owned(),
        }
    }
}

} // verus!
