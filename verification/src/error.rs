//! The failure taxonomy of the launcher. Every failure is fatal: the driver
//! prints a diagnostic and terminates abnormally. Nothing is retried.

use vstd::prelude::*;

verus! {

/// Everything that can go wrong between receiving the policy and the command
/// and replacing the process image.
#[derive(Clone, Copy, Debug, PartialEq, Eq, Structural)]
pub enum LaunchError {
    /// The command vector was empty: there is nothing to execute.
    EmptyCommand,
    /// An argument held an embedded NUL byte and cannot be encoded for the
    /// process-replacing execution call.
    NulByteInArgument,
    /// Installing the network filter failed. There is no fallback for it, so
    /// this is always fatal.
    NetworkFilterFailed,
    /// Installing the native filesystem rules failed and the fallback tool is
    /// not available either.
    FilesystemRulesFailed,
    /// A writable root could not be canonicalized (it does not exist or is
    /// inaccessible), so no bind pair can be built for it.
    RootNotCanonicalizable,
    /// The process-replacing execution call itself returned, which only
    /// happens on failure.
    ExecFailed,
}

impl LaunchError {
    /// The diagnostic text for this error, fixed per variant.
    pub fn message(&self) -> (m: String)
        ensures
            *self is EmptyCommand ==> m@ == "no command specified to execute"@,
            *self is NulByteInArgument ==> m@ == "argument holds an embedded NUL byte"@,
            *self is NetworkFilterFailed ==> m@ == "error installing the network filter"@,
            *self is FilesystemRulesFailed ==> m@
                == "error installing filesystem rules and the fallback tool is not available"@,
            *self is RootNotCanonicalizable ==> m@ == "error canonicalizing a writable root"@,
            *self is ExecFailed ==> m@ == "failed to execute the final command"@,
    {
        match self {
            LaunchError::EmptyCommand => "no command specified to execute".to_owned(),
            LaunchError::NulByteInArgument => "argument holds an embedded NUL byte".to_owned(),
            LaunchError::NetworkFilterFailed => "error installing the network filter".to_owned(),
            LaunchError::FilesystemRulesFailed => {
                "error installing filesystem rules and the fallback tool is not available".to_owned()
            },
            LaunchError::RootNotCanonicalizable => {
                "error canonicalizing a writable root".to_owned()
            },
            LaunchError::ExecFailed => "failed to execute the final command".to_owned(),
        }
    }
}

} // verus!
