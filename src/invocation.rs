use vstd::prelude::*;
use crate::catalog::{ScannerType, Scanner, catalog_command, catalog_args};
use crate::target::Target;
use crate::template::{render, rendered, strings_view, uses_host};

verus! {

/// A failure to start a scanner's process.
#[derive(Debug, Clone, PartialEq, Eq)]
pub enum LaunchError {
    /// The executable is not on the search path.
    NotFound(ScannerType),
    /// The operating system refused to create the process; its reason is attached.
    OsRejected(ScannerType, String),
}

/// Why a scanner could not be run against a target.
#[derive(Debug, Clone, PartialEq, Eq)]
pub enum ScanError {
    /// The scanner's template needs a host and the target has none.
    HostResolution(ScannerType),
    /// The process could not be started.
    Launch(LaunchError),
}

/// The exact command line of one scanner run: the executable and its
/// argument vector, passed to the process without any shell.
#[derive(Debug, Clone, PartialEq, Eq)]
pub struct Invocation {
    pub program: String,
    pub args: Vec<String>,
}

/// The command line that runs scanner `kind` against `target`: the catalog's
/// executable with its template rendered against the target. Fails with
/// `HostResolution(kind)` exactly when the template needs a host that the
/// target lacks.
pub fn prepare(kind: ScannerType, target: &Target) -> (r: Result<Invocation, ScanError>)
    ensures
        r.is_ok() == !(uses_host(catalog_args(kind)) && target.host_view() is None),
        r matches Ok(inv) ==> inv.program@ == catalog_command(kind) && rendered(
            catalog_args(kind),
            target.url_view(),
            target.host_view(),
        ) == Some(strings_view(inv.args@)),
        r matches Err(e) ==> e == ScanError::HostResolution(kind),
{
    let scanner = Scanner::new(kind);
    match render(scanner.args(), target) {
        Some(args) => Ok(Invocation { program: scanner.command().to_owned(), args }),
        None => Err(ScanError::HostResolution(kind)),
    }
}

/// Classifies a failed process start of scanner `kind`: a missing executable
/// is `NotFound`, any other refusal is `OsRejected` with the system's reason.
pub fn launch_failure(kind: ScannerType, not_found: bool, cause: String) -> (r: ScanError)
    ensures
        r == (if not_found {
            ScanError::Launch(LaunchError::NotFound(kind))
        } else {
            ScanError::Launch(LaunchError::OsRejected(kind, cause))
        }),
{
    if not_found {
        ScanError::Launch(LaunchError::NotFound(kind))
    } else {
        ScanError::Launch(LaunchError::OsRejected(kind, cause))
    }
}

} // verus!
