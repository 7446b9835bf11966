//! The closed error surface of the loader: every fallible operation reports
//! one of these kinds, and low-level I/O failure classes are mapped onto them
//! by a fixed rule.

use vstd::prelude::*;

verus! {

/// The generic error code enum.
///
/// Every fallible operation of this crate reports its failure as one of
/// these kinds. `InternalError` is the escape hatch: its text names the
/// condition that no other kind covers.
#[derive(Debug, Clone, PartialEq, Eq)]
pub enum VPluginError {
    /// Invalid parameters passed to the function, such as a manifest that
    /// does not follow the manifest grammar.
    ParametersError,
    /// The plugin given is not valid for this operation.
    InvalidPlugin,
    /// The file requested is not available.
    NoSuchFile,
    /// Permission to access something on the host system was denied.
    PermissionDenied,
    /// The symbol requested is not present in the bound module.
    MissingSymbol,
    /// The plugin failed to initialize.
    FailedToInitialize,
    /// Internal error: see the `String` parameter to determine what the
    /// error is.
    InternalError(String),
}

/// The failure class of a low-level I/O operation, as the loader reads it.
///
/// The host observes an I/O failure outside this crate and hands its class
/// in as one of these plain values; `Other` stands for every class that has
/// no row of its own.
#[derive(Debug, Clone, Copy, PartialEq, Eq, Structural)]
pub enum IoFailure {
    NotFound,
    PermissionDenied,
    Unsupported,
    Interrupted,
    UnexpectedEof,
    OutOfMemory,
    Other,
}

impl VPluginError {
    /// The fixed mapping from an I/O failure class to the error kind that
    /// the loader reports for it.
    pub fn from_io_failure(f: IoFailure) -> (r: VPluginError)
        ensures
            f == IoFailure::NotFound ==> r == VPluginError::NoSuchFile,
            f == IoFailure::PermissionDenied ==> r == VPluginError::PermissionDenied,
            f == IoFailure::Interrupted ==> r == VPluginError::InvalidPlugin,
            f == IoFailure::UnexpectedEof ==> r == VPluginError::InvalidPlugin,
            f == IoFailure::Unsupported ==> (r matches VPluginError::InternalError(m)
                && m@ == "Unsupported file"@),
            f == IoFailure::OutOfMemory ==> (r matches VPluginError::InternalError(m)
                && m@ == "Host is out of memory"@),
            f == IoFailure::Other ==> (r matches VPluginError::InternalError(m)
                && m@ == "Unknown error."@),
    {
        match f {
            IoFailure::NotFound => VPluginError::NoSuchFile,
            IoFailure::PermissionDenied => VPluginError::PermissionDenied,
            IoFailure::Interrupted => VPluginError::InvalidPlugin,
            IoFailure::UnexpectedEof => VPluginError::InvalidPlugin,
            IoFailure::Unsupported => VPluginError::InternalError(
                String::from_str("Unsupported file"),
            ),
            IoFailure::OutOfMemory => VPluginError::InternalError(
                String::from_str("Host is out of memory"),
            ),
            IoFailure::Other => VPluginError::InternalError(
                String::from_str("Unknown error."),
            ),
        }
    }
}

} // verus!
