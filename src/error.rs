//! The failure kinds that the engine reports.

use vstd::prelude::*;

verus! {

/// Why an operation failed. "Nothing found" is not a failure and has no
/// variant here: it is an outcome of the acquisition pipeline.
#[derive(Debug)]
pub enum EngineError {
    /// The named provider needs a credential that was not configured.
    CredentialMissing(String),
    /// The provider name is not one the engine knows.
    UnknownProvider(String),
    /// A request could not be sent or answered.
    NetworkFailure(String),
    /// A response body did not have the expected shape.
    MalformedResponse(String),
    /// A required external program is not installed.
    ExternalToolMissing(String),
    /// An external program exited unsuccessfully; its error output is kept.
    ExternalToolFailed(String),
    /// A file or directory operation failed.
    FilesystemFailure(String),
    /// A path is not valid UTF-8.
    NonUtf8Path,
    /// A configuration key that cannot be set.
    UnknownConfigKey(String),
    /// No schedule expression was given or stored.
    MissingCronExpression,
    /// No prebuilt release exists for this operating system and architecture.
    UnsupportedPlatform(String, String),
}

} // verus!
