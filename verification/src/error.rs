//! The error taxonomy of the export pipeline.
//!
//! Every fatal error aborts the remaining pipeline stages; warnings are
//! secondary outcomes that never fail an otherwise successful export.

use vstd::prelude::*;

verus! {

/// A fatal error of one pipeline stage.
#[derive(Debug, Clone, PartialEq, Eq)]
pub enum ExportError {
    /// A registry kind keyword was not recognised.
    InvalidRegistryType { value: String },
    /// A build tool keyword was not recognised.
    InvalidEngine { value: String },
    /// A component reference could not be read as a package identifier.
    InvalidPackageIdent { value: String },
    /// A component reference could not be resolved to a concrete unit.
    Resolution { reference: String },
    /// Populating the temporary workspace failed.
    BuildRoot { reason: String },
    /// The container build tool failed; its diagnostic output is kept verbatim.
    EngineBuild { diagnostic: String },
    /// The token exchange with the cloud-managed registry failed.
    TokenFetchFailed { reason: String },
    /// The token exchange answered, but no authorization token was in it.
    NoECRTokensReturned,
    /// Uploading a tag to the registry failed; earlier uploads stay in place.
    Push { reason: String },
    /// Removing the image's local tags failed.
    Remove { reason: String },
    /// The local daemon manages containers of the wrong operating system.
    DockerNotInWindowsMode,
}

/// A secondary, non-fatal outcome of an export.
#[derive(Debug, Clone, PartialEq, Eq)]
pub enum ExportWarning {
    /// Destroying the temporary workspace failed after the build.
    Cleanup { reason: String },
    /// Writing the build report failed; the build itself stands.
    Report { reason: String },
}

impl ExportError {
    /// A human-readable description of the error.
    pub fn message(&self) -> String {
        match self {
            ExportError::InvalidRegistryType { value } => {
                String::from_str("invalid registry type: ").concat(value.as_str())
            },
            ExportError::InvalidEngine { value } => {
                String::from_str("invalid container engine: ").concat(value.as_str())
            },
            ExportError::InvalidPackageIdent { value } => {
                String::from_str("invalid package identifier: ").concat(value.as_str())
            },
            ExportError::Resolution { reference } => {
                String::from_str("cannot resolve component reference: ").concat(reference.as_str())
            },
            ExportError::BuildRoot { reason } => {
                String::from_str("cannot populate the build workspace: ").concat(reason.as_str())
            },
            ExportError::EngineBuild { diagnostic } => {
                String::from_str("container build failed: ").concat(diagnostic.as_str())
            },
            ExportError::TokenFetchFailed { reason } => {
                String::from_str("registry token exchange failed: ").concat(reason.as_str())
            },
            ExportError::NoECRTokensReturned => {
                String::from_str("the registry returned no authorization token")
            },
            ExportError::Push { reason } => {
                String::from_str("pushing the image failed: ").concat(reason.as_str())
            },
            ExportError::Remove { reason } => {
                String::from_str("removing the image failed: ").concat(reason.as_str())
            },
            ExportError::DockerNotInWindowsMode => {
                String::from_str("the container daemon is not in Windows mode")
            },
        }
    }
}

impl ExportWarning {
    /// A human-readable description of the warning.
    pub fn message(&self) -> String {
        match self {
            ExportWarning::Cleanup { reason } => {
                String::from_str("destroying the build workspace failed: ").concat(reason.as_str())
            },
            ExportWarning::Report { reason } => {
                String::from_str("writing the build report failed: ").concat(reason.as_str())
            },
        }
    }
}

} // verus!
