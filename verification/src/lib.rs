//! Build-and-publish pipeline for container images assembled from packages.
//!
//! The library resolves a build specification to a set of fully qualified
//! package identifiers, computes the image name and tag list from a naming
//! policy, models the temporary build workspace with a strict cleanup
//! discipline, resolves registry credentials, and sequences the whole export
//! as a state machine whose outside work (subprocesses, network) is performed
//! by a driver.

pub mod buildspec;
pub mod engine;
pub mod error;
pub mod export;
pub mod ident;
pub mod image;
pub mod naming;
pub mod rbac;
pub mod registry;
pub mod supervisor;
