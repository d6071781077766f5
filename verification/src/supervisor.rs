//! Commands relating to a supervisor's control gateway secret.

use vstd::prelude::*;

verus! {

/// A control gateway secret subcommand.
#[derive(Clone, Copy, Debug, PartialEq, Eq, Structural)]
pub enum Secret {
    /// Generate a secret key to use as a supervisor's control gateway secret.
    Generate,
}

} // verus!
