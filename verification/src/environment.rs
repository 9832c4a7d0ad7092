//! An alternative configuration surface: the pair of environment variables
//! that may name the entrypoint and the command.

use vstd::prelude::*;

verus! {

/// Configuration read from environment variables rather than the
/// configuration file.
pub struct Environment {
    /// If defined, the entrypoint the primary command's arguments are passed to.
    pub minit_entrypoint_path: Option<String>,
    /// If defined, the command the supervisor hands to exec.
    pub minit_cmd: Option<String>,
}

} // verus!
