//! The configuration value the supervisor is started with, and the
//! resolution of the command it supervises.

use vstd::prelude::*;
use vstd::string::StringExecFns;
use std::collections::HashMap;

use crate::strutil::{join_spaces, spec_join_spaces, views_of};

verus! {

/// The externally supplied configuration: a primary command, an optional
/// entrypoint prepended to it, and an optional environment mapping.  The
/// core treats this as an immutable value object; the environment mapping
/// is only handed on to the process that spawns the child.
pub struct Config {
    /// If defined, the entrypoint the primary command's arguments are passed to.
    pub entrypoint: Option<Vec<String>>,
    /// The main program the system will run; must be non-empty.
    pub cmd: Vec<String>,
    /// Mapping of environment variables to their values.
    pub environment: Option<HashMap<String, String>>,
}

/// A configuration is usable when the primary command names a program and,
/// if an entrypoint is given, that entrypoint names one too.
pub open spec fn valid_config(c: &Config) -> bool {
    &&& c.cmd@.len() > 0
    &&& match c.entrypoint {
        Some(e) => e@.len() > 0,
        None => true,
    }
}

/// The argument vector the supervised child is spawned with: the
/// entrypoint, if present, prepended to the primary command.
pub open spec fn spec_resolved_command(c: &Config) -> Seq<String> {
    match c.entrypoint {
        Some(e) => e@ + c.cmd@,
        None => c.cmd@,
    }
}

/// Resolves the command to execute from the configuration.
pub fn resolve_command(c: &Config) -> (r: Vec<String>)
    requires
        valid_config(c),
    ensures
        r@ == spec_resolved_command(c),
        r@.len() > 0,
{
    let mut r: Vec<String> = Vec::new();
    if let Some(entrypoint) = &c.entrypoint {
        let n = entrypoint.len();
        for i in 0..n
            invariant
                n == entrypoint@.len(),
                r@ == entrypoint@.take(i as int),
        {
            r.push(entrypoint[i].clone());
        }
        assert(r@ == entrypoint@);
    }
    let ghost prefix = r@;
    let m = c.cmd.len();
    for i in 0..m
        invariant
            m == c.cmd@.len(),
            r@ == prefix + c.cmd@.take(i as int),
    {
        r.push(c.cmd[i].clone());
    }
    assert(r@ == prefix + c.cmd@);
    assert(r@ == spec_resolved_command(c));
    r
}

/// The single command line the service templates render: the entrypoint
/// words joined with spaces, a space, and the primary command's words
/// joined with spaces — or only the latter when no entrypoint is given.
pub open spec fn spec_command_string(c: &Config) -> Seq<char> {
    match c.entrypoint {
        Some(e) => spec_join_spaces(views_of(e@)) + seq![' '] + spec_join_spaces(views_of(c.cmd@)),
        None => spec_join_spaces(views_of(c.cmd@)),
    }
}

/// Renders the resolved command as one space-separated line.
pub fn command_string(c: &Config) -> (r: String)
    ensures
        r@ == spec_command_string(c),
{
    match &c.entrypoint {
        Some(entrypoint) => {
            let mut s = join_spaces(entrypoint);
            s.append(" ");
            let tail = join_spaces(&c.cmd);
            s.append(tail.as_str());
            proof {
                reveal_strlit(" ");
                assert(" "@ =~= seq![' ']);
                assert(s@ =~= spec_command_string(c));
            }
            s
        },
        None => join_spaces(&c.cmd),
    }
}

} // verus!
