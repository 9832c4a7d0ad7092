//! The OpenRC service script rendered for the supervised command.

use vstd::prelude::*;
use vstd::string::StringExecFns;

use crate::config::{valid_config, Config};
use crate::strutil::{spec_join_spaces, views_of, join_spaces_from};

verus! {

/// The full text of the OpenRC service script: the program is the first
/// word of the primary command, its arguments are the remaining words
/// joined with spaces.
pub open spec fn spec_openrc_service(c: &Config) -> Seq<char>
    recommends
        c.cmd@.len() > 0,
{
    "\n#!/sbin/openrc-run\n\ndescription=\"Run main command on startup\"\n\ncommand=\""@
        + c.cmd@[0]@
        + "\"\ncommand_args=\""@
        + spec_join_spaces(views_of(c.cmd@.skip(1)))
        + "\"\ncommand_background=false\n\ndepend() {\n    after *\n}\n"@
}

/// Renders the OpenRC service script for the configured command.
pub fn get_service_definition(config: &Config) -> (r: String)
    requires
        valid_config(config),
    ensures
        r@ == spec_openrc_service(config),
{
    let mut r = String::from_str(
        "\n#!/sbin/openrc-run\n\ndescription=\"Run main command on startup\"\n\ncommand=\"",
    );
    r.append(config.cmd[0].as_str());
    r.append("\"\ncommand_args=\"");
    let args = join_spaces_from(&config.cmd, 1);
    r.append(args.as_str());
    r.append("\"\ncommand_background=false\n\ndepend() {\n    after *\n}\n");
    proof {
        assert(r@ =~= spec_openrc_service(config));
    }
    r
}

} // verus!
