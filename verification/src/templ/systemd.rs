//! The systemd service unit rendered for the supervised command.

use vstd::prelude::*;
use vstd::string::StringExecFns;

use crate::config::{spec_command_string, command_string, Config};

verus! {

/// The full text of the systemd unit: the fixed unit header, the resolved
/// command line as `ExecStart`, and the fixed install section.
pub open spec fn spec_systemd_service(c: &Config) -> Seq<char> {
    "\n[Unit]\nDescription=Run main command at startup\nAfter=default.target\n\n[Service]\nType=simple\nExecStart="@
        + spec_command_string(c)
        + "\nRemainAfterExit=false\n\n[Install]\nWantedBy=dafault.target\n"@
}

/// Renders the systemd service unit for the configured command.
pub fn get_service_definition(config: &Config) -> (r: String)
    ensures
        r@ == spec_systemd_service(config),
{
    let mut r = String::from_str(
        "\n[Unit]\nDescription=Run main command at startup\nAfter=default.target\n\n[Service]\nType=simple\nExecStart=",
    );
    let cs = command_string(config);
    r.append(cs.as_str());
    r.append("\nRemainAfterExit=false\n\n[Install]\nWantedBy=dafault.target\n");
    proof {
        assert(r@ =~= spec_systemd_service(config));
    }
    r
}

} // verus!
