//! The inittab and run-script texts rendered when busybox acts as init.

use vstd::prelude::*;
use vstd::string::StringExecFns;

use crate::config::{spec_command_string, command_string, Config};

verus! {

/// The inittab text used when busybox runs the supervised command through
/// the generated run-script alone.
pub open spec fn spec_busybox_inittab() -> Seq<char> {
    "\n::respawn:/bin/sh\n::wait:/etc/init.d/minit.sh\n"@
}

/// Renders the inittab for busybox without any delegated init system.
pub fn get_service_definition() -> (r: String)
    ensures
        r@ == spec_busybox_inittab(),
{
    String::from_str("\n::respawn:/bin/sh\n::wait:/etc/init.d/minit.sh\n")
}

/// The inittab text used when busybox chains into OpenRC for service
/// management.
pub open spec fn spec_busybox_openrc_inittab() -> Seq<char> {
    "# /etc/inittab\n::sysinit:/sbin/openrc sysinit\n::sysinit:/sbin/openrc boot\n::wait:/sbin/openrc default\n\n::shutdown:/sbin/openrc shutdown\n"@
}

/// Renders the inittab for busybox chained into OpenRC.
pub fn get_service_definition_with_openrc() -> (r: String)
    ensures
        r@ == spec_busybox_openrc_inittab(),
{
    String::from_str(
        "# /etc/inittab\n::sysinit:/sbin/openrc sysinit\n::sysinit:/sbin/openrc boot\n::wait:/sbin/openrc default\n\n::shutdown:/sbin/openrc shutdown\n",
    )
}

/// The full text of the run-script: a shell script that execs the
/// resolved command line.
pub open spec fn spec_busybox_runfile(c: &Config) -> Seq<char> {
    "#!/bin/sh\n\nexec "@ + spec_command_string(c) + "\n"@
}

/// Renders the run-script that execs the configured command.
pub fn get_runfile_definition(config: &Config) -> (r: String)
    ensures
        r@ == spec_busybox_runfile(config),
{
    let mut r = String::from_str("#!/bin/sh\n\nexec ");
    let cs = command_string(config);
    r.append(cs.as_str());
    r.append("\n");
    proof {
        assert(r@ =~= spec_busybox_runfile(config));
    }
    r
}

} // verus!
