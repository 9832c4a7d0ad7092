//! Detection of the init system the well-known init symlink points at,
//! and the plan of filesystem changes that delegating to it requires.
//!
//! The plan is a value: the caller that owns filesystem access carries it
//! out action by action, in order.

use vstd::prelude::*;
use vstd::string::StrSliceExecFns;
use vstd::string::StringExecFns;

use crate::config::{valid_config, Config};
use crate::strutil::{file_name_of, spec_ends_with, spec_file_name, str_ends_with, str_eq};
use crate::templ;

verus! {

/// The closed set of init systems the supervisor knows how to recognise.
#[derive(Clone, Copy, Debug, PartialEq, Eq, Structural)]
pub enum InitType {
    Systemd,
    SysVinit,
    Upstart,
    OpenRC,
    Runit,
    S6,
    Busybox,
}

/// Why the init symlink's target could not be mapped to an init system.
#[derive(Clone, Copy, Debug, PartialEq, Eq, Structural)]
pub enum InitKindError {
    /// The target path has no final file name component.
    NotLinkedToFile,
    /// The target names no init system this supervisor recognises.
    Unsupported,
}

/// Why no setup plan exists for a recognised init system.
#[derive(Clone, Copy, Debug, PartialEq, Eq, Structural)]
pub enum SetupError {
    /// The named init system is recognised but writing its service
    /// descriptor is a known gap.
    NotYetSupported { kind: InitType },
}

/// One filesystem change of a setup plan.
#[derive(Debug)]
pub enum FsAction {
    /// Write `contents` to the file at `path`, creating or truncating it.
    WriteFile { path: String, contents: String },
    /// Create a symbolic link at `link` pointing to `original`.
    Symlink { original: String, link: String },
    /// Create the directory at `path` and all its missing parents.
    CreateDirAll { path: String },
    /// Set the permission bits of the file at `path` to `mode`.
    SetPermissions { path: String, mode: u32 },
}

/// The mathematical image of one filesystem change.
pub enum SpecFsAction {
    WriteFile { path: Seq<char>, contents: Seq<char> },
    Symlink { original: Seq<char>, link: Seq<char> },
    CreateDirAll { path: Seq<char> },
    SetPermissions { path: Seq<char>, mode: u32 },
}

impl View for FsAction {
    type V = SpecFsAction;

    open spec fn view(&self) -> SpecFsAction {
        match self {
            FsAction::WriteFile { path, contents } => SpecFsAction::WriteFile {
                path: path@,
                contents: contents@,
            },
            FsAction::Symlink { original, link } => SpecFsAction::Symlink {
                original: original@,
                link: link@,
            },
            FsAction::CreateDirAll { path } => SpecFsAction::CreateDirAll { path: path@ },
            FsAction::SetPermissions { path, mode } => SpecFsAction::SetPermissions {
                path: path@,
                mode: *mode,
            },
        }
    }
}

/// The views of a sequence of filesystem actions.
pub open spec fn plan_view(s: Seq<FsAction>) -> Seq<SpecFsAction> {
    s.map_values(|a: FsAction| a@)
}

/// The init system a symlink target identifies: matched on the target's
/// file name, or, for the legacy SysVinit layout, on the path's suffix.
pub open spec fn spec_init_kind(path: Seq<char>) -> Result<InitType, InitKindError> {
    let name = spec_file_name(path);
    if name.len() == 0 {
        Err(InitKindError::NotLinkedToFile)
    } else if name == "systemd"@ {
        Ok(InitType::Systemd)
    } else if name == "upstart"@ {
        Ok(InitType::Upstart)
    } else if name == "openrc"@ {
        Ok(InitType::OpenRC)
    } else if name == "runit"@ {
        Ok(InitType::Runit)
    } else if name == "s6-rc"@ {
        Ok(InitType::S6)
    } else if name == "busybox"@ {
        Ok(InitType::Busybox)
    } else if spec_ends_with(path, "sysvinit/init"@) {
        Ok(InitType::SysVinit)
    } else {
        Err(InitKindError::Unsupported)
    }
}

/// The two actions that install the OpenRC service: write the service
/// script and enable it in the default runlevel.
pub open spec fn spec_openrc_plan(c: &Config) -> Seq<SpecFsAction> {
    seq![
        SpecFsAction::WriteFile {
            path: "/etc/init.d/minit"@,
            contents: templ::openrc::spec_openrc_service(c),
        },
        SpecFsAction::Symlink {
            original: "/etc/init.d/minit"@,
            link: "/etc/runlevels/default/minit"@,
        },
    ]
}

/// The setup plan for each recognised init system, or the named gap for
/// the ones whose setup is not implemented.
pub open spec fn spec_setup_plan(kind: InitType, c: &Config, openrc_present: bool) -> Result<
    Seq<SpecFsAction>,
    SetupError,
> {
    match kind {
        InitType::Systemd => Ok(
            seq![
                SpecFsAction::WriteFile {
                    path: "/etc/systemd/system/minit.service"@,
                    contents: templ::systemd::spec_systemd_service(c),
                },
                SpecFsAction::Symlink {
                    original: "/etc/systemd/system/minit.service"@,
                    link: "/etc/systemd/system/default.target.wants/minit.service"@,
                },
            ],
        ),
        InitType::Upstart => Err(SetupError::NotYetSupported { kind: InitType::Upstart }),
        InitType::OpenRC => Ok(spec_openrc_plan(c)),
        InitType::Runit => Err(SetupError::NotYetSupported { kind: InitType::Runit }),
        InitType::S6 => Err(SetupError::NotYetSupported { kind: InitType::S6 }),
        InitType::Busybox => if openrc_present {
            Ok(
                spec_openrc_plan(c) + seq![
                    SpecFsAction::WriteFile {
                        path: "/etc/inittab"@,
                        contents: templ::busybox::spec_busybox_openrc_inittab(),
                    },
                ],
            )
        } else {
            Ok(
                seq![
                    SpecFsAction::CreateDirAll { path: "/etc/init.d"@ },
                    SpecFsAction::WriteFile {
                        path: "/etc/init.d/minit.sh"@,
                        contents: templ::busybox::spec_busybox_runfile(c),
                    },
                    SpecFsAction::SetPermissions { path: "/etc/init.d/minit.sh"@, mode: 0o777 },
                    SpecFsAction::WriteFile {
                        path: "/etc/inittab"@,
                        contents: templ::busybox::spec_busybox_inittab(),
                    },
                ],
            )
        },
        InitType::SysVinit => Err(SetupError::NotYetSupported { kind: InitType::SysVinit }),
    }
}

impl InitType {
    /// Maps the resolved target of the init symlink to the init system it
    /// names; unrecognised targets are rejected.
    pub fn from_binpath(bin_path: &str) -> (r: Result<InitType, InitKindError>)
        ensures
            r == spec_init_kind(bin_path@),
    {
        let bin_name = file_name_of(bin_path);
        let name = bin_name.as_str();
        if name.unicode_len() == 0 {
            Err(InitKindError::NotLinkedToFile)
        } else if str_eq(name, "systemd") {
            Ok(InitType::Systemd)
        } else if str_eq(name, "upstart") {
            Ok(InitType::Upstart)
        } else if str_eq(name, "openrc") {
            Ok(InitType::OpenRC)
        } else if str_eq(name, "runit") {
            Ok(InitType::Runit)
        } else if str_eq(name, "s6-rc") {
            Ok(InitType::S6)
        } else if str_eq(name, "busybox") {
            Ok(InitType::Busybox)
        } else if str_ends_with(bin_path, "sysvinit/init") {
            Ok(InitType::SysVinit)
        } else {
            Err(InitKindError::Unsupported)
        }
    }

    /// Plans the filesystem changes that make the system run the
    /// configured command on startup under this init system.  The plan
    /// for busybox depends on whether an OpenRC binary is present, which
    /// the caller probes.
    pub fn setup_system(&self, config: &Config, openrc_present: bool) -> (r: Result<
        Vec<FsAction>,
        SetupError,
    >)
        requires
            valid_config(config),
        ensures
            match r {
                Ok(plan) => spec_setup_plan(*self, config, openrc_present) == Ok::<
                    Seq<SpecFsAction>,
                    SetupError,
                >(plan_view(plan@)),
                Err(e) => spec_setup_plan(*self, config, openrc_present) == Err::<
                    Seq<SpecFsAction>,
                    SetupError,
                >(e),
            },
    {
        match self {
            InitType::Systemd => {
                let definition = templ::systemd::get_service_definition(config);
                let mut plan: Vec<FsAction> = Vec::new();
                plan.push(
                    FsAction::WriteFile {
                        path: String::from_str("/etc/systemd/system/minit.service"),
                        contents: definition,
                    },
                );
                plan.push(
                    FsAction::Symlink {
                        original: String::from_str("/etc/systemd/system/minit.service"),
                        link: String::from_str(
                            "/etc/systemd/system/default.target.wants/minit.service",
                        ),
                    },
                );
                proof {
                    assert(plan_view(plan@) =~= spec_setup_plan(
                        *self,
                        config,
                        openrc_present,
                    )->Ok_0);
                }
                Ok(plan)
            },
            InitType::Upstart => Err(SetupError::NotYetSupported { kind: InitType::Upstart }),
            InitType::OpenRC => {
                let plan = openrc_plan(config);
                proof {
                    assert(plan_view(plan@) =~= spec_openrc_plan(config));
                }
                Ok(plan)
            },
            InitType::Runit => Err(SetupError::NotYetSupported { kind: InitType::Runit }),
            InitType::S6 => Err(SetupError::NotYetSupported { kind: InitType::S6 }),
            InitType::Busybox => {
                if openrc_present {
                    let mut plan = openrc_plan(config);
                    let definition = templ::busybox::get_service_definition_with_openrc();
                    plan.push(
                        FsAction::WriteFile {
                            path: String::from_str("/etc/inittab"),
                            contents: definition,
                        },
                    );
                    proof {
                        assert(plan_view(plan@) =~= spec_setup_plan(
                            *self,
                            config,
                            openrc_present,
                        )->Ok_0);
                    }
                    Ok(plan)
                } else {
                    let runfile = templ::busybox::get_runfile_definition(config);
                    let definition = templ::busybox::get_service_definition();
                    let mut plan: Vec<FsAction> = Vec::new();
                    plan.push(FsAction::CreateDirAll { path: String::from_str("/etc/init.d") });
                    plan.push(
                        FsAction::WriteFile {
                            path: String::from_str("/etc/init.d/minit.sh"),
                            contents: runfile,
                        },
                    );
                    plan.push(
                        FsAction::SetPermissions {
                            path: String::from_str("/etc/init.d/minit.sh"),
                            mode: 0o777,
                        },
                    );
                    plan.push(
                        FsAction::WriteFile {
                            path: String::from_str("/etc/inittab"),
                            contents: definition,
                        },
                    );
                    proof {
                        assert(plan_view(plan@) =~= spec_setup_plan(
                            *self,
                            config,
                            openrc_present,
                        )->Ok_0);
                    }
                    Ok(plan)
                }
            },
            InitType::SysVinit => Err(SetupError::NotYetSupported { kind: InitType::SysVinit }),
        }
    }
}

/// What the process does at startup: supervise the configured command
/// itself, or hand the machine over to the real init system the
/// well-known symlink names.
#[derive(Clone, Copy, Debug, PartialEq, Eq, Structural)]
pub enum StartupRole {
    /// Act as the init process and supervise the configured command.
    Supervise,
    /// Set the named init system up and replace this process with it.
    DelegateToInit,
}

/// The entry decision: delegate exactly when the init symlink resolves
/// to some binary other than this supervisor's own; when it points back
/// here, or cannot be read at all, supervise.
pub open spec fn spec_startup_role(current: Seq<char>, target: Option<Seq<char>>) -> StartupRole {
    match target {
        Some(t) => if t == current {
            StartupRole::Supervise
        } else {
            StartupRole::DelegateToInit
        },
        None => StartupRole::Supervise,
    }
}

/// Decides the startup role from this binary's own path and the init
/// symlink's resolved target, if it could be read.
pub fn startup_role(current_exe: &str, link_target: Option<&str>) -> (r: StartupRole)
    ensures
        r == spec_startup_role(
            current_exe@,
            match link_target {
                Some(t) => Some(t@),
                None => None,
            },
        ),
{
    match link_target {
        Some(target) => {
            if str_eq(target, current_exe) {
                StartupRole::Supervise
            } else {
                StartupRole::DelegateToInit
            }
        },
        None => StartupRole::Supervise,
    }
}

/// Builds the two-action OpenRC installation plan.
fn openrc_plan(config: &Config) -> (plan: Vec<FsAction>)
    requires
        valid_config(config),
    ensures
        plan_view(plan@) == spec_openrc_plan(config),
{
    let definition = templ::openrc::get_service_definition(config);
    let mut plan: Vec<FsAction> = Vec::new();
    plan.push(
        FsAction::WriteFile { path: String::from_str("/etc/init.d/minit"), contents: definition },
    );
    plan.push(
        FsAction::Symlink {
            original: String::from_str("/etc/init.d/minit"),
            link: String::from_str("/etc/runlevels/default/minit"),
        },
    );
    proof {
        assert(plan_view(plan@) =~= spec_openrc_plan(config));
    }
    plan
}

} // verus!
