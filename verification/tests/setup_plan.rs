//! The filesystem plans each init system's setup produces, with the
//! rendered descriptor texts checked byte for byte.

use minit::init::{FsAction, InitType, SetupError};
use minit::Config;

fn server_config() -> Config {
    Config {
        entrypoint: None,
        cmd: vec![
            "/bin/server".to_string(),
            "--port".to_string(),
            "80".to_string(),
        ],
        environment: None,
    }
}

#[test]
fn upstart_setup_is_a_named_gap() {
    let c = server_config();
    let r = InitType::Upstart.setup_system(&c, false);
    assert!(matches!(r, Err(SetupError::NotYetSupported { kind: InitType::Upstart })));
}

#[test]
fn runit_setup_is_a_named_gap() {
    let c = server_config();
    assert!(matches!(
        InitType::Runit.setup_system(&c, false),
        Err(SetupError::NotYetSupported { kind: InitType::Runit })
    ));
}

#[test]
fn s6_setup_is_a_named_gap() {
    let c = server_config();
    assert!(matches!(
        InitType::S6.setup_system(&c, false),
        Err(SetupError::NotYetSupported { kind: InitType::S6 })
    ));
}

#[test]
fn sysvinit_setup_is_a_named_gap() {
    let c = server_config();
    assert!(matches!(
        InitType::SysVinit.setup_system(&c, false),
        Err(SetupError::NotYetSupported { kind: InitType::SysVinit })
    ));
}

#[test]
fn systemd_plan_writes_unit_and_enables_it() {
    let c = server_config();
    let plan = InitType::Systemd.setup_system(&c, false).unwrap();
    assert_eq!(plan.len(), 2);
    match &plan[0] {
        FsAction::WriteFile { path, contents } => {
            assert_eq!(path, "/etc/systemd/system/minit.service");
            assert_eq!(
                contents,
                "\n[Unit]\nDescription=Run main command at startup\nAfter=default.target\n\n[Service]\nType=simple\nExecStart=/bin/server --port 80\nRemainAfterExit=false\n\n[Install]\nWantedBy=dafault.target\n"
            );
        }
        other => panic!("expected a file write, got {:?}", other),
    }
    match &plan[1] {
        FsAction::Symlink { original, link } => {
            assert_eq!(original, "/etc/systemd/system/minit.service");
            assert_eq!(link, "/etc/systemd/system/default.target.wants/minit.service");
        }
        other => panic!("expected a symlink, got {:?}", other),
    }
}

#[test]
fn openrc_plan_writes_service_and_enables_it() {
    let c = server_config();
    let plan = InitType::OpenRC.setup_system(&c, false).unwrap();
    assert_eq!(plan.len(), 2);
    match &plan[0] {
        FsAction::WriteFile { path, contents } => {
            assert_eq!(path, "/etc/init.d/minit");
            assert_eq!(
                contents,
                "\n#!/sbin/openrc-run\n\ndescription=\"Run main command on startup\"\n\ncommand=\"/bin/server\"\ncommand_args=\"--port 80\"\ncommand_background=false\n\ndepend() {\n    after *\n}\n"
            );
        }
        other => panic!("expected a file write, got {:?}", other),
    }
    match &plan[1] {
        FsAction::Symlink { original, link } => {
            assert_eq!(original, "/etc/init.d/minit");
            assert_eq!(link, "/etc/runlevels/default/minit");
        }
        other => panic!("expected a symlink, got {:?}", other),
    }
}

#[test]
fn busybox_plan_without_openrc_writes_runfile_and_inittab() {
    let c = server_config();
    let plan = InitType::Busybox.setup_system(&c, false).unwrap();
    assert_eq!(plan.len(), 4);
    match &plan[0] {
        FsAction::CreateDirAll { path } => assert_eq!(path, "/etc/init.d"),
        other => panic!("expected a directory creation, got {:?}", other),
    }
    match &plan[1] {
        FsAction::WriteFile { path, contents } => {
            assert_eq!(path, "/etc/init.d/minit.sh");
            assert_eq!(contents, "#!/bin/sh\n\nexec /bin/server --port 80\n");
        }
        other => panic!("expected a file write, got {:?}", other),
    }
    match &plan[2] {
        FsAction::SetPermissions { path, mode } => {
            assert_eq!(path, "/etc/init.d/minit.sh");
            assert_eq!(*mode, 0o777);
        }
        other => panic!("expected a permission change, got {:?}", other),
    }
    match &plan[3] {
        FsAction::WriteFile { path, contents } => {
            assert_eq!(path, "/etc/inittab");
            assert_eq!(contents, "\n::respawn:/bin/sh\n::wait:/etc/init.d/minit.sh\n");
        }
        other => panic!("expected a file write, got {:?}", other),
    }
}

#[test]
fn busybox_plan_with_openrc_chains_through_openrc() {
    let c = server_config();
    let plan = InitType::Busybox.setup_system(&c, true).unwrap();
    assert_eq!(plan.len(), 3);
    match &plan[0] {
        FsAction::WriteFile { path, .. } => assert_eq!(path, "/etc/init.d/minit"),
        other => panic!("expected a file write, got {:?}", other),
    }
    match &plan[1] {
        FsAction::Symlink { link, .. } => assert_eq!(link, "/etc/runlevels/default/minit"),
        other => panic!("expected a symlink, got {:?}", other),
    }
    match &plan[2] {
        FsAction::WriteFile { path, contents } => {
            assert_eq!(path, "/etc/inittab");
            assert_eq!(
                contents,
                "# /etc/inittab\n::sysinit:/sbin/openrc sysinit\n::sysinit:/sbin/openrc boot\n::wait:/sbin/openrc default\n\n::shutdown:/sbin/openrc shutdown\n"
            );
        }
        other => panic!("expected a file write, got {:?}", other),
    }
}
