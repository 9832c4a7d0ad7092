//! Detection of the init system from the init symlink's target, and the
//! startup-role decision.

use minit::init::{InitKindError, InitType, StartupRole};

#[test]
fn openrc_target_is_openrc() {
    assert_eq!(InitType::from_binpath("/sbin/openrc"), Ok(InitType::OpenRC));
}

#[test]
fn systemd_target_is_systemd() {
    assert_eq!(
        InitType::from_binpath("/lib/systemd/systemd"),
        Ok(InitType::Systemd)
    );
}

#[test]
fn upstart_target_is_upstart() {
    assert_eq!(
        InitType::from_binpath("/sbin/upstart"),
        Ok(InitType::Upstart)
    );
}

#[test]
fn runit_target_is_runit() {
    assert_eq!(InitType::from_binpath("/sbin/runit"), Ok(InitType::Runit));
}

#[test]
fn s6_target_is_s6() {
    assert_eq!(InitType::from_binpath("/usr/bin/s6-rc"), Ok(InitType::S6));
}

#[test]
fn busybox_target_is_busybox() {
    assert_eq!(
        InitType::from_binpath("/bin/busybox"),
        Ok(InitType::Busybox)
    );
}

#[test]
fn bare_name_without_directory_is_recognised() {
    assert_eq!(InitType::from_binpath("busybox"), Ok(InitType::Busybox));
}

#[test]
fn sysvinit_is_recognised_by_path_suffix() {
    assert_eq!(
        InitType::from_binpath("/lib/sysvinit/init"),
        Ok(InitType::SysVinit)
    );
}

#[test]
fn unknown_target_is_unsupported() {
    assert_eq!(
        InitType::from_binpath("/sbin/strangeinit"),
        Err(InitKindError::Unsupported)
    );
}

#[test]
fn plain_init_name_is_unsupported() {
    // The file name "init" alone is not enough; only the sysvinit
    // directory suffix identifies SysVinit.
    assert_eq!(
        InitType::from_binpath("/sbin/init"),
        Err(InitKindError::Unsupported)
    );
}

#[test]
fn trailing_slash_has_no_file_name() {
    assert_eq!(
        InitType::from_binpath("/sbin/"),
        Err(InitKindError::NotLinkedToFile)
    );
}

#[test]
fn empty_target_has_no_file_name() {
    assert_eq!(
        InitType::from_binpath(""),
        Err(InitKindError::NotLinkedToFile)
    );
}

#[test]
fn link_back_to_self_means_supervise() {
    let role = minit::init::startup_role("/sbin/minit", Some("/sbin/minit"));
    assert_eq!(role, StartupRole::Supervise);
}

#[test]
fn link_to_other_binary_means_delegate() {
    let role = minit::init::startup_role("/sbin/minit", Some("/lib/systemd/systemd"));
    assert_eq!(role, StartupRole::DelegateToInit);
}

#[test]
fn unreadable_link_means_supervise() {
    let role = minit::init::startup_role("/sbin/minit", None);
    assert_eq!(role, StartupRole::Supervise);
}
