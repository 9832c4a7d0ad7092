//! Service descriptor templates, one module per init system.  Each
//! function renders the full text of a descriptor file; writing it to disk
//! is the caller's business.

pub mod busybox;
pub mod openrc;
pub mod systemd;
