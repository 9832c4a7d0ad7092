//! A minimal PID-1 process supervisor library.
//!
//! The crate models the lifecycle engine of a container init process: it
//! resolves the command to supervise from a configuration value, detects a
//! delegated init system from the well-known init symlink and plans its
//! on-disk setup, multiplexes signals through a synchronous queue, reaps
//! terminated descendants, and decides when supervision may end.  All
//! filesystem and process I/O is left to the surrounding binary; the
//! decisions themselves are verified.

pub mod config;
pub mod environment;
pub mod foreground;
pub mod init;
pub mod reaper;
pub mod signals;
pub mod strutil;
pub mod supervisor;
pub mod templ;

pub use config::Config;
pub use config::resolve_command;
pub use init::FsAction;
pub use init::InitKindError;
pub use init::InitType;
pub use init::SetupError;
pub use reaper::reap_zombies;
pub use reaper::ReapError;
pub use reaper::WaitOutcome;
pub use foreground::make_foreground;
pub use supervisor::forward_signal;
pub use supervisor::process_signals;
