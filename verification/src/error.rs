//! Error taxonomy of the daemon control plane.

use vstd::prelude::*;

verus! {

/// Failures of the virtual-filesystem root. The message carries the
/// underlying cause where one exists.
#[derive(Debug, Clone, PartialEq, Eq)]
pub enum VfsErrorKind {
    Common(String),
    Mount(String),
    Umount(String),
    Restore(String),
    AlreadyMounted,
}

/// Errors surfaced by the daemon control plane to its callers.
#[derive(Debug, Clone, PartialEq, Eq)]
pub enum DaemonError {
    /// Invalid arguments provided.
    InvalidArguments(String),
    /// Invalid config provided.
    InvalidConfig(String),
    /// Message-only fallback.
    Common(String),
    /// The requested mountpoint is not mounted.
    NotFound,
    /// The entry already exists.
    AlreadyExists,
    /// The command's config is not parseable JSON.
    Serde(String),
    /// The upgrade manager could not record, update or erase a mount opaque.
    UpgradeManager(String),
    /// A virtual-filesystem root operation failed.
    Vfs(VfsErrorKind),
    /// Generic backend failure carrying its sub-kind.
    Backend(String),
    /// The daemon has not reached a stable working state yet.
    NotReady,
    /// The daemon cannot fulfill the request.
    Unsupported,
    /// The lifecycle event channel is broken.
    Channel(String),
    /// The filesystem backend service failed to start.
    StartService(String),
    /// The service loop could not be stopped.
    ServiceStop,
    /// Waiting for the daemon failed.
    WaitDaemon(String),
    /// The session with the kernel could not be shut down.
    SessionShutdown(String),
    /// The backend at the mountpoint is not of the requested type.
    FsTypeMismatch(String),
}

pub type DaemonResult<T> = Result<T, DaemonError>;

} // verus!
