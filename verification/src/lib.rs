//! Control plane of a user-space filesystem daemon: the lifecycle state
//! machine that drives the daemon between its states, the mount registry it
//! guards, and the live-upgrade handoff bookkeeping.

pub mod backend;
pub mod daemon;
pub mod error;
pub mod fsm;
pub mod json;
pub mod kv;
pub mod registry;
pub mod sanitize;
pub mod state;
pub mod upgrade;
pub mod vfs;

pub use backend::{
    fs_backend_factory, input_prefetch_files_verify, Backend, FsBackendMountCmd, FsBackendType,
    FsBackendUmountCmd, PassthroughConfig, PassthroughFsBackend, RafsBackend,
};
pub use daemon::{
    BuildTimeInfo, DaemonInfo, DaemonService, DaemonStateMachineContext, NydusDaemon,
};
pub use error::{DaemonError, DaemonResult, VfsErrorKind};
pub use fsm::{DaemonStateMachineInput, DaemonStateMachineOutput, DaemonStateMachineState};
pub use json::{parse_json, JsonValue};
pub use registry::{FsBackendCollection, FsBackendDesc};
pub use state::DaemonState;
pub use upgrade::UpgradeManager;
pub use vfs::Vfs;
