//! The upgrade manager hook: mount opaques for a successor process.
//!
//! Each opaque pairs the mount command with the index the virtual root
//! handed out: enough to reconstruct the mount after the FUSE descriptor
//! changes hands. Serialization and the handoff socket live outside the
//! core; the core only records, updates and erases opaques.

use vstd::prelude::*;

use crate::backend::{FsBackendMountCmd, FsBackendUmountCmd};
use crate::error::{DaemonError, DaemonResult};
use crate::kv::KvVec;

verus! {

/// The recorded mount opaques, keyed by mountpoint.
pub struct UpgradeManager {
    pub mounts: KvVec<(FsBackendMountCmd, u64)>,
}

impl UpgradeManager {
    pub open spec fn wf(&self) -> bool {
        self.mounts.wf()
    }

    pub open spec fn map_view(&self) -> Map<Seq<char>, (FsBackendMountCmd, u64)> {
        self.mounts.map_view()
    }

    pub fn new() -> (r: Self)
        ensures
            r.wf(),
            r.map_view() == Map::<Seq<char>, (FsBackendMountCmd, u64)>::empty(),
    {
        UpgradeManager { mounts: KvVec::new() }
    }

    /// Records the opaque for a fresh mount under its mountpoint.
    pub fn add_mounts_state(&mut self, cmd: FsBackendMountCmd, index: u64) -> (r: DaemonResult<()>)
        requires
            old(self).wf(),
        ensures
            final(self).wf(),
            r is Ok,
            final(self).map_view() == old(self).map_view().insert(cmd.mountpoint@, (cmd, index)),
    {
        let key = cmd.mountpoint.clone();
        self.mounts.insert(key, (cmd, index));
        Ok(())
    }

    /// Replaces the opaque for a remounted backend, keeping its index; a
    /// mountpoint without a recorded opaque is refused.
    pub fn update_mounts_state(&mut self, cmd: FsBackendMountCmd) -> (r: DaemonResult<()>)
        requires
            old(self).wf(),
        ensures
            final(self).wf(),
            r is Ok <==> old(self).map_view().contains_key(cmd.mountpoint@),
            r is Err ==> r->Err_0 is UpgradeManager && *final(self) == *old(self),
            r is Ok ==> final(self).map_view() == old(self).map_view().insert(
                cmd.mountpoint@,
                (cmd, old(self).map_view()[cmd.mountpoint@].1),
            ),
    {
        let key = cmd.mountpoint.clone();
        let index = match self.mounts.get(&key) {
            Some(entry) => entry.1,
            None => {
                return Err(
                    DaemonError::UpgradeManager(
                        String::from_str("no mount opaque recorded for the mountpoint"),
                    ),
                );
            },
        };
        self.mounts.insert(key, (cmd, index));
        Ok(())
    }

    /// Erases the opaque for an unmounted backend; absent keys are left
    /// alone.
    pub fn remove_mounts_state(&mut self, cmd: &FsBackendUmountCmd) -> (r: DaemonResult<()>)
        requires
            old(self).wf(),
        ensures
            final(self).wf(),
            r is Ok,
            final(self).map_view() == old(self).map_view().remove(cmd.mountpoint@),
    {
        self.mounts.remove(&cmd.mountpoint);
        Ok(())
    }
}

} // verus!
