//! The daemon façade and its lifecycle driver.
//!
//! The façade is the capability surface of the management API: mount,
//! remount, unmount, state export. The driver consumes lifecycle events,
//! asks the state machine for the action and the next state, runs the
//! action through the service hooks, and rolls the machine back when an
//! action fails.

use vstd::prelude::*;

use crate::backend::{
    fs_backend_factory, spec_backend_matches_cmd, spec_factory_ok, spec_prefetch_ok, Backend,
    FsBackendMountCmd, FsBackendType, FsBackendUmountCmd,
};
use crate::error::{DaemonError, DaemonResult, VfsErrorKind};
use crate::fsm::{
    spec_transition, transition, DaemonStateMachineInput, DaemonStateMachineOutput,
    DaemonStateMachineState,
};
use crate::json::{json_parse, view_json_fields, JsonSpecValue, JsonValue};
use crate::registry::{spec_desc_config, FsBackendCollection, FsBackendDesc};
use crate::state::DaemonState;
use crate::upgrade::UpgradeManager;
use crate::vfs::Vfs;

verus! {

/// Version information of the running daemon.
#[derive(Debug)]
pub struct BuildTimeInfo {
    pub package_ver: String,
    pub git_commit: String,
}

/// The export shape of the daemon's working state.
pub struct DaemonInfo<'a> {
    pub version: &'a BuildTimeInfo,
    pub id: &'a Option<String>,
    pub supervisor: &'a Option<String>,
    pub state: DaemonState,
    pub backend_collection: &'a FsBackendCollection,
}

/// The service hooks the daemon's actions drive: starting and stopping the
/// kernel-facing service loop, and restoring a session during an upgrade.
/// Implementations live outside the core; nothing is assumed of them.
pub trait DaemonService {
    /// Starts the filesystem service.
    fn start(&mut self) -> DaemonResult<()>;

    /// Shuts the session with the kernel down.
    fn disconnect(&mut self) -> DaemonResult<()>;

    /// Interrupts the service loop; best-effort, returns no error.
    fn interrupt(&mut self);

    /// Rebuilds the session from a predecessor's state.
    fn restore(&mut self) -> DaemonResult<()>;

    /// Blocks until the service loop has ended.
    fn wait(&mut self) -> DaemonResult<()>;
}

/// What the shutdown subscriber's descriptor reports ready.
#[derive(Debug, Clone, Copy, PartialEq, Eq, Structural)]
pub enum SubscriberReadiness {
    Input,
    Error,
    HangUp,
    Other,
}

/// What the shutdown subscriber does about a readiness report.
#[derive(Debug, Clone, Copy, PartialEq, Eq, Structural)]
pub enum SubscriberReaction {
    StopEventLoop,
    LogError,
    Deregister,
    Ignore,
}

/// How the shutdown subscriber reacts: input readiness asks the external
/// event loop to stop, an error is logged, a hangup deregisters the
/// subscriber, anything else is ignored.
pub fn subscriber_reaction(r: SubscriberReadiness) -> (out: SubscriberReaction)
    ensures
        out == (match r {
            SubscriberReadiness::Input => SubscriberReaction::StopEventLoop,
            SubscriberReadiness::Error => SubscriberReaction::LogError,
            SubscriberReadiness::HangUp => SubscriberReaction::Deregister,
            SubscriberReadiness::Other => SubscriberReaction::Ignore,
        }),
{
    match r {
        SubscriberReadiness::Input => SubscriberReaction::StopEventLoop,
        SubscriberReadiness::Error => SubscriberReaction::LogError,
        SubscriberReadiness::HangUp => SubscriberReaction::Deregister,
        SubscriberReadiness::Other => SubscriberReaction::Ignore,
    }
}

/// The lifecycle state machine's context: its current state, and whether
/// the event worker is still alive. A protocol violation kills the worker;
/// a dead worker answers every event with a channel error.
pub struct DaemonStateMachineContext {
    pub sm_state: DaemonStateMachineState,
    pub alive: bool,
}

impl DaemonStateMachineContext {
    pub fn new() -> (r: Self)
        ensures
            r.sm_state == DaemonStateMachineState::Init,
            r.alive,
    {
        DaemonStateMachineContext { sm_state: DaemonStateMachineState::Init, alive: true }
    }
}

/// The observable state an action sets on success.
pub open spec fn spec_action_state(a: DaemonStateMachineOutput) -> DaemonState {
    match a {
        DaemonStateMachineOutput::StartService => DaemonState::Running,
        DaemonStateMachineOutput::TerminateFuseService => DaemonState::Interrupted,
        DaemonStateMachineOutput::Umount => DaemonState::Stopped,
        DaemonStateMachineOutput::Restore => DaemonState::Upgrading,
    }
}

/// The daemon: the lifecycle state machine, the observable state, the
/// virtual root, the mount registry, and the upgrade-manager hook.
pub struct NydusDaemon {
    pub sm: DaemonStateMachineContext,
    pub state: DaemonState,
    pub vfs: Vfs,
    pub backend_collection: FsBackendCollection,
    pub upgrade_mgr: Option<UpgradeManager>,
    pub id: Option<String>,
    pub supervisor: Option<String>,
    pub version: BuildTimeInfo,
}

impl NydusDaemon {
    /// Well-formedness: the parts are well-formed, and every mountpoint the
    /// registry knows is mounted in the virtual root.
    pub open spec fn wf(&self) -> bool {
        &&& self.vfs.wf()
        &&& self.backend_collection.wf()
        &&& (self.upgrade_mgr is Some ==> self.upgrade_mgr->0.wf())
        &&& forall|mp: Seq<char>|
            #[trigger] self.backend_collection.map_view().contains_key(mp)
                ==> self.vfs.mounts().contains_key(mp)
    }

    /// A fresh daemon: state `Init`, nothing mounted, nothing registered.
    pub fn new(
        id: Option<String>,
        supervisor: Option<String>,
        version: BuildTimeInfo,
        upgrade_mgr: Option<UpgradeManager>,
    ) -> (r: Self)
        requires
            upgrade_mgr is Some ==> upgrade_mgr->0.wf(),
        ensures
            r.wf(),
            r.state == DaemonState::Init,
            r.sm.sm_state == DaemonStateMachineState::Init,
            r.sm.alive,
            r.vfs.mounts() == Map::<Seq<char>, Backend>::empty(),
            r.vfs.next_index == 0,
            r.backend_collection.map_view() == Map::<
                Seq<char>,
                crate::registry::FsBackendDesc,
            >::empty(),
            r.upgrade_mgr == upgrade_mgr,
            r.id == id,
            r.supervisor == supervisor,
            r.version == version,
    {
        NydusDaemon {
            sm: DaemonStateMachineContext::new(),
            state: DaemonState::Init,
            vfs: Vfs::new(),
            backend_collection: FsBackendCollection::new(),
            upgrade_mgr,
            id,
            supervisor,
            version,
        }
    }

    pub fn get_state(&self) -> (r: DaemonState)
        ensures
            r == self.state,
    {
        self.state
    }

    pub fn set_state(&mut self, s: DaemonState)
        ensures
            *final(self) == (NydusDaemon { state: s, ..*old(self) }),
    {
        self.state = s;
    }

    pub fn get_vfs(&self) -> (r: &Vfs)
        ensures
            r == &self.vfs,
    {
        &self.vfs
    }

    /// The backend mounted at `mp`; a mountpoint the virtual root does not
    /// know yields the root's own error.
    pub fn backend_from_mountpoint<'a>(&'a self, mp: &str) -> (r: DaemonResult<&'a Backend>)
        requires
            self.wf(),
        ensures
            r is Ok <==> self.vfs.mounts().contains_key(mp@),
            r is Ok ==> *r->Ok_0 == self.vfs.mounts()[mp@],
            r is Err ==> r->Err_0 is Vfs && r->Err_0->Vfs_0 is Common,
    {
        let key = mp.to_owned();
        match self.vfs.get_rootfs(&key) {
            Ok(b) => Ok(b),
            Err(e) => Err(DaemonError::Vfs(e)),
        }
    }

    /// Mounts a backend: refuses an occupied mountpoint, builds the backend,
    /// inserts it into the virtual root, registers the washed descriptor,
    /// and records the mount opaque where an upgrade manager is present.
    pub fn mount(&mut self, cmd: FsBackendMountCmd) -> (r: DaemonResult<()>)
        requires
            old(self).wf(),
        ensures
            final(self).wf(),
            r is Ok <==> old(self).state != DaemonState::Stopped && !old(
                self,
            ).vfs.mounts().contains_key(cmd.mountpoint@) && spec_factory_ok(cmd) && old(
                self,
            ).vfs.next_index < u64::MAX,
            r is Err ==> *final(self) == *old(self),
            old(self).state == DaemonState::Stopped ==> r == Err::<(), DaemonError>(
                DaemonError::NotReady,
            ),
            old(self).state != DaemonState::Stopped && old(self).vfs.mounts().contains_key(
                cmd.mountpoint@,
            ) ==> r == Err::<(), DaemonError>(DaemonError::Vfs(VfsErrorKind::AlreadyMounted)),
            old(self).state != DaemonState::Stopped && !old(self).vfs.mounts().contains_key(
                cmd.mountpoint@,
            ) && !spec_prefetch_ok(cmd.prefetch_files) ==> r is Err && r->Err_0 is Common
                && r->Err_0->Common_0@ == "Illegal prefetch list"@,
            old(self).state != DaemonState::Stopped && !old(self).vfs.mounts().contains_key(
                cmd.mountpoint@,
            ) && spec_prefetch_ok(cmd.prefetch_files) && cmd.fs_type == FsBackendType::Rafs
                && json_parse(cmd.config@) is None ==> r is Err && r->Err_0 is Backend,
            r is Ok ==> {
                &&& final(self).vfs.mounts().contains_key(cmd.mountpoint@)
                &&& spec_backend_matches_cmd(final(self).vfs.mounts()[cmd.mountpoint@], cmd)
                &&& final(self).vfs.mounts().remove(cmd.mountpoint@) == old(self).vfs.mounts()
                &&& final(self).backend_collection.map_view().contains_key(cmd.mountpoint@)
                &&& final(self).backend_collection.map_view()[cmd.mountpoint@].backend_type
                    == cmd.fs_type
                &&& final(self).backend_collection.map_view()[cmd.mountpoint@].mountpoint@
                    == cmd.mountpoint@
                &&& final(self).backend_collection.map_view()[cmd.mountpoint@].config@
                    == spec_desc_config(cmd)
                &&& final(self).backend_collection.map_view().remove(cmd.mountpoint@) == old(
                    self,
                ).backend_collection.map_view()
                &&& (old(self).upgrade_mgr matches Some(m) ==> final(self).upgrade_mgr is Some
                    && final(self).upgrade_mgr->0.map_view() == m.map_view().insert(
                    cmd.mountpoint@,
                    (cmd, old(self).vfs.next_index),
                ))
                &&& (old(self).upgrade_mgr is None ==> final(self).upgrade_mgr is None)
            },
            final(self).state == old(self).state,
            final(self).sm == old(self).sm,
            final(self).id == old(self).id,
            final(self).supervisor == old(self).supervisor,
            final(self).version == old(self).version,
    {
        match self.state {
            DaemonState::Stopped => {
                return Err(DaemonError::NotReady);
            },
            _ => {},
        }
        let mp = cmd.mountpoint.clone();
        if self.vfs.index_of(&mp).is_some() {
            return Err(DaemonError::Vfs(VfsErrorKind::AlreadyMounted));
        }
        let backend = fs_backend_factory(&cmd)?;
        let index = match self.vfs.mount(backend, &mp) {
            Ok(i) => i,
            Err(e) => {
                return Err(DaemonError::Vfs(e));
            },
        };
        let added = self.backend_collection.add(&mp, &cmd);
        match added {
            Ok(_) => {},
            Err(e) => {
                return Err(e);
            },
        }
        match &mut self.upgrade_mgr {
            Some(mgr) => {
                let recorded = mgr.add_mounts_state(cmd, index);
                match recorded {
                    Ok(_) => {},
                    Err(e) => {
                        return Err(e);
                    },
                }
            },
            None => {},
        }
        proof {
            assert forall|k: Seq<char>|
                #[trigger] self.backend_collection.map_view().contains_key(k)
                    implies self.vfs.mounts().contains_key(k) by {
                if k != cmd.mountpoint@ {
                    assert(self.backend_collection.map_view().remove(
                        cmd.mountpoint@,
                    ).contains_key(k));
                    assert(old(self).backend_collection.map_view().remove(
                        cmd.mountpoint@,
                    ).contains_key(k));
                    assert(old(self).backend_collection.map_view().contains_key(k));
                    assert(old(self).vfs.mounts().contains_key(k));
                }
            }
        }
        Ok(())
    }

    /// Remounts the image backend at the command's mountpoint with a new
    /// config: the backend must exist and be an image backend, the config
    /// must parse, and the recorded opaque is updated where an upgrade
    /// manager is present.
    pub fn remount(&mut self, cmd: FsBackendMountCmd) -> (r: DaemonResult<()>)
        requires
            old(self).wf(),
        ensures
            final(self).wf(),
            r is Ok <==> old(self).vfs.mounts().contains_key(cmd.mountpoint@) && old(
                self,
            ).vfs.mounts()[cmd.mountpoint@] is Rafs && json_parse(cmd.config@) is Some && (old(
                self,
            ).upgrade_mgr matches Some(m) ==> m.map_view().contains_key(cmd.mountpoint@)),
            r is Err ==> *final(self) == *old(self),
            !old(self).vfs.mounts().contains_key(cmd.mountpoint@) ==> r == Err::<(), DaemonError>(
                DaemonError::NotFound,
            ),
            old(self).vfs.mounts().contains_key(cmd.mountpoint@) && !(old(
                self,
            ).vfs.mounts()[cmd.mountpoint@] is Rafs) ==> r is Err && r->Err_0 is FsTypeMismatch
                && r->Err_0->FsTypeMismatch_0@ == "to rafs"@,
            old(self).vfs.mounts().contains_key(cmd.mountpoint@) && old(
                self,
            ).vfs.mounts()[cmd.mountpoint@] is Rafs && json_parse(cmd.config@) is None ==> r is Err
                && r->Err_0 is Backend,
            old(self).vfs.mounts().contains_key(cmd.mountpoint@) && old(
                self,
            ).vfs.mounts()[cmd.mountpoint@] is Rafs && json_parse(cmd.config@) is Some && (old(
                self,
            ).upgrade_mgr matches Some(m) && !m.map_view().contains_key(cmd.mountpoint@)) ==> r
                is Err && r->Err_0 is UpgradeManager,
            r is Ok ==> {
                &&& final(self).vfs.mounts().contains_key(cmd.mountpoint@)
                &&& final(self).vfs.mounts()[cmd.mountpoint@] is Rafs
                &&& Some(final(self).vfs.mounts()[cmd.mountpoint@]->Rafs_0.config@) == json_parse(
                    cmd.config@,
                )
                &&& final(self).vfs.mounts()[cmd.mountpoint@]->Rafs_0.source@ == cmd.source@
                &&& final(self).vfs.mounts().remove(cmd.mountpoint@) == old(
                    self,
                ).vfs.mounts().remove(cmd.mountpoint@)
                &&& final(self).backend_collection.map_view().contains_key(cmd.mountpoint@)
                &&& final(self).backend_collection.map_view()[cmd.mountpoint@].backend_type
                    == FsBackendType::Rafs
                &&& final(self).backend_collection.map_view()[cmd.mountpoint@].mountpoint@
                    == cmd.mountpoint@
                &&& final(self).backend_collection.map_view()[cmd.mountpoint@].config@
                    == crate::sanitize::spec_sanitize(json_parse(cmd.config@)->Some_0)
                &&& final(self).backend_collection.map_view().remove(cmd.mountpoint@) == old(
                    self,
                ).backend_collection.map_view().remove(cmd.mountpoint@)
                &&& (old(self).upgrade_mgr matches Some(m) ==> final(self).upgrade_mgr is Some
                    && final(self).upgrade_mgr->0.map_view() == m.map_view().insert(
                    cmd.mountpoint@,
                    (cmd, m.map_view()[cmd.mountpoint@].1),
                ))
                &&& (old(self).upgrade_mgr is None ==> final(self).upgrade_mgr is None)
            },
            final(self).state == old(self).state,
            final(self).sm == old(self).sm,
            final(self).id == old(self).id,
            final(self).supervisor == old(self).supervisor,
            final(self).version == old(self).version,
    {
        let mp = cmd.mountpoint.clone();
        let idx = match self.vfs.index_of(&mp) {
            Some(i) => i,
            None => {
                return Err(DaemonError::NotFound);
            },
        };
        let new_backend = match &self.vfs.table.v[idx].1 {
            Backend::Rafs(rb) => {
                let parsed = match crate::json::parse_json(cmd.config.as_str()) {
                    Ok(j) => j,
                    Err(e) => {
                        return Err(DaemonError::Backend(e));
                    },
                };
                Backend::Rafs(
                    crate::backend::RafsBackend {
                        mountpoint: rb.mountpoint.clone(),
                        source: cmd.source.clone(),
                        config: parsed,
                        prefetch_files: crate::backend::clone_prefetch(&rb.prefetch_files),
                        meta: rb.meta.clone(),
                    },
                )
            },
            Backend::PassthroughFs(_) => {
                return Err(DaemonError::FsTypeMismatch(String::from_str("to rafs")));
            },
        };
        let opaque_recorded = match &self.upgrade_mgr {
            Some(mgr) => mgr.mounts.index_of(&mp).is_some(),
            None => true,
        };
        if !opaque_recorded {
            return Err(
                DaemonError::UpgradeManager(
                    String::from_str("no mount opaque recorded for the mountpoint"),
                ),
            );
        }
        let refreshed = self.backend_collection.refresh_image(&mp, &cmd);
        match refreshed {
            Ok(_) => {},
            Err(e) => {
                return Err(e);
            },
        }
        self.vfs.table.set_value_at(idx, new_backend);
        match &mut self.upgrade_mgr {
            Some(mgr) => {
                let updated = mgr.update_mounts_state(cmd);
                match updated {
                    Ok(_) => {},
                    Err(e) => {
                        return Err(e);
                    },
                }
            },
            None => {},
        }
        proof {
            assert(self.vfs.mounts() == old(self).vfs.mounts().insert(
                cmd.mountpoint@,
                self.vfs.mounts()[cmd.mountpoint@],
            ));
            assert(self.vfs.mounts().remove(cmd.mountpoint@) =~= old(self).vfs.mounts().remove(
                cmd.mountpoint@,
            ));
            assert(self.backend_collection.map_view().remove(cmd.mountpoint@)
                =~= old(self).backend_collection.map_view().remove(cmd.mountpoint@));
            assert forall|k: Seq<char>|
                #[trigger] self.backend_collection.map_view().contains_key(k)
                    implies self.vfs.mounts().contains_key(k) by {
                if k != cmd.mountpoint@ {
                    assert(self.backend_collection.map_view().remove(
                        cmd.mountpoint@,
                    ).contains_key(k));
                    assert(old(self).backend_collection.map_view().remove(
                        cmd.mountpoint@,
                    ).contains_key(k));
                    assert(old(self).backend_collection.map_view().contains_key(k));
                }
                assert(old(self).vfs.mounts().contains_key(k));
            }
        }
        Ok(())
    }

    /// Unmounts the backend at the command's mountpoint: the virtual root,
    /// the registry, and the recorded opaque all forget it. A mountpoint
    /// that is not mounted is refused.
    pub fn umount(&mut self, cmd: FsBackendUmountCmd) -> (r: DaemonResult<()>)
        requires
            old(self).wf(),
        ensures
            final(self).wf(),
            r is Ok <==> old(self).vfs.mounts().contains_key(cmd.mountpoint@),
            r is Err ==> r == Err::<(), DaemonError>(DaemonError::NotFound) && *final(self) == *old(
                self,
            ),
            r is Ok ==> {
                &&& final(self).vfs.mounts() == old(self).vfs.mounts().remove(cmd.mountpoint@)
                &&& final(self).backend_collection.map_view() == old(
                    self,
                ).backend_collection.map_view().remove(cmd.mountpoint@)
                &&& (old(self).upgrade_mgr matches Some(m) ==> final(self).upgrade_mgr is Some
                    && final(self).upgrade_mgr->0.map_view() == m.map_view().remove(
                    cmd.mountpoint@,
                ))
                &&& (old(self).upgrade_mgr is None ==> final(self).upgrade_mgr is None)
            },
            final(self).state == old(self).state,
            final(self).sm == old(self).sm,
            final(self).id == old(self).id,
            final(self).supervisor == old(self).supervisor,
            final(self).version == old(self).version,
    {
        if self.vfs.index_of(&cmd.mountpoint).is_none() {
            return Err(DaemonError::NotFound);
        }
        let unmounted = self.vfs.umount(&cmd.mountpoint);
        match unmounted {
            Ok(_) => {},
            Err(_) => {
                return Err(DaemonError::NotFound);
            },
        }
        self.backend_collection.del(&cmd.mountpoint);
        match &mut self.upgrade_mgr {
            Some(mgr) => {
                let removed = mgr.remove_mounts_state(&cmd);
                match removed {
                    Ok(_) => {},
                    Err(e) => {
                        return Err(e);
                    },
                }
            },
            None => {},
        }
        proof {
            assert forall|k: Seq<char>|
                #[trigger] self.backend_collection.map_view().contains_key(k)
                    implies self.vfs.mounts().contains_key(k) by {
                assert(self.backend_collection.map_view() == old(
                    self,
                ).backend_collection.map_view().remove(cmd.mountpoint@));
                assert(old(self).backend_collection.map_view().remove(
                    cmd.mountpoint@,
                ).contains_key(k));
                assert(k != cmd.mountpoint@);
                assert(old(self).backend_collection.map_view().contains_key(k));
            }
        }
        Ok(())
    }

    /// A JSON snapshot of the daemon's working state: version, identity,
    /// observable state, and the registry with its washed configs.
    pub fn export_info(&self) -> (r: DaemonResult<String>)
        requires
            self.wf(),
        ensures
            r is Ok,
            r->Ok_0@ == crate::json::spec_json_string(
                spec_daemon_info_json(
                    self.version,
                    self.id,
                    self.supervisor,
                    self.state,
                    self.backend_collection.backends.v@,
                ),
            ),
    {
        let info = DaemonInfo {
            version: &self.version,
            id: &self.id,
            supervisor: &self.supervisor,
            state: self.state,
            backend_collection: &self.backend_collection,
        };
        let tree = daemon_info_to_json(&info);
        Ok(crate::json::json_to_string(&tree))
    }

    /// Consumes one lifecycle event, exactly as the event worker does:
    /// snapshot the machine, consume the event, run the action through the
    /// service hooks, and publish the outcome. An accepted event whose
    /// action succeeds leaves the machine in the transition's target state
    /// and the observable state where the action put it; a failed action
    /// rolls the machine back to the snapshot and leaves the observable
    /// state alone — except `Restore`, which sets `Upgrading` before it
    /// attempts work. An event the table rejects is a protocol violation:
    /// it kills the worker, and a dead worker answers everything with a
    /// channel error.
    pub fn on_event<S: DaemonService>(
        &mut self,
        service: &mut S,
        event: DaemonStateMachineInput,
    ) -> (r: DaemonResult<()>)
        requires
            old(self).wf(),
        ensures
            final(self).wf(),
            final(self).vfs == old(self).vfs,
            final(self).backend_collection == old(self).backend_collection,
            final(self).upgrade_mgr == old(self).upgrade_mgr,
            final(self).id == old(self).id,
            final(self).supervisor == old(self).supervisor,
            final(self).version == old(self).version,
            !old(self).sm.alive ==> r is Err && r->Err_0 is Channel && *final(self) == *old(self),
            old(self).sm.alive && spec_transition(old(self).sm.sm_state, event) is None ==> r is Err
                && r->Err_0 is Channel && !final(self).sm.alive
                && final(self).sm.sm_state == old(self).sm.sm_state
                && final(self).state == old(self).state,
            old(self).sm.alive && spec_transition(old(self).sm.sm_state, event) is Some ==> {
                let (target, action) = spec_transition(old(self).sm.sm_state, event)->Some_0;
                &&& final(self).sm.alive
                &&& match action {
                    None => r is Ok && final(self).sm.sm_state == target && final(self).state
                        == old(self).state,
                    Some(a) => {
                        &&& (r is Ok ==> final(self).sm.sm_state == target && final(self).state
                            == spec_action_state(a))
                        &&& (r is Err ==> final(self).sm.sm_state == old(self).sm.sm_state
                            && final(self).state == (if a is Restore {
                            DaemonState::Upgrading
                        } else {
                            old(self).state
                        }))
                        &&& (a is TerminateFuseService ==> r is Ok)
                    },
                }
            },
    {
        if !self.sm.alive {
            return Err(
                DaemonError::Channel(String::from_str("the state machine worker has terminated")),
            );
        }
        let consumed = transition(self.sm.sm_state, event);
        let (target, action) = match consumed {
            Some(t) => t,
            None => {
                self.sm.alive = false;
                return Err(
                    DaemonError::Channel(
                        String::from_str("event not accepted in the current state"),
                    ),
                );
            },
        };
        let outcome: DaemonResult<()> = match action {
            None => Ok(()),
            Some(DaemonStateMachineOutput::StartService) => {
                match service.start() {
                    Ok(_) => {
                        self.state = DaemonState::Running;
                        Ok(())
                    },
                    Err(e) => Err(e),
                }
            },
            Some(DaemonStateMachineOutput::TerminateFuseService) => {
                service.interrupt();
                self.state = DaemonState::Interrupted;
                Ok(())
            },
            Some(DaemonStateMachineOutput::Umount) => {
                let disconnected = service.disconnect();
                service.interrupt();
                match disconnected {
                    Ok(_) => {
                        self.state = DaemonState::Stopped;
                        Ok(())
                    },
                    Err(e) => Err(e),
                }
            },
            Some(DaemonStateMachineOutput::Restore) => {
                self.state = DaemonState::Upgrading;
                service.restore()
            },
        };
        match outcome {
            Ok(_) => {
                self.sm.sm_state = target;
                Ok(())
            },
            Err(e) => Err(e),
        }
    }

    /// Submits `Stop`: from `Init` or `Running` the session is disconnected
    /// and the service loop interrupted; from `Interrupted` the machine
    /// simply dies.
    pub fn stop<S: DaemonService>(&mut self, service: &mut S) -> (r: DaemonResult<()>)
        requires
            old(self).wf(),
        ensures
            final(self).wf(),
            final(self).vfs == old(self).vfs,
            final(self).backend_collection == old(self).backend_collection,
            final(self).upgrade_mgr == old(self).upgrade_mgr,
            final(self).id == old(self).id,
            final(self).supervisor == old(self).supervisor,
            final(self).version == old(self).version,
            !old(self).sm.alive ==> r is Err && r->Err_0 is Channel && *final(self) == *old(self),
            old(self).sm.alive && spec_transition(
                old(self).sm.sm_state,
                DaemonStateMachineInput::Stop,
            ) is None ==> r is Err && r->Err_0 is Channel && !final(self).sm.alive
                && final(self).sm.sm_state == old(self).sm.sm_state
                && final(self).state == old(self).state,
            old(self).sm.alive && spec_transition(
                old(self).sm.sm_state,
                DaemonStateMachineInput::Stop,
            ) is Some ==> {
                let (target, action) = spec_transition(
                    old(self).sm.sm_state,
                    DaemonStateMachineInput::Stop,
                )->Some_0;
                &&& final(self).sm.alive
                &&& match action {
                    None => r is Ok && final(self).sm.sm_state == target && final(self).state
                        == old(self).state,
                    Some(a) => {
                        &&& (r is Ok ==> final(self).sm.sm_state == target && final(self).state
                            == spec_action_state(a))
                        &&& (r is Err ==> final(self).sm.sm_state == old(self).sm.sm_state
                            && final(self).state == old(self).state)
                    },
                }
            },
    {
        self.on_event(service, DaemonStateMachineInput::Stop)
    }

    /// Submits `Exit`, then waits for the service loop to end, so that no
    /// kernel message races a successor during an upgrade. The Exit step's
    /// action only interrupts the loop and cannot fail, so whenever the
    /// machine accepts the event it ends `Interrupted`, whatever `wait`
    /// returns; a failed wait is reported as `ServiceStop`.
    pub fn trigger_exit<S: DaemonService>(&mut self, service: &mut S) -> (r: DaemonResult<()>)
        requires
            old(self).wf(),
        ensures
            final(self).wf(),
            final(self).vfs == old(self).vfs,
            final(self).backend_collection == old(self).backend_collection,
            final(self).upgrade_mgr == old(self).upgrade_mgr,
            final(self).id == old(self).id,
            final(self).supervisor == old(self).supervisor,
            final(self).version == old(self).version,
            !old(self).sm.alive ==> r is Err && r->Err_0 is Channel && *final(self) == *old(self),
            old(self).sm.alive && spec_transition(
                old(self).sm.sm_state,
                DaemonStateMachineInput::Exit,
            ) is None ==> r is Err && r->Err_0 is Channel && !final(self).sm.alive
                && final(self).sm.sm_state == old(self).sm.sm_state
                && final(self).state == old(self).state,
            old(self).sm.alive && spec_transition(
                old(self).sm.sm_state,
                DaemonStateMachineInput::Exit,
            ) is Some ==> {
                &&& final(self).sm.alive
                &&& final(self).sm.sm_state == spec_transition(
                    old(self).sm.sm_state,
                    DaemonStateMachineInput::Exit,
                )->Some_0.0
                &&& final(self).state == DaemonState::Interrupted
                &&& (r is Err ==> r->Err_0 is ServiceStop)
            },
    {
        self.on_event(service, DaemonStateMachineInput::Exit)?;
        match service.wait() {
            Ok(_) => Ok(()),
            Err(_) => Err(DaemonError::ServiceStop),
        }
    }

    /// Submits `Takeover`, then `Successful`: the two-step live-upgrade
    /// sequence. Restoration may fail between the steps, leaving the daemon
    /// observably `Upgrading`; the two steps stay exposed for that reason,
    /// and the first failing reply comes back unchanged.
    pub fn trigger_takeover<S: DaemonService>(&mut self, service: &mut S) -> (r: DaemonResult<()>)
        requires
            old(self).wf(),
        ensures
            final(self).wf(),
            final(self).vfs == old(self).vfs,
            final(self).backend_collection == old(self).backend_collection,
            final(self).upgrade_mgr == old(self).upgrade_mgr,
            final(self).id == old(self).id,
            final(self).supervisor == old(self).supervisor,
            final(self).version == old(self).version,
            !old(self).sm.alive ==> r is Err && r->Err_0 is Channel && *final(self) == *old(self),
            old(self).sm.alive && spec_transition(
                old(self).sm.sm_state,
                DaemonStateMachineInput::Takeover,
            ) is None ==> r is Err && r->Err_0 is Channel && !final(self).sm.alive
                && final(self).sm.sm_state == old(self).sm.sm_state
                && final(self).state == old(self).state,
            old(self).sm.alive && spec_transition(
                old(self).sm.sm_state,
                DaemonStateMachineInput::Takeover,
            ) is Some ==> {
                &&& final(self).sm.alive
                &&& (r is Ok ==> final(self).sm.sm_state == DaemonStateMachineState::Running
                    && final(self).state == DaemonState::Running)
                &&& (r is Err ==> final(self).state == DaemonState::Upgrading
                    && (final(self).sm.sm_state == DaemonStateMachineState::Init
                        || final(self).sm.sm_state == DaemonStateMachineState::Upgrading))
            },
    {
        self.on_event(service, DaemonStateMachineInput::Takeover)?;
        self.on_event(service, DaemonStateMachineInput::Successful)?;
        Ok(())
    }

    /// The image backend's superblock metadata at a mountpoint, as JSON: an
    /// absent mountpoint yields the virtual root's error, a backend of
    /// another kind a type mismatch.
    pub fn export_backend_info(&self, mountpoint: &str) -> (r: DaemonResult<String>)
        requires
            self.wf(),
        ensures
            !self.vfs.mounts().contains_key(mountpoint@) ==> r is Err && r->Err_0 is Vfs,
            self.vfs.mounts().contains_key(mountpoint@) && !(self.vfs.mounts()[mountpoint@]
                is Rafs) ==> r is Err && r->Err_0 is FsTypeMismatch && r->Err_0->FsTypeMismatch_0@
                == "to rafs"@,
            self.vfs.mounts().contains_key(mountpoint@) && self.vfs.mounts()[mountpoint@] is Rafs
                ==> r is Ok && r->Ok_0@ == crate::json::spec_json_string(
                self.vfs.mounts()[mountpoint@]->Rafs_0.meta@,
            ),
    {
        let fs = self.backend_from_mountpoint(mountpoint)?;
        match fs {
            Backend::Rafs(rb) => Ok(crate::json::json_to_string(&rb.meta)),
            Backend::PassthroughFs(_) => Err(
                DaemonError::FsTypeMismatch(String::from_str("to rafs")),
            ),
        }
    }
}

/// An optional string as a JSON value: the string, or null.
pub open spec fn spec_opt_str_json(o: Option<String>) -> JsonSpecValue {
    match o {
        Some(s) => JsonSpecValue::Str(s@),
        None => JsonSpecValue::Null,
    }
}

/// The JSON shape of one registry descriptor.
pub open spec fn spec_desc_json(d: FsBackendDesc) -> JsonSpecValue {
    JsonSpecValue::Obj(
        seq![
            ("backend_type"@, JsonSpecValue::Str(d.backend_type.spec_name())),
            ("mountpoint"@, JsonSpecValue::Str(d.mountpoint@)),
            ("mounted_time"@, JsonSpecValue::Str(d.mounted_time@)),
            ("config"@, d.config@),
        ],
    )
}

/// The JSON fields of the whole registry, in insertion order.
pub open spec fn spec_collection_json_fields(s: Seq<(String, FsBackendDesc)>) -> Seq<
    (Seq<char>, JsonSpecValue),
>
    decreases s.len(),
{
    if s.len() == 0 {
        Seq::empty()
    } else {
        spec_collection_json_fields(s.drop_last()).push(
            (s.last().0@, spec_desc_json(s.last().1)),
        )
    }
}

/// The JSON shape of an exported daemon snapshot.
pub open spec fn spec_daemon_info_json(
    version: BuildTimeInfo,
    id: Option<String>,
    supervisor: Option<String>,
    state: DaemonState,
    entries: Seq<(String, FsBackendDesc)>,
) -> JsonSpecValue {
    JsonSpecValue::Obj(
        seq![
            (
                "version"@,
                JsonSpecValue::Obj(
                    seq![
                        ("package_ver"@, JsonSpecValue::Str(version.package_ver@)),
                        ("git_commit"@, JsonSpecValue::Str(version.git_commit@)),
                    ],
                ),
            ),
            ("id"@, spec_opt_str_json(id)),
            ("supervisor"@, spec_opt_str_json(supervisor)),
            ("state"@, JsonSpecValue::Str(state.spec_name())),
            (
                "backend_collection"@,
                JsonSpecValue::Obj(spec_collection_json_fields(entries)),
            ),
        ],
    )
}

/// One descriptor as a JSON value.
fn desc_to_json(d: &FsBackendDesc) -> (r: JsonValue)
    ensures
        r@ == spec_desc_json(*d),
{
    let mut fields: Vec<(String, JsonValue)> = Vec::new();
    fields.push(
        (String::from_str("backend_type"), JsonValue::Str(d.backend_type.name().to_owned())),
    );
    fields.push((String::from_str("mountpoint"), JsonValue::Str(d.mountpoint.clone())));
    fields.push((String::from_str("mounted_time"), JsonValue::Str(d.mounted_time.clone())));
    fields.push((String::from_str("config"), d.config.clone()));
    proof {
        reveal_with_fuel(crate::json::view_json_fields, 6);
        assert(view_json_fields(fields@) =~= seq![
            ("backend_type"@, JsonSpecValue::Str(d.backend_type.spec_name())),
            ("mountpoint"@, JsonSpecValue::Str(d.mountpoint@)),
            ("mounted_time"@, JsonSpecValue::Str(d.mounted_time@)),
            ("config"@, d.config@),
        ]);
    }
    JsonValue::Obj(fields)
}

/// An optional string as a JSON value.
fn opt_str_to_json(o: &Option<String>) -> (r: JsonValue)
    ensures
        r@ == spec_opt_str_json(*o),
{
    match o {
        Some(s) => JsonValue::Str(s.clone()),
        None => JsonValue::Null,
    }
}

/// A daemon snapshot as a JSON value.
pub fn daemon_info_to_json(info: &DaemonInfo) -> (r: JsonValue)
    ensures
        r@ == spec_daemon_info_json(
            *info.version,
            *info.id,
            *info.supervisor,
            info.state,
            info.backend_collection.backends.v@,
        ),
{
    let mut version_fields: Vec<(String, JsonValue)> = Vec::new();
    version_fields.push(
        (String::from_str("package_ver"), JsonValue::Str(info.version.package_ver.clone())),
    );
    version_fields.push(
        (String::from_str("git_commit"), JsonValue::Str(info.version.git_commit.clone())),
    );
    proof {
        reveal_with_fuel(crate::json::view_json_fields, 4);
        assert(view_json_fields(version_fields@) =~= seq![
            ("package_ver"@, JsonSpecValue::Str(info.version.package_ver@)),
            ("git_commit"@, JsonSpecValue::Str(info.version.git_commit@)),
        ]);
    }

    let entries = &info.backend_collection.backends.v;
    let mut coll_fields: Vec<(String, JsonValue)> = Vec::new();
    let mut i: usize = 0;
    while i < entries.len()
        invariant
            entries == &info.backend_collection.backends.v,
            i <= entries@.len(),
            view_json_fields(coll_fields@) == spec_collection_json_fields(
                entries@.take(i as int),
            ),
        decreases entries@.len() - i,
    {
        let entry = &entries[i];
        let ghost before = coll_fields@;
        coll_fields.push((entry.0.clone(), desc_to_json(&entry.1)));
        proof {
            assert(coll_fields@.drop_last() =~= before);
            assert(entries@.take(i + 1).drop_last() =~= entries@.take(i as int));
            assert(entries@.take(i + 1).last() == entries@[i as int]);
        }
        i = i + 1;
    }
    proof {
        assert(entries@.take(entries@.len() as int) =~= entries@);
    }

    let mut fields: Vec<(String, JsonValue)> = Vec::new();
    fields.push((String::from_str("version"), JsonValue::Obj(version_fields)));
    fields.push((String::from_str("id"), opt_str_to_json(info.id)));
    fields.push((String::from_str("supervisor"), opt_str_to_json(info.supervisor)));
    fields.push((String::from_str("state"), JsonValue::Str(info.state.name().to_owned())));
    fields.push((String::from_str("backend_collection"), JsonValue::Obj(coll_fields)));
    proof {
        reveal_with_fuel(crate::json::view_json_fields, 7);
        assert(view_json_fields(fields@) =~= spec_daemon_info_json(
            *info.version,
            *info.id,
            *info.supervisor,
            info.state,
            info.backend_collection.backends.v@,
        )->Obj_0);
    }
    JsonValue::Obj(fields)
}

/// Every mountpoint the registry knows resolves in the virtual root: a
/// lookup there cannot fail.
pub proof fn lemma_registry_mounted(d: &NydusDaemon, mp: Seq<char>)
    requires
        d.wf(),
        d.backend_collection.map_view().contains_key(mp),
    ensures
        d.vfs.mounts().contains_key(mp),
{
}

} // verus!
