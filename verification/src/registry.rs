//! The mount registry: sanitized public metadata for each mounted backend.

use vstd::prelude::*;

use crate::backend::{FsBackendMountCmd, FsBackendType};
use crate::error::{DaemonError, DaemonResult};
use crate::json::{json_parse, JsonSpecValue, JsonValue};
use crate::kv::KvVec;
use crate::sanitize::{sanitize_image_config, spec_sanitize};

verus! {

/// What the registry remembers of one mounted backend: its kind, its
/// mountpoint, when it was mounted, and its washed config.
#[derive(Debug)]
pub struct FsBackendDesc {
    pub backend_type: FsBackendType,
    pub mountpoint: String,
    pub mounted_time: String,
    pub config: JsonValue,
}

/// The config a descriptor stores for a command: the washed parse of an
/// image command's config, and null for a passthrough command.
pub open spec fn spec_desc_config(cmd: FsBackendMountCmd) -> JsonSpecValue {
    if cmd.fs_type == FsBackendType::Rafs {
        spec_sanitize(json_parse(cmd.config@)->Some_0)
    } else {
        JsonSpecValue::Null
    }
}

/// The descriptor an image mount stores never carries a condemned
/// credential: whatever stands at `device.backend.config` in its washed
/// config lacks every key that the config's backend type condemns.
pub proof fn lemma_desc_config_no_secrets(cmd: FsBackendMountCmd, key: Seq<char>)
    requires
        cmd.fs_type == FsBackendType::Rafs,
        json_parse(cmd.config@) is Some,
        crate::sanitize::spec_sanitize_keys(json_parse(cmd.config@)->Some_0).contains(key),
    ensures
        match crate::sanitize::spec_obj_get(spec_desc_config(cmd), "device"@) {
            Some(d) => match crate::sanitize::spec_obj_get(d, "backend"@) {
                Some(b) => match crate::sanitize::spec_obj_get(b, "config"@) {
                    Some(c) => crate::sanitize::spec_obj_get(c, key) is None,
                    None => true,
                },
                None => true,
            },
            None => true,
        },
{
    crate::sanitize::lemma_sanitize_no_secrets(json_parse(cmd.config@)->Some_0, key);
}

/// Relies on `chrono::Local::now`: the current local time, rendered with
/// its zone offset. Nothing is promised of the value: it depends on the
/// clock.
#[verifier::external_body]
fn local_now_display() -> String {
    chrono::Local::now().to_string()
}

/// The mapping from mountpoint to backend descriptor.
pub struct FsBackendCollection {
    pub backends: KvVec<FsBackendDesc>,
}

impl FsBackendCollection {
    pub open spec fn wf(&self) -> bool {
        self.backends.wf()
    }

    pub open spec fn map_view(&self) -> Map<Seq<char>, FsBackendDesc> {
        self.backends.map_view()
    }

    pub fn new() -> (r: Self)
        ensures
            r.wf(),
            r.map_view() == Map::<Seq<char>, FsBackendDesc>::empty(),
            r.backends.v@ == Seq::<(String, FsBackendDesc)>::empty(),
    {
        FsBackendCollection { backends: KvVec::new() }
    }

    /// Stores a descriptor for a command under `id`: an image command's
    /// config is parsed and washed; a passthrough descriptor carries a null
    /// config. Fails only where an image config is not parseable JSON.
    pub fn add(&mut self, id: &String, cmd: &FsBackendMountCmd) -> (r: DaemonResult<()>)
        requires
            old(self).wf(),
        ensures
            final(self).wf(),
            r is Ok <==> (cmd.fs_type == FsBackendType::PassthroughFs || json_parse(cmd.config@)
                is Some),
            r is Err ==> r->Err_0 is Serde && *final(self) == *old(self),
            r is Ok ==> final(self).map_view().contains_key(id@)
                && final(self).map_view()[id@].backend_type == cmd.fs_type
                && final(self).map_view()[id@].mountpoint@ == cmd.mountpoint@
                && final(self).map_view()[id@].config@ == spec_desc_config(*cmd)
                && final(self).map_view().remove(id@) == old(self).map_view().remove(id@),
    {
        let fs_config = match cmd.fs_type {
            FsBackendType::Rafs => {
                match crate::json::parse_json(cmd.config.as_str()) {
                    Ok(j) => sanitize_image_config(&j),
                    Err(e) => {
                        return Err(DaemonError::Serde(e));
                    },
                }
            },
            FsBackendType::PassthroughFs => JsonValue::Null,
        };
        let desc = FsBackendDesc {
            backend_type: cmd.fs_type,
            mountpoint: cmd.mountpoint.clone(),
            mounted_time: local_now_display(),
            config: fs_config,
        };
        self.backends.insert(id.clone(), desc);
        proof {
            assert(self.map_view().remove(id@) =~= old(self).map_view().remove(id@));
        }
        Ok(())
    }

    /// Rebuilds the descriptor under `id` for a remounted image backend:
    /// the washed new config and a fresh mounted time. The stored kind stays
    /// the image kind whatever the command claims: only image backends are
    /// remounted.
    pub fn refresh_image(&mut self, id: &String, cmd: &FsBackendMountCmd) -> (r: DaemonResult<()>)
        requires
            old(self).wf(),
        ensures
            final(self).wf(),
            r is Ok <==> json_parse(cmd.config@) is Some,
            r is Err ==> r->Err_0 is Serde && *final(self) == *old(self),
            r is Ok ==> final(self).map_view().contains_key(id@)
                && final(self).map_view()[id@].backend_type == FsBackendType::Rafs
                && final(self).map_view()[id@].mountpoint@ == cmd.mountpoint@
                && final(self).map_view()[id@].config@ == crate::sanitize::spec_sanitize(
                json_parse(cmd.config@)->Some_0,
            ) && final(self).map_view().remove(id@) == old(self).map_view().remove(id@),
    {
        let fs_config = match crate::json::parse_json(cmd.config.as_str()) {
            Ok(j) => sanitize_image_config(&j),
            Err(e) => {
                return Err(DaemonError::Serde(e));
            },
        };
        let desc = FsBackendDesc {
            backend_type: FsBackendType::Rafs,
            mountpoint: cmd.mountpoint.clone(),
            mounted_time: local_now_display(),
            config: fs_config,
        };
        self.backends.insert(id.clone(), desc);
        proof {
            assert(self.map_view().remove(id@) =~= old(self).map_view().remove(id@));
        }
        Ok(())
    }

    /// Forgets the descriptor under `id`; absent keys are left alone.
    pub fn del(&mut self, id: &String)
        requires
            old(self).wf(),
        ensures
            final(self).wf(),
            final(self).map_view() == old(self).map_view().remove(id@),
    {
        self.backends.remove(id);
    }
}

} // verus!
