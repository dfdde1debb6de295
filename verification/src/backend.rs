//! Backend types, mount commands, and the backend factory.

use vstd::prelude::*;

use crate::error::{DaemonError, DaemonResult};
use crate::json::{json_parse, JsonValue};

verus! {

/// The two kinds of filesystem backend: a content-addressed image filesystem
/// and a host passthrough filesystem.
#[derive(Debug, Clone, Copy, PartialEq, Eq, Structural)]
pub enum FsBackendType {
    Rafs,
    PassthroughFs,
}

impl FsBackendType {
    /// The symbolic name, as it appears in exported descriptors.
    pub fn name(&self) -> (r: &'static str)
        ensures
            r@ == self.spec_name(),
    {
        match self {
            FsBackendType::Rafs => "Rafs",
            FsBackendType::PassthroughFs => "PassthroughFs",
        }
    }

    pub open spec fn spec_name(self) -> Seq<char> {
        match self {
            FsBackendType::Rafs => "Rafs"@,
            FsBackendType::PassthroughFs => "PassthroughFs"@,
        }
    }

    /// Parses a backend type: exactly `"rafs"` and `"passthrough_fs"` are
    /// accepted; anything else is a configuration error naming them.
    pub fn from_str(s: &str) -> (r: DaemonResult<FsBackendType>)
        ensures
            s@ == "rafs"@ ==> r == Ok::<FsBackendType, DaemonError>(FsBackendType::Rafs),
            s@ == "passthrough_fs"@ ==> r == Ok::<FsBackendType, DaemonError>(
                FsBackendType::PassthroughFs,
            ),
            s@ != "rafs"@ && s@ != "passthrough_fs"@ ==> r is Err && r->Err_0 is InvalidArguments
                && r->Err_0->InvalidArguments_0@
                == "Fs backend type only accepts 'rafs' and 'passthrough_fs', but "@ + s@
                + " was specified"@,
    {
        proof {
            reveal_strlit("rafs");
            reveal_strlit("passthrough_fs");
            assert("rafs"@.len() == 4);
            assert("passthrough_fs"@.len() == 14);
            assert("rafs"@ != "passthrough_fs"@);
        }
        let owned = s.to_owned();
        if owned == String::from_str("rafs") {
            Ok(FsBackendType::Rafs)
        } else if owned == String::from_str("passthrough_fs") {
            Ok(FsBackendType::PassthroughFs)
        } else {
            let msg = String::from_str(
                "Fs backend type only accepts 'rafs' and 'passthrough_fs', but ",
            ).concat(s).concat(" was specified");
            Err(DaemonError::InvalidArguments(msg))
        }
    }
}

/// A request to mount a backend: its kind, source, opaque JSON config,
/// mountpoint, and an optional prefetch list.
#[derive(Debug)]
pub struct FsBackendMountCmd {
    pub fs_type: FsBackendType,
    pub source: String,
    pub config: String,
    pub mountpoint: String,
    pub prefetch_files: Option<Vec<String>>,
}

/// A request to unmount whatever backend stands at a mountpoint.
#[derive(Debug, Clone)]
pub struct FsBackendUmountCmd {
    pub mountpoint: String,
}

/// The prefetch list seen as text: `None` where the command carries none.
pub open spec fn spec_prefetch_view(input: Option<Vec<String>>) -> Option<Seq<Seq<char>>> {
    match input {
        Some(files) => Some(files.deep_view()),
        None => None,
    }
}

/// Whether a path is absolute: it begins with `/`.
pub open spec fn spec_abs_path(s: Seq<char>) -> bool {
    s.len() > 0 && s[0] == '/'
}

/// Whether every path in a list begins with `/`.
pub open spec fn spec_prefetch_list_ok(files: Seq<String>) -> bool {
    forall|i: int| 0 <= i < files.len() ==> spec_abs_path(#[trigger] files[i]@)
}

/// Whether every prefetch path begins with `/`. An absent list is fine.
pub open spec fn spec_prefetch_ok(input: Option<Vec<String>>) -> bool {
    match input {
        Some(files) => spec_prefetch_list_ok(files@),
        None => true,
    }
}

/// Validates a prefetch list: every path must begin with `/`; a list that
/// breaks the rule is rejected whole.
pub fn input_prefetch_files_verify(input: &Option<Vec<String>>) -> (r: DaemonResult<()>)
    ensures
        r is Ok <==> spec_prefetch_ok(*input),
        r is Err ==> r->Err_0 is Common && r->Err_0->Common_0@ == "Illegal prefetch list"@,
{
    match input {
        Some(files) => {
            let mut i: usize = 0;
            while i < files.len()
                invariant
                    *input == Some(*files),
                    i <= files@.len(),
                    forall|k: int| 0 <= k < i ==> spec_abs_path(#[trigger] files@[k]@),
                decreases files@.len() - i,
            {
                let f = &files[i];
                if f.as_str().unicode_len() == 0 || f.as_str().get_char(0) != '/' {
                    proof {
                        assert(!spec_abs_path(files@[i as int]@));
                        assert(!spec_prefetch_list_ok(files@));
                        assert(!spec_prefetch_ok(*input));
                    }
                    return Err(DaemonError::Common(String::from_str("Illegal prefetch list")));
                }
                i = i + 1;
            }
            Ok(())
        },
        None => Ok(()),
    }
}

/// An image backend instance: what the control plane holds of a mounted
/// content-addressed filesystem. The superblock metadata is whatever the
/// import step recorded; the reader that fills it works outside the core.
#[derive(Debug)]
pub struct RafsBackend {
    pub mountpoint: String,
    pub source: String,
    pub config: JsonValue,
    pub prefetch_files: Option<Vec<String>>,
    pub meta: JsonValue,
}

/// The passthrough filesystem configuration the factory synthesizes.
#[derive(Debug)]
pub struct PassthroughConfig {
    pub root_dir: String,
    pub do_import: bool,
    pub writeback: bool,
    pub no_open: bool,
}

/// A passthrough backend instance.
#[derive(Debug)]
pub struct PassthroughFsBackend {
    pub config: PassthroughConfig,
}

/// A mounted backend: a tagged variant in place of trait-object dispatch,
/// with the image kind accessible for remount and metadata export.
#[derive(Debug)]
pub enum Backend {
    Rafs(RafsBackend),
    PassthroughFs(PassthroughFsBackend),
}

/// Whether a backend instance is the one the factory builds for a command.
pub open spec fn spec_backend_matches_cmd(b: Backend, cmd: FsBackendMountCmd) -> bool {
    match b {
        Backend::Rafs(rb) => cmd.fs_type == FsBackendType::Rafs && rb.mountpoint@
            == cmd.mountpoint@ && rb.source@ == cmd.source@ && Some(rb.config@) == json_parse(
            cmd.config@,
        ) && spec_prefetch_view(rb.prefetch_files) == spec_prefetch_view(cmd.prefetch_files)
            && rb.meta@ == crate::json::JsonSpecValue::Null,
        Backend::PassthroughFs(pb) => cmd.fs_type == FsBackendType::PassthroughFs
            && pb.config.root_dir@ == cmd.source@ && !pb.config.do_import && pb.config.writeback
            && pb.config.no_open,
    }
}

/// Whether the factory accepts a command: the prefetch list must be legal,
/// and an image command's config must parse as JSON.
pub open spec fn spec_factory_ok(cmd: FsBackendMountCmd) -> bool {
    spec_prefetch_ok(cmd.prefetch_files) && (cmd.fs_type == FsBackendType::Rafs ==> json_parse(
        cmd.config@,
    ) is Some)
}

/// Clones an optional list of paths.
pub(crate) fn clone_prefetch(input: &Option<Vec<String>>) -> (r: Option<Vec<String>>)
    ensures
        spec_prefetch_view(r) == spec_prefetch_view(*input),
{
    match input {
        Some(files) => {
            let mut out: Vec<String> = Vec::new();
            let mut i: usize = 0;
            while i < files.len()
                invariant
                    i <= files@.len(),
                    out@.len() == i,
                    forall|k: int| 0 <= k < i ==> out@[k]@ == files@[k]@,
                decreases files@.len() - i,
            {
                out.push(files[i].clone());
                i = i + 1;
            }
            proof {
                assert(out.deep_view() =~= files.deep_view());
            }
            Some(out)
        },
        None => None,
    }
}

/// Builds a backend instance from a mount command: validates the prefetch
/// list, then dispatches on the backend type. An image command's config is
/// parsed; a passthrough backend is synthesized over the command's source
/// with imports off, writeback on and opens elided.
pub fn fs_backend_factory(cmd: &FsBackendMountCmd) -> (r: DaemonResult<Backend>)
    ensures
        r is Ok <==> spec_factory_ok(*cmd),
        !spec_prefetch_ok(cmd.prefetch_files) ==> r is Err && r->Err_0 is Common
            && r->Err_0->Common_0@ == "Illegal prefetch list"@,
        spec_prefetch_ok(cmd.prefetch_files) && cmd.fs_type == FsBackendType::Rafs && json_parse(
            cmd.config@,
        ) is None ==> r is Err && r->Err_0 is Backend,
        r is Ok ==> spec_backend_matches_cmd(r->Ok_0, *cmd),
{
    input_prefetch_files_verify(&cmd.prefetch_files)?;
    match cmd.fs_type {
        FsBackendType::Rafs => {
            let parsed = match crate::json::parse_json(cmd.config.as_str()) {
                Ok(j) => j,
                Err(e) => {
                    return Err(DaemonError::Backend(e));
                },
            };
            Ok(
                Backend::Rafs(
                    RafsBackend {
                        mountpoint: cmd.mountpoint.clone(),
                        source: cmd.source.clone(),
                        config: parsed,
                        prefetch_files: clone_prefetch(&cmd.prefetch_files),
                        meta: JsonValue::Null,
                    },
                ),
            )
        },
        FsBackendType::PassthroughFs => {
            let fs_cfg = PassthroughConfig {
                root_dir: cmd.source.clone(),
                do_import: false,
                writeback: true,
                no_open: true,
            };
            Ok(Backend::PassthroughFs(PassthroughFsBackend { config: fs_cfg }))
        },
    }
}

} // verus!
