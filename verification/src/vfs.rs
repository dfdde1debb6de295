//! The virtual root: the mount table that joins backends under one
//! kernel-facing mountpoint, keyed by mountpoint prefix.

use vstd::prelude::*;

use crate::backend::Backend;
use crate::error::VfsErrorKind;
use crate::kv::KvVec;

verus! {

/// The virtual-filesystem root's mount table. Each successful mount is
/// handed a fresh index.
pub struct Vfs {
    pub table: KvVec<Backend>,
    pub next_index: u64,
}

impl Vfs {
    pub open spec fn wf(&self) -> bool {
        self.table.wf()
    }

    /// The mounted backends, keyed by mountpoint.
    pub open spec fn mounts(&self) -> Map<Seq<char>, Backend> {
        self.table.map_view()
    }

    pub fn new() -> (r: Self)
        ensures
            r.wf(),
            r.mounts() == Map::<Seq<char>, Backend>::empty(),
            r.next_index == 0,
    {
        Vfs { table: KvVec::new(), next_index: 0 }
    }

    /// The backend mounted at `mp`; failure means the mountpoint is absent.
    pub fn get_rootfs<'a>(&'a self, mp: &String) -> (r: Result<&'a Backend, VfsErrorKind>)
        requires
            self.wf(),
        ensures
            r is Ok <==> self.mounts().contains_key(mp@),
            r is Ok ==> *r->Ok_0 == self.mounts()[mp@],
            r is Err ==> r->Err_0 is Common,
    {
        match self.table.get(mp) {
            Some(b) => Ok(b),
            None => Err(VfsErrorKind::Common(String::from_str("no mount at the mountpoint"))),
        }
    }

    /// The index of the table entry at `mp`, if one exists.
    pub fn index_of(&self, mp: &String) -> (r: Option<usize>)
        requires
            self.wf(),
        ensures
            match r {
                Some(i) => i < self.table.v@.len() && self.table.v@[i as int].0@ == mp@
                    && self.mounts().contains_key(mp@) && self.mounts()[mp@]
                    == self.table.v@[i as int].1,
                None => !self.mounts().contains_key(mp@),
            },
    {
        self.table.index_of(mp)
    }

    /// Mounts a backend at `mp`, yielding a fresh index. An occupied
    /// mountpoint is refused; so is an exhausted index space.
    pub fn mount(&mut self, backend: Backend, mp: &String) -> (r: Result<u64, VfsErrorKind>)
        requires
            old(self).wf(),
        ensures
            final(self).wf(),
            r is Ok <==> !old(self).mounts().contains_key(mp@) && old(self).next_index
                < u64::MAX,
            old(self).mounts().contains_key(mp@) ==> r == Err::<u64, VfsErrorKind>(
                VfsErrorKind::AlreadyMounted,
            ),
            r is Err ==> *final(self) == *old(self),
            r is Ok ==> r->Ok_0 == old(self).next_index && final(self).next_index == old(
                self,
            ).next_index + 1 && final(self).mounts() == old(self).mounts().insert(mp@, backend)
                && final(self).table.v@.len() == old(self).table.v@.len() + 1,
    {
        if self.table.index_of(mp).is_some() {
            return Err(VfsErrorKind::AlreadyMounted);
        }
        if self.next_index == u64::MAX {
            return Err(VfsErrorKind::Mount(String::from_str("mount index space exhausted")));
        }
        let index = self.next_index;
        self.next_index = self.next_index + 1;
        self.table.insert(mp.clone(), backend);
        Ok(index)
    }

    /// Unmounts whatever stands at `mp`; an absent mountpoint is refused.
    pub fn umount(&mut self, mp: &String) -> (r: Result<(), VfsErrorKind>)
        requires
            old(self).wf(),
        ensures
            final(self).wf(),
            r is Ok <==> old(self).mounts().contains_key(mp@),
            r is Err ==> r->Err_0 is Umount && *final(self) == *old(self),
            r is Ok ==> final(self).mounts() == old(self).mounts().remove(mp@)
                && final(self).next_index == old(self).next_index,
    {
        if self.table.index_of(mp).is_none() {
            return Err(VfsErrorKind::Umount(String::from_str("no mount at the mountpoint")));
        }
        self.table.remove(mp);
        Ok(())
    }
}

} // verus!
