//! The filesystem state engine: the file table, the two counters, the two
//! maps, and one handler per request.

use crate::clock;
use crate::dirreply::{entries_view, reply_add, reply_entries, reply_refuses, DirEntry};
use crate::fusefsfile::{dir_attr, file_attr, FileAttr, FileKind, FuseFsFile, Timestamp};
use crate::model::{dot, dot_dot, name_fits, succ, FsModel, ROOT_INO};
use crate::reply::{
    direct_io, ttl_forever, ttl_one_second, AttrReply, CacheTtl, CreateReply, EntryReply, FsError,
    OpenReply,
};
use fuser::ReplyDirectory;
use std::collections::HashMap;
use vstd::prelude::*;

verus! {

broadcast use vstd::std_specs::hash::group_hash_axioms;

/// The engine. All of its state lives in memory and is lost with it.
pub struct FuseFS {
    mountpoint: String,
    fs_name: String,
    files: Vec<FuseFsFile>,
    ino_count: u64,
    fh_count: u64,
    ino_to_names: HashMap<u64, String>,
    ino_to_fh: HashMap<u64, u64>,
}

/// The text of a name, if it is text at all.
pub open spec fn name_view(name: Option<&str>) -> Option<Seq<char>> {
    match name {
        Some(n) => Some(n@),
        None => None,
    }
}

/// The answer a lookup owes for the attributes found, if any.
pub open spec fn entry_reply(found: Option<FileAttr>) -> Result<EntryReply, FsError> {
    match found {
        Some(attr) => Ok(EntryReply { ttl: ttl_one_second(), attr, generation: 0 }),
        None => Err(FsError::NotFound),
    }
}

/// The answer an attribute query owes for the attributes found, if any.
pub open spec fn attr_reply(found: Option<FileAttr>) -> Result<AttrReply, FsError> {
    match found {
        Some(attr) => Ok(AttrReply { ttl: ttl_one_second(), attr }),
        None => Err(FsError::NotFound),
    }
}

/// The answer a create request owes in state `s`.
pub open spec fn create_reply(s: FsModel, uid: u32, gid: u32, flags: u32, now: Timestamp) ->
    CreateReply {
    CreateReply {
        ttl: ttl_forever(),
        attr: file_attr(succ(s.ino_count), uid, gid, flags, now),
        ino: succ(s.ino_count),
        fh: succ(s.fh_count),
        flags,
    }
}

/// The answer a write request owes in state `s`.
pub open spec fn write_reply(s: FsModel, ino: u64, payload: Seq<u8>) -> Result<usize, FsError> {
    match s.find_inode(ino) {
        Some(_) => Ok(payload.len() as usize),
        None => Err(FsError::NotFound),
    }
}

/// Appends `bytes` to `buf`.
fn append_bytes(buf: &mut Vec<u8>, bytes: &[u8])
    ensures
        final(buf)@ == old(buf)@ + bytes@,
{
    buf.extend_from_slice(bytes);
    assert forall|k: int| 0 <= k < buf@.len() implies buf@[k] == (old(buf)@ + bytes@)[k] by {
        if k >= old(buf)@.len() {
            assert(cloned::<u8>(bytes@[k - old(buf)@.len()], buf@[k]));
        }
    }
    assert(buf@ =~= old(buf)@ + bytes@);
}

impl View for FuseFS {
    type V = FsModel;

    closed spec fn view(&self) -> FsModel {
        FsModel {
            mountpoint: self.mountpoint@,
            fs_name: self.fs_name@,
            files: self.files@.map_values(|f: FuseFsFile| f@),
            ino_count: self.ino_count,
            fh_count: self.fh_count,
            names: self.ino_to_names@.map_values(|s: String| s@),
            handles: self.ino_to_fh@,
        }
    }
}

impl FuseFS {
    /// The invariants of the engine hold.
    pub open spec fn wf(&self) -> bool {
        self@.wf()
    }

    /// Makes an engine with no files, both counters at 1 and both maps empty.
    pub fn init(mountpoint: String, fs_name: String) -> (fs: FuseFS)
        ensures
            fs@ == FsModel::init(mountpoint@, fs_name@),
            fs.wf(),
    {
        let fs = FuseFS {
            mountpoint,
            fs_name,
            files: Vec::new(),
            ino_count: 1,
            fh_count: 1,
            ino_to_names: HashMap::new(),
            ino_to_fh: HashMap::new(),
        };
        assert(fs@.files =~= Seq::empty());
        assert(fs@.names =~= Map::empty());
        fs
    }

    /// The path the filesystem is to be mounted at.
    pub fn mountpoint(&self) -> (s: &str)
        ensures
            s@ == self@.mountpoint,
    {
        self.mountpoint.as_str()
    }

    /// The display name of the filesystem.
    pub fn fs_name(&self) -> (s: &str)
        ensures
            s@ == self@.fs_name,
    {
        self.fs_name.as_str()
    }

    /// The last inode issued.
    pub fn inode_count(&self) -> (n: u64)
        ensures
            n == self@.ino_count,
    {
        self.ino_count
    }

    /// The last handle issued.
    pub fn handle_count(&self) -> (n: u64)
        ensures
            n == self@.fh_count,
    {
        self.fh_count
    }

    /// The handle on record for `ino`, if there is one.
    pub fn handle_of(&self, ino: u64) -> (r: Option<u64>)
        ensures
            r == (if self@.handles.contains_key(ino) {
                Some(self@.handles[ino])
            } else {
                None
            }),
    {
        match self.ino_to_fh.get(&ino) {
            Some(fh) => Some(*fh),
            None => None,
        }
    }

    /// The position in the table of the record with inode `ino`.
    fn position_of_inode(&self, ino: u64) -> (r: Option<usize>)
        ensures
            match r {
                Some(i) => self@.find_inode(ino) == Some(i as int) && i < self.files.len(),
                None => self@.find_inode(ino).is_none(),
            },
    {
        let mut i: usize = 0;
        while i < self.files.len()
            invariant
                i <= self.files.len(),
                forall|j: int| 0 <= j < i ==> (#[trigger] self@.files[j]).attr.ino != ino,
            decreases self.files.len() - i,
        {
            if self.files[i].attr.ino == ino {
                assert(self@.is_first_with_inode(ino, i as int));
                return Some(i);
            }
            i += 1;
        }
        None
    }

    /// The position in the table of the first record named `name`.
    fn position_of_name(&self, name: &str) -> (r: Option<usize>)
        ensures
            match r {
                Some(i) => self@.find_name(name@) == Some(i as int) && i < self.files.len(),
                None => self@.find_name(name@).is_none(),
            },
    {
        let wanted = name.to_owned();
        let mut i: usize = 0;
        while i < self.files.len()
            invariant
                i <= self.files.len(),
                wanted@ == name@,
                forall|j: int| 0 <= j < i ==> (#[trigger] self@.files[j]).name != name@,
            decreases self.files.len() - i,
        {
            if self.files[i].name == wanted {
                assert(self@.is_first_named(name@, i as int));
                return Some(i);
            }
            i += 1;
        }
        None
    }

    /// Answers a lookup of `name` in the directory: the attributes of the
    /// first file of that name, to be cached for one second, at generation 0.
    /// `parent` is not examined. A name that is not text, or that no file
    /// has, is not found.
    pub fn lookup(&self, parent: u64, name: Option<&str>) -> (r: Result<EntryReply, FsError>)
        ensures
            r == entry_reply(self@.lookup_attr(name_view(name))),
    {
        match name {
            Some(n) => match self.position_of_name(n) {
                Some(i) => Ok(
                    EntryReply { ttl: CacheTtl::one_second(), attr: self.files[i].attr, generation: 0 },
                ),
                None => Err(FsError::NotFound),
            },
            None => Err(FsError::NotFound),
        }
    }

    /// Answers an attribute query on `ino` at instant `now`: for the root,
    /// directory attributes made on the spot for the asking user; for a
    /// file, its recorded attributes; otherwise not found.
    pub fn getattr_at(&self, ino: u64, uid: u32, gid: u32, now: Timestamp) -> (r: Result<
        AttrReply,
        FsError,
    >)
        ensures
            r == attr_reply(self@.attr_of(ino, uid, gid, now)),
    {
        if ino == ROOT_INO {
            let attr = FuseFsFile::create_dir_attr_at(ino, uid, gid, now);
            Ok(AttrReply { ttl: CacheTtl::one_second(), attr })
        } else {
            match self.position_of_inode(ino) {
                Some(i) => Ok(AttrReply { ttl: CacheTtl::one_second(), attr: self.files[i].attr }),
                None => Err(FsError::NotFound),
            }
        }
    }

    /// Answers an attribute query on `ino` at this moment.
    ///
    /// The answer is that of [`FuseFS::getattr_at`] for the instant the clock
    /// gave. For the root that instant is the creation time in the answer;
    /// for every other inode the answer does not depend on it.
    pub fn getattr(&self, ino: u64, uid: u32, gid: u32) -> (r: Result<AttrReply, FsError>)
        ensures
            ino == ROOT_INO ==> r is Ok && r == attr_reply(
                Some(dir_attr(ROOT_INO, uid, gid, r->Ok_0.attr.crtime)),
            ),
            ino != ROOT_INO ==> r == attr_reply(self@.recorded_attr(ino)),
    {
        let now = clock::now();
        self.getattr_at(ino, uid, gid, now)
    }

    /// Serves a create request at instant `now`: issues the next inode and
    /// the next handle, records the name and the handle under the inode, and
    /// appends an empty regular file owned by the requester. `parent`, `mode`
    /// and `umask` are not examined, and a name already in use is not
    /// refused. The answer never expires from the kernel's cache.
    pub fn create_at(
        &mut self,
        parent: u64,
        name: &str,
        mode: u32,
        umask: u32,
        flags: i32,
        uid: u32,
        gid: u32,
        now: Timestamp,
    ) -> (r: CreateReply)
        requires
            old(self).wf(),
            old(self)@.can_allocate(),
            name_fits(name@),
        ensures
            final(self)@ == old(self)@.after_create(name@, uid, gid, flags as u32, now),
            final(self).wf(),
            r == create_reply(old(self)@, uid, gid, flags as u32, now),
    {
        self.ino_count += 1;
        self.fh_count += 1;
        let ino = self.ino_count;
        let fh = self.fh_count;
        let flags = flags as u32;
        let attr = FuseFsFile::create_file_attr_at(ino, uid, gid, flags, now);
        let name = name.to_owned();
        self.ino_to_names.insert(ino, name.clone());
        self.ino_to_fh.insert(ino, fh);
        self.files.push(FuseFsFile { name, attr, file_type: FileKind::RegularFile, data: Vec::new() });
        proof {
            let next = old(self)@.after_create(name@, uid, gid, flags, now);
            assert(self@.files =~= next.files);
            assert(self@.names =~= next.names);
            old(self)@.lemma_create_keeps_wf(name@, uid, gid, flags, now);
        }
        CreateReply { ttl: CacheTtl::forever(), attr, ino, fh, flags }
    }

    /// Serves a create request at this moment.
    ///
    /// The outcome is that of [`FuseFS::create_at`] for the instant the clock
    /// gave, which is the creation time in the answer.
    pub fn create(
        &mut self,
        parent: u64,
        name: &str,
        mode: u32,
        umask: u32,
        flags: i32,
        uid: u32,
        gid: u32,
    ) -> (r: CreateReply)
        requires
            old(self).wf(),
            old(self)@.can_allocate(),
            name_fits(name@),
        ensures
            final(self)@ == old(self)@.after_create(name@, uid, gid, flags as u32, r.attr.crtime),
            final(self).wf(),
            r == create_reply(old(self)@, uid, gid, flags as u32, r.attr.crtime),
    {
        let now = clock::now();
        self.create_at(parent, name, mode, umask, flags, uid, gid, now)
    }

    /// Serves an open request: the handle recorded for `ino` if there is one,
    /// else a newly issued handle, which is then recorded. Whether a file
    /// has that inode is not examined.
    pub fn open(&mut self, ino: u64, flags: i32) -> (r: OpenReply)
        requires
            old(self).wf(),
            !old(self)@.handles.contains_key(ino) ==> old(self)@.fh_count < u64::MAX,
        ensures
            final(self)@ == old(self)@.after_open(ino),
            final(self).wf(),
            r == (OpenReply { fh: old(self)@.open_handle(ino), flags: direct_io() }),
    {
        match self.handle_of(ino) {
            Some(fh) => OpenReply::direct(fh),
            None => {
                self.fh_count += 1;
                self.ino_to_fh.insert(ino, self.fh_count);
                proof {
                    old(self)@.lemma_open_keeps_wf(ino);
                }
                OpenReply::direct(self.fh_count)
            },
        }
    }

    /// Serves a flush request: forgets the handle recorded for `ino`, whether
    /// or not it is `fh`. It cannot fail.
    pub fn flush(&mut self, ino: u64, fh: u64, lock_owner: u64)
        requires
            old(self).wf(),
        ensures
            final(self)@ == old(self)@.after_flush(ino),
            final(self).wf(),
    {
        self.ino_to_fh.remove(&ino);
        proof {
            old(self)@.lemma_flush_keeps_wf(ino);
        }
    }

    /// Serves a write request: appends `data` to the content of the file
    /// with inode `ino`, sets its reported size to the length of `data`, and
    /// answers with that length. `offset` is not applied. With no such file
    /// nothing changes and the inode is not found.
    pub fn write(
        &mut self,
        ino: u64,
        fh: u64,
        offset: i64,
        data: &[u8],
        write_flags: u32,
        flags: i32,
        lock_owner: Option<u64>,
    ) -> (r: Result<usize, FsError>)
        requires
            old(self).wf(),
        ensures
            final(self)@ == old(self)@.after_write(ino, data@),
            final(self).wf(),
            r == write_reply(old(self)@, ino, data@),
    {
        match self.position_of_inode(ino) {
            Some(i) => {
                append_bytes(&mut self.files[i].data, data);
                self.files[i].attr.size = data.len() as u64;
                proof {
                    let next = old(self)@.after_write(ino, data@);
                    assert(self@.files =~= next.files);
                    old(self)@.lemma_write_keeps_wf(ino, data@);
                }
                Ok(data.len())
            },
            None => Err(FsError::NotFound),
        }
    }

    /// Serves a read request: the content of the file with inode `ino` from
    /// `offset` to its end. `size` does not limit the answer. With no such
    /// file, or an offset outside the content, nothing is found.
    pub fn read(
        &self,
        ino: u64,
        fh: u64,
        offset: i64,
        size: u32,
        flags: i32,
        lock: Option<u64>,
    ) -> (r: Result<&[u8], FsError>)
        ensures
            match self@.content_from(ino, offset) {
                Some(bytes) => r is Ok && r->Ok_0@ == bytes,
                None => r == Err::<&[u8], FsError>(FsError::NotFound),
            },
    {
        match self.position_of_inode(ino) {
            Some(i) => {
                let content = self.files[i].data.as_slice();
                if offset < 0 || offset as u64 > content.len() as u64 {
                    Err(FsError::NotFound)
                } else {
                    Ok(vstd::slice::slice_subrange(content, offset as usize, content.len()))
                }
            },
            None => Err(FsError::NotFound),
        }
    }

    /// Lists the root directory from cursor `offset` on: one entry per file
    /// in order of creation, each reported as a regular file, then `.` and
    /// `..`, both the root itself. Each entry carries the cursor of the entry
    /// after it. A cursor outside the listing yields nothing; an inode other
    /// than the root is not found.
    pub fn list_directory(&self, ino: u64, fh: u64, offset: i64) -> (r: Result<
        Vec<DirEntry>,
        FsError,
    >)
        requires
            self.wf(),
        ensures
            ino != ROOT_INO ==> r is Err && r->Err_0 == FsError::NotFound,
            ino == ROOT_INO ==> r is Ok && entries_view(r->Ok_0@) == self@.entries_from(offset),
    {
        if ino != ROOT_INO {
            return Err(FsError::NotFound);
        }
        let mut out: Vec<DirEntry> = Vec::new();
        let n = self.files.len();
        if offset < 0 || offset as u64 > n as u64 + 1 {
            assert(entries_view(out@) =~= self@.entries_from(offset));
            return Ok(out);
        }
        let start = offset as u64;
        let ghost tail = self@.entries_from(offset);
        let mut i: usize = if start < n as u64 {
            start as usize
        } else {
            n
        };
        while i < n
            invariant
                n == self.files.len(),
                n < self.ino_count,
                0 <= start <= n + 1,
                start == offset,
                tail == self@.entries_from(offset),
                if start < n {
                    start <= i <= n
                } else {
                    i == n
                },
                start < n ==> entries_view(out@) =~= tail.take(i - start),
                start >= n ==> out@.len() == 0,
            decreases n - i,
        {
            let file = &self.files[i];
            let entry = DirEntry {
                ino: file.attr.ino,
                offset: #[verifier::truncate] ((i as u64 + 1) as i64),
                kind: FileKind::RegularFile,
                name: file.name.clone(),
            };
            assert(entry@ == self@.entry_at(i as int));
            out.push(entry);
            i += 1;
        }
        proof {
            reveal_strlit(".");
            reveal_strlit("..");
        }
        if start <= n as u64 {
            let entry = DirEntry {
                ino: ROOT_INO,
                offset: #[verifier::truncate] ((n as u64 + 1) as i64),
                kind: FileKind::Directory,
                name: ".".to_owned(),
            };
            assert(entry.name@ =~= dot());
            assert(entry@ == self@.entry_at(n as int));
            out.push(entry);
            assert(entries_view(out@) =~= tail.take(n - start + 1));
        }
        let entry = DirEntry {
            ino: ROOT_INO,
            offset: #[verifier::truncate] ((n as u128 + 2) as i64),
            kind: FileKind::Directory,
            name: "..".to_owned(),
        };
        assert(entry.name@ =~= dot_dot());
        assert(entry@ == self@.entry_at(n as int + 1));
        out.push(entry);
        proof {
            let all = self@.listing();
            assert(all.len() == n + 2);
            assert(tail.len() == n + 2 - start);
            assert(tail[tail.len() - 1] == all[n as int + 1]);
            assert(entries_view(out@).len() == tail.len());
            assert forall|j: int| 0 <= j < tail.len() implies entries_view(out@)[j] == tail[j] by {
                if j < tail.len() - 1 {
                    assert(tail.take(n - start + 1)[j] == tail[j]);
                }
            }
            assert(entries_view(out@) =~= tail);
        }
        Ok(out)
    }

    /// Serves a readdir request: adds the entries that
    /// [`FuseFS::list_directory`] yields to `reply`, in order, until all are
    /// added or the buffer refuses one, and answers with how many it added.
    /// The buffer refusing an entry is no failure: the kernel asks again with
    /// the cursor of the last entry it got. An inode other than the root is
    /// not found, and `reply` is left alone.
    pub fn readdir(&self, ino: u64, fh: u64, offset: i64, reply: &mut ReplyDirectory) -> (r: Result<
        usize,
        FsError,
    >)
        requires
            self.wf(),
        ensures
            ino != ROOT_INO ==> r is Err && r->Err_0 == FsError::NotFound && *final(reply) == *old(
                reply,
            ),
            ino == ROOT_INO ==> r is Ok && r->Ok_0 <= self@.entries_from(offset).len(),
            ino == ROOT_INO ==> reply_entries(*final(reply)) == reply_entries(*old(reply))
                + self@.entries_from(offset).take(r->Ok_0 as int),
            ino == ROOT_INO && r->Ok_0 < self@.entries_from(offset).len() ==> reply_refuses(
                *final(reply),
                self@.entries_from(offset)[r->Ok_0 as int].name,
            ),
    {
        let entries = match self.list_directory(ino, fh, offset) {
            Ok(entries) => entries,
            Err(e) => {
                return Err(e);
            },
        };
        let ghost tail = self@.entries_from(offset);
        let ghost before = reply_entries(*reply);
        proof {
            self@.lemma_listing_names_fit();
            assert(before + tail.take(0) =~= before);
        }
        let mut k: usize = 0;
        while k < entries.len()
            invariant
                ino == ROOT_INO,
                k <= entries.len(),
                tail == self@.entries_from(offset),
                before == reply_entries(*old(reply)),
                entries_view(entries@) == tail,
                forall|j: int| 0 <= j < tail.len() ==> name_fits((#[trigger] tail[j]).name),
                reply_entries(*reply) == before + tail.take(k as int),
            decreases entries.len() - k,
        {
            let entry = &entries[k];
            assert(entry@ == tail[k as int]);
            let full = reply_add(reply, entry.ino, entry.offset, entry.kind, entry.name.as_str());
            if full {
                return Ok(k);
            }
            assert(before + tail.take(k as int + 1) =~= (before + tail.take(k as int)).push(
                tail[k as int],
            ));
            k += 1;
        }
        Ok(k)
    }
}

} // verus!
