//! The mathematical model of the engine's state and of each operation on it.
//!
//! Every handler of the engine is specified as a function on [`FsModel`]; the
//! lemmas at the end of the file state what those functions guarantee across
//! calls.

use crate::fusefsfile::{dir_attr, file_attr, FileAttr, FileKind, Timestamp};
use vstd::prelude::*;

verus! {

/// The inode of the root directory, the only directory there is.
pub const ROOT_INO: u64 = 1;

/// A file record as the specification sees it.
pub struct FileModel {
    pub name: Seq<char>,
    pub attr: FileAttr,
    pub file_type: FileKind,
    pub data: Seq<u8>,
}

/// One entry of the directory listing: the inode, the cursor at which a
/// listing resumes after this entry, the kind and the name.
pub struct DirEntryModel {
    pub ino: u64,
    pub offset: i64,
    pub kind: FileKind,
    pub name: Seq<char>,
}

/// The whole state of the engine.
pub struct FsModel {
    pub mountpoint: Seq<char>,
    pub fs_name: Seq<char>,
    /// The file table, in order of creation.
    pub files: Seq<FileModel>,
    /// The last inode issued; 1 while no file exists.
    pub ino_count: u64,
    /// The last handle issued.
    pub fh_count: u64,
    /// The name each inode was created under.
    pub names: Map<u64, Seq<char>>,
    /// The most recent handle of each inode that has one.
    pub handles: Map<u64, u64>,
}

/// The name of the entry that stands for the directory itself.
pub open spec fn dot() -> Seq<char> {
    seq!['.']
}

/// The name of the entry that stands for the parent directory.
pub open spec fn dot_dot() -> Seq<char> {
    seq!['.', '.']
}

/// A directory entry carries the length of its name in 32 bits, so a name
/// must encode to no more bytes than that.
pub open spec fn name_fits(name: Seq<char>) -> bool {
    vstd::utf8::encode_utf8(name).len() <= u32::MAX
}

/// The successor of a counter.
pub open spec fn succ(n: u64) -> u64 {
    (n + 1) as u64
}

impl FsModel {
    /// The state of a freshly initialised engine.
    pub open spec fn init(mountpoint: Seq<char>, fs_name: Seq<char>) -> FsModel {
        FsModel {
            mountpoint,
            fs_name,
            files: Seq::empty(),
            ino_count: ROOT_INO,
            fh_count: 1,
            names: Map::empty(),
            handles: Map::empty(),
        }
    }

    /// The invariants of the state.
    pub open spec fn wf(self) -> bool {
        &&& ROOT_INO <= self.ino_count
        &&& forall|i: int|
            0 <= i < self.files.len() ==> ROOT_INO < (#[trigger] self.files[i]).attr.ino
                <= self.ino_count
        &&& forall|i: int, j: int|
            0 <= i < j < self.files.len() ==> (#[trigger] self.files[i]).attr.ino != (
            #[trigger] self.files[j]).attr.ino
        &&& forall|i: int|
            0 <= i < self.files.len() ==> self.names.contains_key(
                (#[trigger] self.files[i]).attr.ino,
            ) && self.names[self.files[i].attr.ino] == self.files[i].name
        &&& forall|i: int| 0 <= i < self.files.len() ==> name_fits((#[trigger] self.files[i]).name)
        &&& forall|ino: u64| #[trigger]
            self.handles.contains_key(ino) ==> self.handles[ino] <= self.fh_count
        &&& self.files.len() < self.ino_count
    }

    /// Both counters can still grow.
    pub open spec fn can_allocate(self) -> bool {
        self.ino_count < u64::MAX && self.fh_count < u64::MAX
    }

    /// `i` is the first record whose inode is `ino`.
    pub open spec fn is_first_with_inode(self, ino: u64, i: int) -> bool {
        &&& 0 <= i < self.files.len()
        &&& self.files[i].attr.ino == ino
        &&& forall|j: int| 0 <= j < i ==> (#[trigger] self.files[j]).attr.ino != ino
    }

    /// The position of the first record whose inode is `ino`.
    pub open spec fn find_inode(self, ino: u64) -> Option<int> {
        if exists|i: int| self.is_first_with_inode(ino, i) {
            Some(choose|i: int| self.is_first_with_inode(ino, i))
        } else {
            None
        }
    }

    /// `i` is the first record whose name is `name`.
    pub open spec fn is_first_named(self, name: Seq<char>, i: int) -> bool {
        &&& 0 <= i < self.files.len()
        &&& self.files[i].name == name
        &&& forall|j: int| 0 <= j < i ==> (#[trigger] self.files[j]).name != name
    }

    /// The position of the first record whose name is `name`.
    pub open spec fn find_name(self, name: Seq<char>) -> Option<int> {
        if exists|i: int| self.is_first_named(name, i) {
            Some(choose|i: int| self.is_first_named(name, i))
        } else {
            None
        }
    }

    /// The record that a create request adds.
    pub open spec fn new_file(
        self,
        name: Seq<char>,
        uid: u32,
        gid: u32,
        flags: u32,
        now: Timestamp,
    ) -> FileModel {
        FileModel {
            name,
            attr: file_attr(succ(self.ino_count), uid, gid, flags, now),
            file_type: FileKind::RegularFile,
            data: Seq::empty(),
        }
    }

    /// The state after a create request.
    pub open spec fn after_create(
        self,
        name: Seq<char>,
        uid: u32,
        gid: u32,
        flags: u32,
        now: Timestamp,
    ) -> FsModel {
        FsModel {
            files: self.files.push(self.new_file(name, uid, gid, flags, now)),
            ino_count: succ(self.ino_count),
            fh_count: succ(self.fh_count),
            names: self.names.insert(succ(self.ino_count), name),
            handles: self.handles.insert(succ(self.ino_count), succ(self.fh_count)),
            ..self
        }
    }

    /// The handle that an open request on `ino` returns.
    pub open spec fn open_handle(self, ino: u64) -> u64 {
        if self.handles.contains_key(ino) {
            self.handles[ino]
        } else {
            succ(self.fh_count)
        }
    }

    /// The state after an open request on `ino`.
    pub open spec fn after_open(self, ino: u64) -> FsModel {
        if self.handles.contains_key(ino) {
            self
        } else {
            FsModel {
                fh_count: succ(self.fh_count),
                handles: self.handles.insert(ino, succ(self.fh_count)),
                ..self
            }
        }
    }

    /// The state after a flush request on `ino`.
    pub open spec fn after_flush(self, ino: u64) -> FsModel {
        FsModel { handles: self.handles.remove(ino), ..self }
    }

    /// A record after `payload` was written to it: the content grows by the
    /// payload, the reported size becomes the payload's length.
    pub open spec fn written_file(file: FileModel, payload: Seq<u8>) -> FileModel {
        FileModel {
            attr: FileAttr { size: payload.len() as u64, ..file.attr },
            data: file.data + payload,
            ..file
        }
    }

    /// The state after a write request on `ino`; unchanged if no record has
    /// that inode.
    pub open spec fn after_write(self, ino: u64, payload: Seq<u8>) -> FsModel {
        match self.find_inode(ino) {
            Some(i) => FsModel {
                files: self.files.update(i, Self::written_file(self.files[i], payload)),
                ..self
            },
            None => self,
        }
    }

    /// What a read request on `ino` at `offset` returns: the content from
    /// `offset` to its end, or nothing if no record has that inode or the
    /// offset lies outside the content.
    pub open spec fn content_from(self, ino: u64, offset: i64) -> Option<Seq<u8>> {
        match self.find_inode(ino) {
            Some(i) => if 0 <= offset <= self.files[i].data.len() {
                Some(self.files[i].data.subrange(offset as int, self.files[i].data.len() as int))
            } else {
                None
            },
            None => None,
        }
    }

    /// What a lookup of `name` returns: the attributes of the first record of
    /// that name. A name that is not valid text arrives as `None`.
    pub open spec fn lookup_attr(self, name: Option<Seq<char>>) -> Option<FileAttr> {
        match name {
            Some(n) => match self.find_name(n) {
                Some(i) => Some(self.files[i].attr),
                None => None,
            },
            None => None,
        }
    }

    /// The attributes on record for the file with inode `ino`.
    pub open spec fn recorded_attr(self, ino: u64) -> Option<FileAttr> {
        match self.find_inode(ino) {
            Some(i) => Some(self.files[i].attr),
            None => None,
        }
    }

    /// What an attribute query on `ino` returns at instant `now`, asked by
    /// user `uid` of group `gid`: the root's attributes are made on the spot,
    /// a file's are those on record.
    pub open spec fn attr_of(self, ino: u64, uid: u32, gid: u32, now: Timestamp) -> Option<
        FileAttr,
    > {
        if ino == ROOT_INO {
            Some(dir_attr(ROOT_INO, uid, gid, now))
        } else {
            self.recorded_attr(ino)
        }
    }

    /// The entry at position `i` of the listing.
    pub open spec fn entry_at(self, i: int) -> DirEntryModel {
        if i < self.files.len() {
            DirEntryModel {
                ino: self.files[i].attr.ino,
                offset: (i + 1) as i64,
                kind: FileKind::RegularFile,
                name: self.files[i].name,
            }
        } else if i == self.files.len() {
            DirEntryModel {
                ino: ROOT_INO,
                offset: (i + 1) as i64,
                kind: FileKind::Directory,
                name: dot(),
            }
        } else {
            DirEntryModel {
                ino: ROOT_INO,
                offset: (i + 1) as i64,
                kind: FileKind::Directory,
                name: dot_dot(),
            }
        }
    }

    /// The whole listing of the root directory: one entry per record, in
    /// order of creation, then `.` and `..`.
    pub open spec fn listing(self) -> Seq<DirEntryModel> {
        Seq::new(self.files.len() + 2, |i: int| self.entry_at(i))
    }

    /// The part of the listing that a request with cursor `offset` is owed.
    pub open spec fn entries_from(self, offset: i64) -> Seq<DirEntryModel> {
        if 0 <= offset <= self.listing().len() {
            self.listing().subrange(offset as int, self.listing().len() as int)
        } else {
            Seq::empty()
        }
    }

    /// A create request keeps the invariants.
    pub proof fn lemma_create_keeps_wf(
        self,
        name: Seq<char>,
        uid: u32,
        gid: u32,
        flags: u32,
        now: Timestamp,
    )
        requires
            self.wf(),
            self.can_allocate(),
            name_fits(name),
        ensures
            self.after_create(name, uid, gid, flags, now).wf(),
    {
    }

    /// An open request keeps the invariants.
    pub proof fn lemma_open_keeps_wf(self, ino: u64)
        requires
            self.wf(),
            !self.handles.contains_key(ino) ==> self.fh_count < u64::MAX,
        ensures
            self.after_open(ino).wf(),
    {
    }

    /// A flush request keeps the invariants.
    pub proof fn lemma_flush_keeps_wf(self, ino: u64)
        requires
            self.wf(),
        ensures
            self.after_flush(ino).wf(),
    {
    }

    /// A write request keeps the invariants.
    pub proof fn lemma_write_keeps_wf(self, ino: u64, payload: Seq<u8>)
        requires
            self.wf(),
        ensures
            self.after_write(ino, payload).wf(),
    {
    }

    /// Every name in the listing fits a directory entry.
    pub proof fn lemma_listing_names_fit(self)
        requires
            self.wf(),
        ensures
            forall|i: int|
                0 <= i < self.listing().len() ==> name_fits((#[trigger] self.listing()[i]).name),
    {
        vstd::utf8::is_ascii_chars_encode_utf8(dot());
        vstd::utf8::is_ascii_chars_encode_utf8(dot_dot());
    }
}

} // verus!
