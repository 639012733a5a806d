//! File records and the attribute factory.

use crate::clock;
use crate::model::FileModel;
use vstd::prelude::*;

verus! {

/// Block size reported for every entry.
pub const BLOCK_SIZE: u32 = 512;

/// Permission bits of a regular file: `rw-r--r--`.
pub const FILE_PERM: u16 = 0o644;

/// Permission bits of the root directory: `rwxr-xr-x`.
pub const DIR_PERM: u16 = 0o755;

/// Link count reported for every entry.
pub const LINK_COUNT: u32 = 2;

/// An instant, held as its distance from the Unix epoch.
#[derive(Clone, Copy, Debug, PartialEq, Eq, Structural)]
pub struct Timestamp {
    /// Whether the instant lies before the epoch.
    pub before_epoch: bool,
    /// Whole seconds between the instant and the epoch.
    pub secs: u64,
    /// Nanoseconds beyond the whole seconds.
    pub nanos: u32,
}

impl Timestamp {
    /// The Unix epoch itself.
    pub open spec fn epoch() -> Timestamp {
        Timestamp { before_epoch: false, secs: 0, nanos: 0 }
    }

    /// The fractional part is less than one second.
    pub open spec fn wf(self) -> bool {
        self.nanos < 1_000_000_000
    }

    /// The Unix epoch.
    pub fn unix_epoch() -> (t: Timestamp)
        ensures
            t == Timestamp::epoch(),
            t.wf(),
    {
        Timestamp { before_epoch: false, secs: 0, nanos: 0 }
    }
}

/// The kind of a directory entry.
#[derive(Clone, Copy, Debug, PartialEq, Eq, Structural)]
pub enum FileKind {
    NamedPipe,
    CharDevice,
    BlockDevice,
    Directory,
    RegularFile,
    Symlink,
    Socket,
}

/// The descriptor record of a file or of the root directory.
#[derive(Clone, Copy, Debug, PartialEq, Eq, Structural)]
pub struct FileAttr {
    /// Inode number.
    pub ino: u64,
    /// Reported size in bytes.
    pub size: u64,
    /// Reported size in blocks.
    pub blocks: u64,
    /// Time of last access.
    pub atime: Timestamp,
    /// Time of last modification.
    pub mtime: Timestamp,
    /// Time of last status change.
    pub ctime: Timestamp,
    /// Time of creation.
    pub crtime: Timestamp,
    /// Kind of entry.
    pub kind: FileKind,
    /// Permission bits.
    pub perm: u16,
    /// Number of hard links.
    pub nlink: u32,
    /// Owning user.
    pub uid: u32,
    /// Owning group.
    pub gid: u32,
    /// Device number.
    pub rdev: u32,
    /// Block size.
    pub blksize: u32,
    /// Flags.
    pub flags: u32,
}

/// The attributes of a regular file made at instant `now`.
pub open spec fn file_attr(ino: u64, uid: u32, gid: u32, flags: u32, now: Timestamp) -> FileAttr {
    FileAttr {
        ino,
        size: 0,
        blocks: 0,
        atime: Timestamp::epoch(),
        mtime: now,
        ctime: now,
        crtime: now,
        kind: FileKind::RegularFile,
        perm: FILE_PERM,
        nlink: LINK_COUNT,
        uid,
        gid,
        rdev: 0,
        blksize: BLOCK_SIZE,
        flags,
    }
}

/// The attributes of a directory made at instant `now`.
pub open spec fn dir_attr(ino: u64, uid: u32, gid: u32, now: Timestamp) -> FileAttr {
    FileAttr {
        ino,
        size: 0,
        blocks: 0,
        atime: Timestamp::epoch(),
        mtime: now,
        ctime: now,
        crtime: now,
        kind: FileKind::Directory,
        perm: DIR_PERM,
        nlink: LINK_COUNT,
        uid,
        gid,
        rdev: 0,
        blksize: BLOCK_SIZE,
        flags: 0,
    }
}

/// One file of the flat directory: its name, descriptor and whole content.
pub struct FuseFsFile {
    pub name: String,
    pub attr: FileAttr,
    pub file_type: FileKind,
    pub data: Vec<u8>,
}

impl View for FuseFsFile {
    type V = FileModel;

    open spec fn view(&self) -> FileModel {
        FileModel {
            name: self.name@,
            attr: self.attr,
            file_type: self.file_type,
            data: self.data@,
        }
    }
}

impl FuseFsFile {
    /// Builds the attributes of a regular file whose timestamps are `now`.
    pub fn create_file_attr_at(ino: u64, uid: u32, gid: u32, flags: u32, now: Timestamp) -> (attr:
        FileAttr)
        ensures
            attr == file_attr(ino, uid, gid, flags, now),
    {
        FileAttr {
            ino,
            size: 0,
            blocks: 0,
            atime: Timestamp::unix_epoch(),
            mtime: now,
            ctime: now,
            crtime: now,
            kind: FileKind::RegularFile,
            perm: FILE_PERM,
            nlink: LINK_COUNT,
            uid,
            gid,
            rdev: 0,
            blksize: BLOCK_SIZE,
            flags,
        }
    }

    /// Builds the attributes of a directory whose timestamps are `now`.
    pub fn create_dir_attr_at(ino: u64, uid: u32, gid: u32, now: Timestamp) -> (attr: FileAttr)
        ensures
            attr == dir_attr(ino, uid, gid, now),
    {
        FileAttr {
            ino,
            size: 0,
            blocks: 0,
            atime: Timestamp::unix_epoch(),
            mtime: now,
            ctime: now,
            crtime: now,
            kind: FileKind::Directory,
            perm: DIR_PERM,
            nlink: LINK_COUNT,
            uid,
            gid,
            rdev: 0,
            blksize: BLOCK_SIZE,
            flags: 0,
        }
    }

    /// Builds the attributes of a regular file created at this moment.
    ///
    /// Everything but the instant is fixed by the arguments; the instant is
    /// whatever the clock gave, and it is the creation time of the result.
    pub fn create_file_attr(ino: u64, uid: u32, gid: u32, flags: u32) -> (attr: FileAttr)
        ensures
            attr == file_attr(ino, uid, gid, flags, attr.crtime),
            attr.crtime.wf(),
    {
        let now = clock::now();
        Self::create_file_attr_at(ino, uid, gid, flags, now)
    }

    /// Builds the attributes of a directory created at this moment.
    ///
    /// Everything but the instant is fixed by the arguments; the instant is
    /// whatever the clock gave, and it is the creation time of the result.
    pub fn create_dir_attr(ino: u64, uid: u32, gid: u32) -> (attr: FileAttr)
        ensures
            attr == dir_attr(ino, uid, gid, attr.crtime),
            attr.crtime.wf(),
    {
        let now = clock::now();
        Self::create_dir_attr_at(ino, uid, gid, now)
    }
}

} // verus!
