//! The values the handlers hand back to the transport.

use crate::fusefsfile::FileAttr;
use vstd::prelude::*;

verus! {

/// The two failures a handler can report.
#[derive(Clone, Copy, Debug, PartialEq, Eq, Structural)]
pub enum FsError {
    /// No entry of that name or inode, or a read outside the content.
    NotFound,
    /// The operation is not permitted on this filesystem. No handler
    /// reports it at present.
    ReadOnly,
}

/// How long the kernel may cache an answer.
#[derive(Clone, Copy, Debug, PartialEq, Eq, Structural)]
pub struct CacheTtl {
    pub secs: u64,
    pub nanos: u32,
}

/// The lifetime of looked-up entries and attributes: one second.
pub open spec fn ttl_one_second() -> CacheTtl {
    CacheTtl { secs: 1, nanos: 0 }
}

/// The lifetime of a created entry: the longest duration there is.
pub open spec fn ttl_forever() -> CacheTtl {
    CacheTtl { secs: u64::MAX, nanos: 999_999_999 }
}

impl CacheTtl {
    /// One second.
    pub fn one_second() -> (t: CacheTtl)
        ensures
            t == ttl_one_second(),
    {
        CacheTtl { secs: 1, nanos: 0 }
    }

    /// The longest duration there is.
    pub fn forever() -> (t: CacheTtl)
        ensures
            t == ttl_forever(),
    {
        CacheTtl { secs: u64::MAX, nanos: 999_999_999 }
    }
}

/// The answer to a lookup.
#[derive(Clone, Copy, Debug, PartialEq, Eq, Structural)]
pub struct EntryReply {
    pub ttl: CacheTtl,
    pub attr: FileAttr,
    pub generation: u64,
}

/// The answer to an attribute query.
#[derive(Clone, Copy, Debug, PartialEq, Eq, Structural)]
pub struct AttrReply {
    pub ttl: CacheTtl,
    pub attr: FileAttr,
}

/// The answer to a create request.
#[derive(Clone, Copy, Debug, PartialEq, Eq, Structural)]
pub struct CreateReply {
    pub ttl: CacheTtl,
    pub attr: FileAttr,
    pub ino: u64,
    pub fh: u64,
    pub flags: u32,
}

/// The answer to an open request.
#[derive(Clone, Copy, Debug, PartialEq, Eq, Structural)]
pub struct OpenReply {
    pub fh: u64,
    pub flags: u32,
}

/// The open flag that tells the kernel to bypass its page cache.
pub open spec fn direct_io() -> u32 {
    1
}

/// The error number that stands for each failure.
pub open spec fn errno_of(e: FsError) -> i32 {
    match e {
        FsError::NotFound => 2,
        FsError::ReadOnly => 30,
    }
}

/// The constant `fuser::consts::FOPEN_DIRECT_IO`, which fuser defines as
/// bit 0 of the open flags.
#[verifier::external_body]
pub(crate) fn fopen_direct_io() -> (flags: u32)
    ensures
        flags == direct_io(),
{
    fuser::consts::FOPEN_DIRECT_IO
}

/// The constant `libc::ENOENT`, "no such file or directory", which libc
/// defines as 2 on Linux, Android, macOS and the BSDs.
#[verifier::external_body]
pub(crate) fn enoent() -> (code: i32)
    ensures
        code == 2,
{
    libc::ENOENT
}

/// The constant `libc::EROFS`, "read-only file system", which libc defines
/// as 30 on Linux, Android, macOS and the BSDs.
#[verifier::external_body]
pub(crate) fn erofs() -> (code: i32)
    ensures
        code == 30,
{
    libc::EROFS
}

impl FsError {
    /// The error number the transport reports for this failure.
    pub fn errno(self) -> (code: i32)
        ensures
            code == errno_of(self),
    {
        match self {
            FsError::NotFound => enoent(),
            FsError::ReadOnly => erofs(),
        }
    }
}

impl OpenReply {
    /// The answer to an open request that yields handle `fh`: every session
    /// is told to use direct I/O.
    pub fn direct(fh: u64) -> (r: OpenReply)
        ensures
            r == (OpenReply { fh, flags: direct_io() }),
    {
        OpenReply { fh, flags: fopen_direct_io() }
    }
}

} // verus!
