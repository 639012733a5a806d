//! Directory entries and the kernel's reply buffer for a directory listing.

use crate::fusefsfile::FileKind;
use crate::model::{name_fits, DirEntryModel};
use fuser::ReplyDirectory;
use vstd::prelude::*;

verus! {

/// One entry of a directory listing.
#[derive(Debug)]
pub struct DirEntry {
    /// Inode of the entry.
    pub ino: u64,
    /// Cursor at which a listing resumes after this entry.
    pub offset: i64,
    /// Kind of the entry.
    pub kind: FileKind,
    /// Name of the entry.
    pub name: String,
}

impl View for DirEntry {
    type V = DirEntryModel;

    open spec fn view(&self) -> DirEntryModel {
        DirEntryModel { ino: self.ino, offset: self.offset, kind: self.kind, name: self.name@ }
    }
}

/// The entries as the specification sees them.
pub open spec fn entries_view(entries: Seq<DirEntry>) -> Seq<DirEntryModel> {
    entries.map_values(|e: DirEntry| e@)
}

/// `fuser::ReplyDirectory`, the buffer in which the answer to one readdir
/// request is assembled. It is bounded by the size the kernel asked for.
#[verifier::external_type_specification]
#[verifier::external_body]
pub struct ExReplyDirectory(ReplyDirectory);

/// The entries that a reply buffer holds, in the order they were added.
pub uninterp spec fn reply_entries(reply: ReplyDirectory) -> Seq<DirEntryModel>;

/// Whether a reply buffer has no room left for an entry of the given name.
pub uninterp spec fn reply_refuses(reply: ReplyDirectory, name: Seq<char>) -> bool;

/// Calls `fuser::ReplyDirectory::add`.
///
/// As its source shows, `add` measures the entry (a header of fixed size and
/// the bytes of the name, padded to eight bytes) against the room left in the
/// buffer. If the entry does not fit, it returns `true` and leaves the buffer
/// as it was; otherwise it appends the entry and returns `false`. It panics
/// on a name whose length does not fit in 32 bits, which the precondition
/// excludes.
#[verifier::external_body]
pub(crate) fn reply_add(
    reply: &mut ReplyDirectory,
    ino: u64,
    offset: i64,
    kind: FileKind,
    name: &str,
) -> (full: bool)
    requires
        name_fits(name@),
    ensures
        full == reply_refuses(*old(reply), name@),
        full ==> *final(reply) == *old(reply),
        !full ==> reply_entries(*final(reply)) == reply_entries(*old(reply)).push(
            (DirEntryModel { ino, offset, kind, name: name@ }),
        ),
{
    let kind = match kind {
        FileKind::NamedPipe => fuser::FileType::NamedPipe,
        FileKind::CharDevice => fuser::FileType::CharDevice,
        FileKind::BlockDevice => fuser::FileType::BlockDevice,
        FileKind::Directory => fuser::FileType::Directory,
        FileKind::RegularFile => fuser::FileType::RegularFile,
        FileKind::Symlink => fuser::FileType::Symlink,
        FileKind::Socket => fuser::FileType::Socket,
    };
    reply.add(ino, offset, kind, name)
}

} // verus!
