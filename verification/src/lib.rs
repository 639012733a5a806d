//! In-memory state engine for a flat, single-directory user-space filesystem.
//!
//! The engine keeps a table of files, two monotonic counters (inodes and file
//! handles) and the inode-to-name and inode-to-handle maps, and answers the
//! requests a kernel bridge issues: create, open, flush, write, lookup,
//! getattr, read and readdir. Every handler is verified against a mathematical
//! model of the state.

mod clock;
pub mod dirreply;
pub mod fusefs;
pub mod fusefsfile;
pub mod model;
pub mod reply;
pub mod theorems;

pub use dirreply::DirEntry;
pub use fusefs::FuseFS;
pub use fusefsfile::{FileAttr, FileKind, FuseFsFile, Timestamp};
pub use reply::{AttrReply, CacheTtl, CreateReply, EntryReply, FsError, OpenReply};
