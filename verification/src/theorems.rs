//! What the engine guarantees across calls, proved over the model.

use crate::fusefsfile::{dir_attr, file_attr, FileKind, Timestamp};
use crate::model::{dot, dot_dot, name_fits, succ, DirEntryModel, FsModel, ROOT_INO};
use vstd::prelude::*;

verus! {

/// A request that changes the state.
pub enum Request {
    Create { name: Seq<char>, uid: u32, gid: u32, flags: u32, now: Timestamp },
    Open { ino: u64 },
    Flush { ino: u64 },
    Write { ino: u64, payload: Seq<u8> },
}

impl FsModel {
    /// The state after one request.
    pub open spec fn step(self, req: Request) -> FsModel {
        match req {
            Request::Create { name, uid, gid, flags, now } => self.after_create(
                name,
                uid,
                gid,
                flags,
                now,
            ),
            Request::Open { ino } => self.after_open(ino),
            Request::Flush { ino } => self.after_flush(ino),
            Request::Write { ino, payload } => self.after_write(ino, payload),
        }
    }

    /// The state after a sequence of requests, served in order.
    pub open spec fn run(self, reqs: Seq<Request>) -> FsModel
        decreases reqs.len(),
    {
        if reqs.len() == 0 {
            self
        } else {
            self.run(reqs.drop_last()).step(reqs.last())
        }
    }

    /// The inode that a request issues in this state, if it issues one.
    pub open spec fn issued_inode(self, req: Request) -> Option<u64> {
        match req {
            Request::Create { .. } => Some(succ(self.ino_count)),
            _ => None,
        }
    }

    /// The handle that a request issues in this state, if it issues one: a
    /// create always does, an open does unless the inode has a handle.
    pub open spec fn issued_handle(self, req: Request) -> Option<u64> {
        match req {
            Request::Create { .. } => Some(succ(self.fh_count)),
            Request::Open { ino } => if self.handles.contains_key(ino) {
                None
            } else {
                Some(succ(self.fh_count))
            },
            _ => None,
        }
    }

    /// The request can be served in this state: its name fits a directory
    /// entry and no counter it advances has run out.
    pub open spec fn admits(self, req: Request) -> bool {
        match req {
            Request::Create { name, .. } => self.can_allocate() && name_fits(name),
            Request::Open { ino } => !self.handles.contains_key(ino) ==> self.fh_count < u64::MAX,
            _ => true,
        }
    }

    /// Every request of the sequence can be served in the state it meets.
    pub open spec fn admits_all(self, reqs: Seq<Request>) -> bool {
        forall|k: int| 0 <= k < reqs.len() ==> (#[trigger] self.run(reqs.take(k))).admits(reqs[k])
    }

    /// A request that can be served keeps the invariants and lowers no
    /// counter.
    pub proof fn lemma_step_keeps_wf(self, req: Request)
        requires
            self.wf(),
            self.admits(req),
        ensures
            self.step(req).wf(),
            self.ino_count <= self.step(req).ino_count,
            self.fh_count <= self.step(req).fh_count,
    {
        match req {
            Request::Create { name, uid, gid, flags, now } => {
                self.lemma_create_keeps_wf(name, uid, gid, flags, now);
            },
            Request::Open { ino } => {
                self.lemma_open_keeps_wf(ino);
            },
            Request::Flush { ino } => {
                self.lemma_flush_keeps_wf(ino);
            },
            Request::Write { ino, payload } => {
                self.lemma_write_keeps_wf(ino, payload);
            },
        }
    }

    /// Serving the first `k + 1` requests is serving the first `k` and then
    /// request `k`.
    pub proof fn lemma_run_unfolds(self, reqs: Seq<Request>, k: int)
        requires
            0 <= k < reqs.len(),
        ensures
            self.run(reqs.take(k + 1)) == self.run(reqs.take(k)).step(reqs[k]),
    {
        assert(reqs.take(k + 1).drop_last() =~= reqs.take(k));
    }

    /// The invariants hold in every state that a sequence of requests
    /// passes through, and the counters never fall along the way.
    pub proof fn lemma_run_keeps_wf(self, reqs: Seq<Request>, i: int, j: int)
        requires
            self.wf(),
            self.admits_all(reqs),
            0 <= i <= j <= reqs.len(),
        ensures
            self.run(reqs.take(j)).wf(),
            self.run(reqs.take(i)).ino_count <= self.run(reqs.take(j)).ino_count,
            self.run(reqs.take(i)).fh_count <= self.run(reqs.take(j)).fh_count,
        decreases j,
    {
        if j == 0 {
            assert(reqs.take(0) =~= Seq::empty());
        } else {
            self.lemma_run_keeps_wf(reqs, if i < j { i } else { j - 1 }, j - 1);
            self.lemma_run_unfolds(reqs, j - 1);
            self.run(reqs.take(j - 1)).lemma_step_keeps_wf(reqs[j - 1]);
        }
    }

    /// Identifiers only grow: of two requests in one sequence that each issue
    /// an inode, the later one issues the larger inode, and likewise for
    /// handles. So no inode and no handle is ever issued twice.
    pub proof fn lemma_identifiers_increase(self, reqs: Seq<Request>, i: int, j: int)
        requires
            self.wf(),
            self.admits_all(reqs),
            0 <= i < j < reqs.len(),
        ensures
            ({
                let first = self.run(reqs.take(i)).issued_inode(reqs[i]);
                let second = self.run(reqs.take(j)).issued_inode(reqs[j]);
                first is Some && second is Some ==> first->0 < second->0
            }),
            ({
                let first = self.run(reqs.take(i)).issued_handle(reqs[i]);
                let second = self.run(reqs.take(j)).issued_handle(reqs[j]);
                first is Some && second is Some ==> first->0 < second->0
            }),
    {
        let before_i = self.run(reqs.take(i));
        let before_j = self.run(reqs.take(j));
        self.lemma_run_unfolds(reqs, i);
        self.lemma_run_keeps_wf(reqs, i + 1, j);
        assert(before_i.admits(reqs[i]));
        assert(before_j.admits(reqs[j]));
    }

    /// An issued inode is larger than the inode of every file there is, and
    /// an issued handle is larger than every handle on record.
    pub proof fn lemma_issued_is_fresh(self, req: Request)
        requires
            self.wf(),
            self.admits(req),
        ensures
            self.issued_inode(req) matches Some(ino) ==> ino != ROOT_INO && forall|i: int|
                0 <= i < self.files.len() ==> (#[trigger] self.files[i]).attr.ino < ino,
            self.issued_handle(req) matches Some(fh) ==> forall|ino: u64| #[trigger]
                self.handles.contains_key(ino) ==> self.handles[ino] < fh,
    {
    }

    /// A lookup of the name of a file that no earlier file shares returns
    /// that file's attributes as they stand.
    pub proof fn lemma_lookup_first_of_name(self, i: int)
        requires
            0 <= i < self.files.len(),
            forall|j: int| 0 <= j < i ==> (#[trigger] self.files[j]).name != self.files[i].name,
        ensures
            self.lookup_attr(Some(self.files[i].name)) == Some(self.files[i].attr),
    {
        assert(self.is_first_named(self.files[i].name, i));
    }

    /// A lookup of a name that no file has finds nothing.
    pub proof fn lemma_lookup_unknown_name(self, name: Seq<char>)
        requires
            forall|i: int| 0 <= i < self.files.len() ==> (#[trigger] self.files[i]).name != name,
        ensures
            self.lookup_attr(Some(name)) is None,
    {
    }

    /// After a file is created under a name that no file had, a lookup of
    /// that name returns the new file's attributes.
    pub proof fn lemma_lookup_finds_created(
        self,
        name: Seq<char>,
        uid: u32,
        gid: u32,
        flags: u32,
        now: Timestamp,
    )
        requires
            forall|i: int| 0 <= i < self.files.len() ==> (#[trigger] self.files[i]).name != name,
        ensures
            self.after_create(name, uid, gid, flags, now).lookup_attr(Some(name)) == Some(
                file_attr(succ(self.ino_count), uid, gid, flags, now),
            ),
    {
        let next = self.after_create(name, uid, gid, flags, now);
        next.lemma_lookup_first_of_name(self.files.len() as int);
    }

    /// Requests never remove or rename a file: every file keeps its place,
    /// its name and its inode through any sequence of requests.
    pub proof fn lemma_run_keeps_files(self, reqs: Seq<Request>, i: int)
        requires
            0 <= i < self.files.len(),
        ensures
            i < self.run(reqs).files.len(),
            self.run(reqs).files[i].name == self.files[i].name,
            self.run(reqs).files[i].attr.ino == self.files[i].attr.ino,
        decreases reqs.len(),
    {
        if reqs.len() > 0 {
            self.lemma_run_keeps_files(reqs.drop_last(), i);
        }
    }

    /// The root is a directory whatever the file table holds: an attribute
    /// query on inode 1 always succeeds with directory attributes.
    pub proof fn lemma_root_is_directory(self, uid: u32, gid: u32, now: Timestamp)
        ensures
            self.attr_of(ROOT_INO, uid, gid, now) == Some(dir_attr(ROOT_INO, uid, gid, now)),
            dir_attr(ROOT_INO, uid, gid, now).kind == FileKind::Directory,
    {
    }

    /// In a well-formed state no file has the root's inode, and the record
    /// found for an inode is the only one with that inode.
    pub proof fn lemma_inodes_identify_files(self, i: int)
        requires
            self.wf(),
            0 <= i < self.files.len(),
        ensures
            self.files[i].attr.ino != ROOT_INO,
            self.find_inode(self.files[i].attr.ino) == Some(i),
    {
        assert(self.is_first_with_inode(self.files[i].attr.ino, i));
    }

    /// Reading a file from its start after a write yields what it held
    /// before followed by the payload, while its reported size is the length
    /// of the payload alone.
    pub proof fn lemma_read_after_write(self, i: int, payload: Seq<u8>)
        requires
            self.wf(),
            0 <= i < self.files.len(),
        ensures
            ({
                let ino = self.files[i].attr.ino;
                let next = self.after_write(ino, payload);
                &&& next.content_from(ino, 0) == Some(self.files[i].data + payload)
                &&& next.files[i].attr.size == payload.len() as u64
                &&& next.files[i].attr.ino == ino
            }),
    {
        let ino = self.files[i].attr.ino;
        let next = self.after_write(ino, payload);
        self.lemma_inodes_identify_files(i);
        self.lemma_write_keeps_wf(ino, payload);
        next.lemma_inodes_identify_files(i);
        let content = self.files[i].data + payload;
        assert(content.subrange(0, content.len() as int) =~= content);
    }

    /// Two writes to one file accumulate: the content ends with the first
    /// payload followed by the second, and the reported size is the length
    /// of the second.
    pub proof fn lemma_writes_accumulate(self, i: int, first: Seq<u8>, second: Seq<u8>)
        requires
            self.wf(),
            0 <= i < self.files.len(),
        ensures
            ({
                let ino = self.files[i].attr.ino;
                let next = self.after_write(ino, first).after_write(ino, second);
                &&& next.content_from(ino, 0) == Some(self.files[i].data + first + second)
                &&& next.files[i].attr.size == second.len() as u64
            }),
    {
        let ino = self.files[i].attr.ino;
        let middle = self.after_write(ino, first);
        self.lemma_read_after_write(i, first);
        self.lemma_write_keeps_wf(ino, first);
        self.lemma_inodes_identify_files(i);
        middle.lemma_read_after_write(i, second);
    }

    /// The listing is complete: it holds one entry per file, in order of
    /// creation and under the file's inode and name, then `.` and `..` for
    /// the root. No two file entries share an inode, and none has the
    /// root's. A listing from cursor 0 is the whole listing.
    pub proof fn lemma_listing_complete(self)
        requires
            self.wf(),
        ensures
            self.listing().len() == self.files.len() + 2,
            self.entries_from(0) == self.listing(),
            forall|i: int|
                0 <= i < self.files.len() ==> (#[trigger] self.listing()[i]) == (DirEntryModel {
                    ino: self.files[i].attr.ino,
                    offset: (i + 1) as i64,
                    kind: FileKind::RegularFile,
                    name: self.files[i].name,
                }),
            self.listing()[self.files.len() as int] == (DirEntryModel {
                ino: ROOT_INO,
                offset: (self.files.len() + 1) as i64,
                kind: FileKind::Directory,
                name: dot(),
            }),
            self.listing()[self.files.len() as int + 1] == (DirEntryModel {
                ino: ROOT_INO,
                offset: (self.files.len() + 2) as i64,
                kind: FileKind::Directory,
                name: dot_dot(),
            }),
            forall|i: int, j: int|
                0 <= i < j < self.files.len() ==> (#[trigger] self.listing()[i]).ino != (
                #[trigger] self.listing()[j]).ino,
            forall|i: int|
                0 <= i < self.files.len() ==> (#[trigger] self.listing()[i]).ino != ROOT_INO,
    {
        assert(self.listing().subrange(0, self.listing().len() as int) =~= self.listing());
    }

    /// Paging resumes where it stopped: a listing from cursor `k` is the
    /// listing from cursor 0 without its first `k` entries, and a cursor
    /// outside the listing yields nothing.
    pub proof fn lemma_paging_resumes(self, k: i64)
        ensures
            0 <= k <= self.listing().len() ==> self.entries_from(k) == self.entries_from(0).skip(
                k as int,
            ),
            k < 0 || k > self.listing().len() ==> self.entries_from(k) == Seq::<
                DirEntryModel,
            >::empty(),
    {
        assert(self.listing().subrange(0, self.listing().len() as int) =~= self.listing());
    }

    /// The cursor that comes with an entry leads to the entries after it: a
    /// listing from cursor `k`, without the entries before cursor `m`, is the
    /// listing from cursor `m`.
    pub proof fn lemma_paging_continues(self, k: i64, m: i64)
        requires
            0 <= k <= m <= self.listing().len(),
        ensures
            self.entries_from(k).skip(m - k) == self.entries_from(m),
    {
        assert(self.entries_from(k).skip(m - k) =~= self.entries_from(m));
    }

    /// Flushing twice is flushing once, and after a flush the inode has no
    /// handle on record.
    pub proof fn lemma_flush_idempotent(self, ino: u64)
        ensures
            !self.after_flush(ino).handles.contains_key(ino),
            self.after_flush(ino).after_flush(ino) == self.after_flush(ino),
    {
        assert(self.after_flush(ino).handles.remove(ino) =~= self.after_flush(ino).handles);
    }
}

} // verus!
