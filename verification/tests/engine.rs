use fusefs::{CacheTtl, FileKind, FsError, FuseFS, Timestamp};

const T0: Timestamp = Timestamp { before_epoch: false, secs: 100, nanos: 7 };
const T1: Timestamp = Timestamp { before_epoch: false, secs: 200, nanos: 9 };

fn fresh() -> FuseFS {
    FuseFS::init(String::from("/tmp/fusefs"), String::from("fusefs"))
}

fn create(fs: &mut FuseFS, name: &str) -> (u64, u64) {
    let reply = fs.create_at(1, name, 0o100644, 0o022, 0, 1000, 1000, T0);
    (reply.ino, reply.fh)
}

#[test]
fn a_fresh_engine_is_empty() {
    let fs = fresh();
    assert_eq!(fs.mountpoint(), "/tmp/fusefs");
    assert_eq!(fs.fs_name(), "fusefs");
    assert_eq!(fs.inode_count(), 1);
    assert_eq!(fs.handle_count(), 1);
    assert_eq!(fs.handle_of(1), None);
    assert_eq!(fs.lookup(1, Some("a.txt")), Err(FsError::NotFound));
    assert_eq!(fs.list_directory(1, 0, 0).unwrap().len(), 2);
}

#[test]
fn create_answers_with_the_new_file() {
    let mut fs = fresh();
    let reply = fs.create_at(1, "a.txt", 0o100644, 0o022, 0o102, 1000, 50, T0);
    assert_eq!(reply.ttl, CacheTtl::forever());
    assert_eq!(reply.ino, 2);
    assert_eq!(reply.fh, 2);
    assert_eq!(reply.flags, 0o102);
    assert_eq!(reply.attr.ino, 2);
    assert_eq!(reply.attr.size, 0);
    assert_eq!(reply.attr.kind, FileKind::RegularFile);
    assert_eq!(reply.attr.perm, 0o644);
    assert_eq!(reply.attr.uid, 1000);
    assert_eq!(reply.attr.gid, 50);
    assert_eq!(reply.attr.flags, 0o102);
    assert_eq!(reply.attr.crtime, T0);
    assert_eq!(fs.inode_count(), 2);
    assert_eq!(fs.handle_count(), 2);
    assert_eq!(fs.handle_of(2), Some(2));
}

#[test]
fn create_reinterprets_negative_flags() {
    let mut fs = fresh();
    let reply = fs.create_at(1, "a.txt", 0, 0, -1, 0, 0, T0);
    assert_eq!(reply.flags, u32::MAX);
    assert_eq!(reply.attr.flags, u32::MAX);
}

#[test]
fn create_reads_the_clock() {
    let mut fs = fresh();
    let reply = fs.create(1, "a.txt", 0, 0, 0, 3, 4);
    assert_eq!(reply.ino, 2);
    assert_eq!(reply.attr.mtime, reply.attr.crtime);
    assert_eq!(reply.attr.ctime, reply.attr.crtime);
    assert!(reply.attr.crtime.secs > 1_600_000_000);
    assert_eq!(fs.lookup(1, Some("a.txt")).unwrap().attr, reply.attr);
}

#[test]
fn identifiers_grow_and_never_repeat() {
    let mut fs = fresh();
    let mut inodes = vec![];
    let mut handles = vec![];
    let (i, h) = create(&mut fs, "a");
    inodes.push(i);
    handles.push(h);
    handles.push(fs.open(40, 0).fh);
    let (i, h) = create(&mut fs, "b");
    inodes.push(i);
    handles.push(h);
    fs.flush(2, 2, 0);
    handles.push(fs.open(2, 0).fh);
    let (i, h) = create(&mut fs, "c");
    inodes.push(i);
    handles.push(h);
    assert_eq!(inodes, vec![2, 3, 4]);
    assert_eq!(handles, vec![2, 3, 4, 5, 6]);
    assert_eq!(fs.inode_count(), 4);
    assert_eq!(fs.handle_count(), 6);
}

#[test]
fn open_returns_the_recorded_handle() {
    let mut fs = fresh();
    let (ino, fh) = create(&mut fs, "a");
    let first = fs.open(ino, 0);
    let second = fs.open(ino, 0);
    assert_eq!(first.fh, fh);
    assert_eq!(second.fh, fh);
    assert_eq!(first.flags, 1);
    assert_eq!(fs.handle_count(), 2);
}

#[test]
fn open_mints_a_handle_for_an_unknown_inode() {
    let mut fs = fresh();
    let reply = fs.open(99, 0);
    assert_eq!(reply.fh, 2);
    assert_eq!(reply.flags, 1);
    assert_eq!(fs.handle_of(99), Some(2));
    assert_eq!(fs.open(99, 0).fh, 2);
    assert_eq!(fs.getattr_at(99, 0, 0, T0), Err(FsError::NotFound));
}

#[test]
fn lookup_finds_each_created_name() {
    let mut fs = fresh();
    let (a, _) = create(&mut fs, "a.txt");
    let (b, _) = create(&mut fs, "b.txt");
    let found = fs.lookup(1, Some("a.txt")).unwrap();
    assert_eq!(found.attr.ino, a);
    assert_eq!(found.ttl, CacheTtl::one_second());
    assert_eq!(found.generation, 0);
    assert_eq!(fs.lookup(77, Some("b.txt")).unwrap().attr.ino, b);
    assert_eq!(fs.lookup(1, Some("c.txt")), Err(FsError::NotFound));
    assert_eq!(fs.lookup(1, Some("a.tx")), Err(FsError::NotFound));
    assert_eq!(fs.lookup(1, None), Err(FsError::NotFound));
}

#[test]
fn lookup_returns_current_attributes() {
    let mut fs = fresh();
    let (ino, fh) = create(&mut fs, "a.txt");
    assert_eq!(fs.lookup(1, Some("a.txt")).unwrap().attr.size, 0);
    fs.write(ino, fh, 0, b"hello", 0, 0, None).unwrap();
    let attr = fs.lookup(1, Some("a.txt")).unwrap().attr;
    assert_eq!(attr.size, 5);
    assert_eq!(attr.ino, ino);
}

#[test]
fn a_second_file_of_the_same_name_is_shadowed() {
    let mut fs = fresh();
    let (first, _) = create(&mut fs, "twin");
    let (second, _) = create(&mut fs, "twin");
    assert_eq!((first, second), (2, 3));
    assert_eq!(fs.lookup(1, Some("twin")).unwrap().attr.ino, first);
    assert_eq!(fs.getattr_at(second, 0, 0, T0).unwrap().attr.ino, second);
}

#[test]
fn the_root_is_always_a_directory() {
    let mut fs = fresh();
    let empty = fs.getattr_at(1, 10, 20, T1).unwrap();
    assert_eq!(empty.ttl, CacheTtl::one_second());
    assert_eq!(empty.attr.ino, 1);
    assert_eq!(empty.attr.kind, FileKind::Directory);
    assert_eq!(empty.attr.perm, 0o755);
    assert_eq!(empty.attr.uid, 10);
    assert_eq!(empty.attr.gid, 20);
    assert_eq!(empty.attr.crtime, T1);
    create(&mut fs, "a");
    create(&mut fs, "b");
    assert_eq!(fs.getattr_at(1, 10, 20, T1), Ok(empty));
    let live = fs.getattr(1, 10, 20).unwrap();
    assert_eq!(live.attr.kind, FileKind::Directory);
    assert_eq!(live.attr.ino, 1);
}

#[test]
fn getattr_finds_files_by_inode() {
    let mut fs = fresh();
    let (a, _) = create(&mut fs, "a");
    let (b, _) = create(&mut fs, "b");
    let attr = fs.getattr_at(b, 5, 6, T1).unwrap().attr;
    assert_eq!(attr.ino, b);
    assert_eq!(attr.kind, FileKind::RegularFile);
    assert_eq!(attr.uid, 1000);
    assert_eq!(attr.crtime, T0);
    assert_eq!(fs.getattr(a, 5, 6).unwrap().attr.ino, a);
    assert_eq!(fs.getattr_at(4, 5, 6, T1), Err(FsError::NotFound));
    assert_eq!(fs.getattr(0, 5, 6), Err(FsError::NotFound));
}

#[test]
fn write_then_read() {
    let mut fs = fresh();
    let (ino, fh) = create(&mut fs, "a.txt");
    assert_eq!(fs.write(ino, fh, 0, b"hello", 0, 0, None), Ok(5));
    assert_eq!(fs.read(ino, fh, 0, 5, 0, None), Ok(&b"hello"[..]));
}

#[test]
fn writes_accumulate_while_size_follows_the_last() {
    let mut fs = fresh();
    let (ino, fh) = create(&mut fs, "a.txt");
    assert_eq!(fs.write(ino, fh, 0, b"AB", 0, 0, None), Ok(2));
    assert_eq!(fs.write(ino, fh, 0, b"CD", 0, 0, None), Ok(2));
    assert_eq!(fs.read(ino, fh, 0, 4, 0, None), Ok(&b"ABCD"[..]));
    assert_eq!(fs.getattr_at(ino, 0, 0, T0).unwrap().attr.size, 2);
    assert_eq!(fs.write(ino, fh, 0, b"EFG", 0, 0, None), Ok(3));
    assert_eq!(fs.read(ino, fh, 0, 0, 0, None), Ok(&b"ABCDEFG"[..]));
    assert_eq!(fs.getattr_at(ino, 0, 0, T0).unwrap().attr.size, 3);
}

#[test]
fn write_ignores_the_offset() {
    let mut fs = fresh();
    let (ino, fh) = create(&mut fs, "a.txt");
    fs.write(ino, fh, 0, b"abc", 0, 0, None).unwrap();
    assert_eq!(fs.write(ino, fh, 1, b"Z", 0, 0, None), Ok(1));
    assert_eq!(fs.write(ino, fh, -5, b"", 0, 0, None), Ok(0));
    assert_eq!(fs.read(ino, fh, 0, 0, 0, None), Ok(&b"abcZ"[..]));
    assert_eq!(fs.getattr_at(ino, 0, 0, T0).unwrap().attr.size, 0);
}

#[test]
fn write_to_a_missing_inode_is_not_found() {
    let mut fs = fresh();
    let (ino, fh) = create(&mut fs, "a.txt");
    assert_eq!(fs.write(9, fh, 0, b"xyz", 0, 0, None), Err(FsError::NotFound));
    assert_eq!(fs.write(1, fh, 0, b"xyz", 0, 0, None), Err(FsError::NotFound));
    assert_eq!(fs.read(ino, fh, 0, 0, 0, None), Ok(&b""[..]));
    assert_eq!(fs.inode_count(), 2);
}

#[test]
fn write_touches_one_file_only() {
    let mut fs = fresh();
    let (a, _) = create(&mut fs, "a");
    let (b, _) = create(&mut fs, "b");
    fs.write(b, 0, 0, b"bee", 0, 0, None).unwrap();
    assert_eq!(fs.read(a, 0, 0, 0, 0, None), Ok(&b""[..]));
    assert_eq!(fs.read(b, 0, 0, 0, 0, None), Ok(&b"bee"[..]));
    assert_eq!(fs.getattr_at(a, 0, 0, T0).unwrap().attr.size, 0);
}

#[test]
fn read_starts_at_the_offset_and_ignores_size() {
    let mut fs = fresh();
    let (ino, fh) = create(&mut fs, "a.txt");
    fs.write(ino, fh, 0, b"hello world", 0, 0, None).unwrap();
    assert_eq!(fs.read(ino, fh, 6, 2, 0, None), Ok(&b"world"[..]));
    assert_eq!(fs.read(ino, fh, 10, 100, 0, None), Ok(&b"d"[..]));
    assert_eq!(fs.read(ino, fh, 11, 1, 0, None), Ok(&b""[..]));
}

#[test]
fn read_outside_the_content_is_not_found() {
    let mut fs = fresh();
    let (ino, fh) = create(&mut fs, "a.txt");
    fs.write(ino, fh, 0, b"hello", 0, 0, None).unwrap();
    assert_eq!(fs.read(ino, fh, 6, 1, 0, None), Err(FsError::NotFound));
    assert_eq!(fs.read(ino, fh, i64::MAX, 1, 0, None), Err(FsError::NotFound));
    assert_eq!(fs.read(ino, fh, -1, 1, 0, None), Err(FsError::NotFound));
    assert_eq!(fs.read(ino, fh, i64::MIN, 1, 0, None), Err(FsError::NotFound));
}

#[test]
fn read_of_a_missing_inode_is_not_found() {
    let mut fs = fresh();
    create(&mut fs, "a.txt");
    assert_eq!(fs.read(3, 0, 0, 1, 0, None), Err(FsError::NotFound));
    assert_eq!(fs.read(1, 0, 0, 1, 0, None), Err(FsError::NotFound));
}

#[test]
fn flush_twice_leaves_no_handle() {
    let mut fs = fresh();
    let (ino, fh) = create(&mut fs, "a.txt");
    assert_eq!(fs.handle_of(ino), Some(fh));
    fs.flush(ino, fh, 0);
    assert_eq!(fs.handle_of(ino), None);
    fs.flush(ino, fh, 0);
    assert_eq!(fs.handle_of(ino), None);
    assert_eq!(fs.handle_count(), 2);
    assert_eq!(fs.open(ino, 0).fh, 3);
}

#[test]
fn flush_does_not_compare_handles() {
    let mut fs = fresh();
    let (a, _) = create(&mut fs, "a");
    let (b, fh_b) = create(&mut fs, "b");
    fs.flush(a, 12345, 9);
    assert_eq!(fs.handle_of(a), None);
    assert_eq!(fs.handle_of(b), Some(fh_b));
    fs.flush(77, 0, 0);
    assert_eq!(fs.handle_of(b), Some(fh_b));
}
