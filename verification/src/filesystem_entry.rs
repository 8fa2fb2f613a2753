use vstd::prelude::*;

verus! {

/// Kind of a filesystem object.
#[derive(Debug, Clone, Copy, PartialEq, Eq, Structural)]
pub enum FsFiletype {
    NamedPipe,
    CharDevice,
    BlockDevice,
    Directory,
    RegularFile,
    Symlink,
    Socket,
}

/// A point in time: seconds and nanoseconds.
#[derive(Debug, Clone, Copy, PartialEq, Eq, Structural)]
pub struct FsTimespec {
    pub sec: i64,
    pub nsec: i32,
}

impl FsTimespec {
    /// The point in time `sec` seconds and `nsec` nanoseconds after the epoch.
    pub fn new(sec: i64, nsec: i32) -> (t: FsTimespec)
        ensures
            t == (FsTimespec { sec, nsec }),
    {
        FsTimespec { sec, nsec }
    }
}

/// The timestamp that entries built without host times carry.
pub open spec fn epoch() -> FsTimespec {
    FsTimespec { sec: 0, nsec: 0 }
}

/// A filesystem object such as a directory or a file.
#[derive(Debug, PartialEq, Eq)]
pub struct FilesystemEntry {
    /// Path of the entry, relative to its volume
    pub path: String,
    /// Inode of the entry
    pub ino: u64,
    /// Size of the entry
    pub size: u64,
    /// Blocks of the entry
    pub blocks: u64,
    /// Access time
    pub atime: FsTimespec,
    /// Modification time
    pub mtime: FsTimespec,
    /// Change time
    pub ctime: FsTimespec,
    /// Creation time
    pub crtime: FsTimespec,
    /// Permissions
    pub perm: u16,
    /// Owning user
    pub uid: u32,
    /// Owning group
    pub gid: u32,
    /// Kind of the entry
    pub kind: FsFiletype,
}

/// What an entry is, with its path as a sequence of characters.
pub struct EntryView {
    pub path: Seq<char>,
    pub ino: u64,
    pub size: u64,
    pub blocks: u64,
    pub atime: FsTimespec,
    pub mtime: FsTimespec,
    pub ctime: FsTimespec,
    pub crtime: FsTimespec,
    pub perm: u16,
    pub uid: u32,
    pub gid: u32,
    pub kind: FsFiletype,
}

impl View for FilesystemEntry {
    type V = EntryView;

    open spec fn view(&self) -> EntryView {
        EntryView {
            path: self.path@,
            ino: self.ino,
            size: self.size,
            blocks: self.blocks,
            atime: self.atime,
            mtime: self.mtime,
            ctime: self.ctime,
            crtime: self.crtime,
            perm: self.perm,
            uid: self.uid,
            gid: self.gid,
            kind: self.kind,
        }
    }
}

/// The entry that `new_file` and `new_directory` build: the given numbers,
/// all four timestamps at zero.
pub open spec fn fresh_entry(
    path: Seq<char>,
    ino: u64,
    size: u64,
    blocks: u64,
    perm: u16,
    uid: u32,
    gid: u32,
    kind: FsFiletype,
) -> EntryView {
    EntryView {
        path,
        ino,
        size,
        blocks,
        atime: epoch(),
        mtime: epoch(),
        ctime: epoch(),
        crtime: epoch(),
        perm,
        uid,
        gid,
        kind,
    }
}

impl Clone for FilesystemEntry {
    fn clone(&self) -> (e: Self)
        ensures
            e == *self,
    {
        FilesystemEntry {
            path: self.path.clone(),
            ino: self.ino,
            size: self.size,
            blocks: self.blocks,
            atime: self.atime,
            mtime: self.mtime,
            ctime: self.ctime,
            crtime: self.crtime,
            perm: self.perm,
            uid: self.uid,
            gid: self.gid,
            kind: self.kind,
        }
    }
}

impl FilesystemEntry {
    /// A regular file with the given attributes.
    pub fn new_file(
        path: String,
        ino: u64,
        size: u64,
        blocks: u64,
        perm: u16,
        uid: u32,
        gid: u32,
    ) -> (e: FilesystemEntry)
        ensures
            e@ == fresh_entry(path@, ino, size, blocks, perm, uid, gid, FsFiletype::RegularFile),
    {
        FilesystemEntry {
            path,
            ino,
            size,
            blocks,
            atime: FsTimespec::new(0, 0),
            mtime: FsTimespec::new(0, 0),
            ctime: FsTimespec::new(0, 0),
            crtime: FsTimespec::new(0, 0),
            perm,
            uid,
            gid,
            kind: FsFiletype::RegularFile,
        }
    }

    /// A directory with the given attributes.
    pub fn new_directory(
        path: String,
        ino: u64,
        size: u64,
        blocks: u64,
        perm: u16,
        uid: u32,
        gid: u32,
    ) -> (e: FilesystemEntry)
        ensures
            e@ == fresh_entry(path@, ino, size, blocks, perm, uid, gid, FsFiletype::Directory),
    {
        FilesystemEntry {
            path,
            ino,
            size,
            blocks,
            atime: FsTimespec::new(0, 0),
            mtime: FsTimespec::new(0, 0),
            ctime: FsTimespec::new(0, 0),
            crtime: FsTimespec::new(0, 0),
            perm,
            uid,
            gid,
            kind: FsFiletype::Directory,
        }
    }
}

} // verus!
