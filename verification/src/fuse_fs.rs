//! The adapter between the client session and the kernel bridge: what the
//! bridge is told about entries, directories and failures.

use crate::api::ENOENT;
use crate::client::{OsError, VolumeConnection};
use crate::filesystem_entry::{fresh_entry, EntryView, FilesystemEntry, FsFiletype, FsTimespec};
use crate::path::{child_of, child_path, final_component, last_component};
use vstd::prelude::*;

verus! {

/// The attributes of a file as the kernel bridge takes them.
#[derive(Debug, Clone, Copy, PartialEq, Eq, Structural)]
pub struct FileAttr {
    pub ino: u64,
    pub size: u64,
    pub blocks: u64,
    pub atime: FsTimespec,
    pub mtime: FsTimespec,
    pub ctime: FsTimespec,
    pub crtime: FsTimespec,
    pub kind: FsFiletype,
    pub perm: u16,
    pub nlink: u32,
    pub uid: u32,
    pub gid: u32,
    pub rdev: u32,
    pub flags: u32,
}

/// The numbers that the kernel bridge is told about the filesystem as a whole.
#[derive(Debug, Clone, Copy, PartialEq, Eq, Structural)]
pub struct Statfs {
    pub blocks: u64,
    pub bfree: u64,
    pub bavail: u64,
    pub files: u64,
    pub ffree: u64,
    pub bsize: u32,
    pub namelen: u32,
    pub frsize: u32,
}

/// One line of a directory as the kernel bridge takes it.
#[derive(Debug, PartialEq, Eq)]
pub struct DirectoryItem {
    pub ino: u64,
    /// The place of the line after this one
    pub next: u64,
    pub kind: FsFiletype,
    pub name: String,
}

/// What a line of a directory says.
pub struct DirectoryItemView {
    pub ino: u64,
    pub next: u64,
    pub kind: FsFiletype,
    pub name: Seq<char>,
}

impl View for DirectoryItem {
    type V = DirectoryItemView;

    open spec fn view(&self) -> DirectoryItemView {
        DirectoryItemView { ino: self.ino, next: self.next, kind: self.kind, name: self.name@ }
    }
}

/// The kind that the kernel bridge is told: a directory is a directory,
/// everything else a regular file.
pub open spec fn kind_for_bridge(t: FsFiletype) -> FsFiletype {
    if t == FsFiletype::Directory {
        FsFiletype::Directory
    } else {
        FsFiletype::RegularFile
    }
}

/// The attributes that the kernel bridge is told for an entry.
pub open spec fn attr_of(e: EntryView) -> FileAttr {
    FileAttr {
        ino: e.ino,
        size: e.size,
        blocks: e.blocks,
        atime: e.atime,
        mtime: e.mtime,
        ctime: e.ctime,
        crtime: e.crtime,
        kind: kind_for_bridge(e.kind),
        perm: e.perm,
        nlink: 0,
        uid: e.uid,
        gid: e.gid,
        rdev: 0,
        flags: 0,
    }
}

/// The name of an entry in its directory: the last component of its path.
pub open spec fn name_of(path: Seq<char>) -> Seq<char> {
    match last_component(path) {
        Some(n) => n,
        None => Seq::empty(),
    }
}

/// The line for the child listed as `path`, whose entry is `e` and which
/// stands at `index` in its directory.
pub open spec fn item_of(path: Seq<char>, e: EntryView, index: int) -> DirectoryItemView {
    DirectoryItemView {
        ino: e.ino,
        next: (index + 1) as u64,
        kind: kind_for_bridge(e.kind),
        name: name_of(path),
    }
}

/// The lines of a directory from the place `offset` on.
pub open spec fn listed(found: Seq<(Seq<char>, EntryView)>, offset: i64) -> Seq<
    DirectoryItemView,
> {
    if offset < 0 || offset >= found.len() {
        Seq::empty()
    } else {
        Seq::new(
            (found.len() - offset) as nat,
            |k: int| item_of(found[offset + k].0, found[offset + k].1, offset + k),
        )
    }
}

/// The error number that a failed lookup is answered with: that of a
/// missing file where the file is missing, 0 otherwise.
pub open spec fn lookup_errno(e: OsError) -> i32 {
    if e.code == ENOENT {
        ENOENT
    } else {
        0
    }
}

/// The listed paths and the entries of a list of children.
pub open spec fn entries(v: Seq<(String, FilesystemEntry)>) -> Seq<(Seq<char>, EntryView)> {
    Seq::new(v.len(), |i: int| (v[i].0@, v[i].1@))
}

/// The children that could be looked up, in their order: each with the path
/// under which the directory lists it and the entry that the lookup gave.
pub open spec fn found(children: Seq<(String, Result<FilesystemEntry, OsError>)>) -> Seq<
    (Seq<char>, EntryView),
>
    decreases children.len(),
{
    if children.len() == 0 {
        Seq::empty()
    } else {
        let rest = found(children.drop_last());
        match children.last().1 {
            Ok(e) => rest.push((children.last().0@, e@)),
            Err(_) => rest,
        }
    }
}

/// The views of a list of directory lines.
pub open spec fn items(v: Seq<DirectoryItem>) -> Seq<DirectoryItemView> {
    Seq::new(v.len(), |i: int| v[i]@)
}

/// The kind of an entry as the kernel bridge takes it.
pub fn to_filetype(t: &FsFiletype) -> (kind: FsFiletype)
    ensures
        kind == kind_for_bridge(*t),
{
    match t {
        FsFiletype::Directory => FsFiletype::Directory,
        _ => FsFiletype::RegularFile,
    }
}

/// The attributes of an entry as the kernel bridge takes them.
pub fn attr(t: &FilesystemEntry) -> (a: FileAttr)
    ensures
        a == attr_of(t@),
{
    FileAttr {
        ino: t.ino,
        size: t.size,
        blocks: t.blocks,
        atime: t.atime,
        mtime: t.mtime,
        ctime: t.ctime,
        crtime: t.crtime,
        kind: to_filetype(&t.kind),
        perm: t.perm,
        nlink: 0,
        uid: t.uid,
        gid: t.gid,
        rdev: 0,
        flags: 0,
    }
}

/// The filesystem that the kernel bridge drives: a session with one volume.
pub struct Filesystem {
    pub api: VolumeConnection,
}

impl Filesystem {
    /// The path that a lookup of `name` in the directory `parent_path` asks for.
    pub fn lookup(parent_path: &str, name: &str) -> (path: String)
        ensures
            path@ == child_of(parent_path@, name@),
    {
        child_path(parent_path, name)
    }

    /// The error number for a lookup that failed.
    pub fn lookup_error(e: OsError) -> (errno: i32)
        ensures
            errno == lookup_errno(e),
    {
        if e.code == ENOENT {
            ENOENT
        } else {
            0
        }
    }

    /// The attributes that answer a change of attributes: those of an empty
    /// directory that belongs to user 501 and group 20.
    pub fn setattr() -> (a: FileAttr)
        ensures
            a == attr_of(fresh_entry(Seq::empty(), 0, 0, 0, 755, 501, 20, FsFiletype::Directory)),
    {
        attr(&FilesystemEntry::new_directory(String::new(), 0, 0, 0, 755, 501, 20))
    }

    /// The lines of a directory from the place `offset` on. `children`
    /// holds, for each child in the order in which the directory lists them,
    /// the listed path and what its lookup gave. A line takes its name from
    /// the listed path; a child that could not be looked up has no line.
    pub fn readdir(
        children: &Vec<(String, Result<FilesystemEntry, OsError>)>,
        offset: i64,
    ) -> (lines: Vec<DirectoryItem>)
        ensures
            items(lines@) == listed(found(children@), offset),
    {
        let mut seen: Vec<(String, FilesystemEntry)> = Vec::new();
        let mut i: usize = 0;
        assert(children@.take(0) =~= Seq::<(String, Result<FilesystemEntry, OsError>)>::empty());
        assert(entries(seen@) =~= found(children@.take(0)));
        while i < children.len()
            invariant
                i <= children.len(),
                entries(seen@) == found(children@.take(i as int)),
            decreases children.len() - i,
        {
            assert(children@.take(i as int + 1).drop_last() == children@.take(i as int));
            let child = &children[i];
            match &child.1 {
                Ok(e) => {
                    let ghost before = entries(seen@);
                    seen.push((child.0.clone(), e.clone()));
                    assert(entries(seen@) =~= before.push((child.0@, e@)));
                },
                Err(_) => {},
            }
            i = i + 1;
        }
        assert(children@.take(children.len() as int) == children@);
        Filesystem::lines_from(&seen, offset)
    }

    fn lines_from(found: &Vec<(String, FilesystemEntry)>, offset: i64) -> (lines: Vec<
        DirectoryItem,
    >)
        ensures
            items(lines@) == listed(entries(found@), offset),
    {
        let mut lines: Vec<DirectoryItem> = Vec::new();
        if offset < 0 || offset as u64 >= found.len() as u64 {
            assert(items(lines@) =~= listed(entries(found@), offset));
            return lines;
        }
        let start: usize = offset as usize;
        let mut i: usize = start;
        while i < found.len()
            invariant
                start <= i <= found.len(),
                start == offset,
                lines@.len() == i - start,
                forall|k: int|
                    0 <= k < i - start ==> (#[trigger] lines@[k])@ == item_of(
                        found@[start + k].0@,
                        found@[start + k].1@,
                        start + k,
                    ),
            decreases found.len() - i,
        {
            let child = &found[i];
            let name = match final_component(child.0.as_str()) {
                Some(n) => n,
                None => String::new(),
            };
            lines.push(
                DirectoryItem {
                    ino: child.1.ino,
                    next: (i + 1) as u64,
                    kind: to_filetype(&child.1.kind),
                    name,
                },
            );
            i = i + 1;
        }
        assert(items(lines@) =~= listed(entries(found@), offset));
        lines
    }

    /// The numbers that answer a question about the filesystem as a whole:
    /// 1000 blocks of which 20 are in use, and one file.
    pub fn statfs() -> (s: Statfs)
        ensures
            s == (Statfs {
                blocks: 1000,
                bfree: 980,
                bavail: 980,
                files: 1,
                ffree: 0,
                bsize: 0,
                namelen: 0,
                frsize: 0,
            }),
    {
        let size: u64 = 1000;
        let used: u64 = 20;
        Statfs {
            blocks: size,
            bfree: size - used,
            bavail: size - used,
            files: 1,
            ffree: 0,
            bsize: 0,
            namelen: 0,
            frsize: 0,
        }
    }
}

} // verus!
