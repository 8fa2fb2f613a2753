use shfs::client::OsError;
use shfs::filesystem_entry::{FilesystemEntry, FsFiletype, FsTimespec};
use shfs::fuse_fs::{attr, to_filetype, DirectoryItem, FileAttr, Filesystem, Statfs};

fn file(path: &str, ino: u64) -> FilesystemEntry {
    FilesystemEntry::new_file(path.to_string(), ino, 3, 1, 755, 7, 8)
}

fn directory(path: &str, ino: u64) -> FilesystemEntry {
    FilesystemEntry::new_directory(path.to_string(), ino, 0, 0, 755, 7, 8)
}

fn child(path: &str, e: FilesystemEntry) -> (String, Result<FilesystemEntry, OsError>) {
    (path.to_string(), Ok(e))
}

fn missing(path: &str, code: i32) -> (String, Result<FilesystemEntry, OsError>) {
    (path.to_string(), Err(OsError { code }))
}

fn three() -> Vec<(String, Result<FilesystemEntry, OsError>)> {
    vec![
        child("/d/a", file("/d/a", 10)),
        child("/d/b", directory("/d/b", 11)),
        child("/d/c.txt", file("/d/c.txt", 12)),
    ]
}

fn line(ino: u64, next: u64, kind: FsFiletype, name: &str) -> DirectoryItem {
    DirectoryItem { ino, next, kind, name: name.to_string() }
}

#[test]
fn only_a_directory_is_a_directory() {
    assert_eq!(to_filetype(&FsFiletype::Directory), FsFiletype::Directory);
    assert_eq!(to_filetype(&FsFiletype::RegularFile), FsFiletype::RegularFile);
    assert_eq!(to_filetype(&FsFiletype::Symlink), FsFiletype::RegularFile);
    assert_eq!(to_filetype(&FsFiletype::Socket), FsFiletype::RegularFile);
    assert_eq!(to_filetype(&FsFiletype::NamedPipe), FsFiletype::RegularFile);
    assert_eq!(to_filetype(&FsFiletype::CharDevice), FsFiletype::RegularFile);
    assert_eq!(to_filetype(&FsFiletype::BlockDevice), FsFiletype::RegularFile);
}

#[test]
fn attr_takes_the_numbers_of_the_entry() {
    let mut e = file("/a", 42);
    e.mtime = FsTimespec::new(5, 6);
    e.kind = FsFiletype::Symlink;
    assert_eq!(
        attr(&e),
        FileAttr {
            ino: 42,
            size: 3,
            blocks: 1,
            atime: FsTimespec::new(0, 0),
            mtime: FsTimespec::new(5, 6),
            ctime: FsTimespec::new(0, 0),
            crtime: FsTimespec::new(0, 0),
            kind: FsFiletype::RegularFile,
            perm: 755,
            nlink: 0,
            uid: 7,
            gid: 8,
            rdev: 0,
            flags: 0,
        }
    );
    assert_eq!(attr(&directory("/d", 1)).kind, FsFiletype::Directory);
}

#[test]
fn setattr_answers_with_an_empty_directory() {
    let a = Filesystem::setattr();
    assert_eq!((a.ino, a.size, a.blocks, a.perm, a.uid, a.gid), (0, 0, 0, 755, 501, 20));
    assert_eq!(a.kind, FsFiletype::Directory);
}

#[test]
fn lookup_joins_parent_and_name() {
    assert_eq!(Filesystem::lookup("/", "a"), "/a");
    assert_eq!(Filesystem::lookup("/d", "a"), "/d/a");
}

#[test]
fn lookup_error_tells_a_missing_file() {
    assert_eq!(Filesystem::lookup_error(OsError { code: 2 }), 2);
    assert_eq!(Filesystem::lookup_error(OsError { code: 13 }), 0);
    assert_eq!(Filesystem::lookup_error(OsError { code: 0 }), 0);
}

#[test]
fn readdir_lists_from_the_start() {
    let found = three();
    assert_eq!(
        Filesystem::readdir(&found, 0),
        vec![
            line(10, 1, FsFiletype::RegularFile, "a"),
            line(11, 2, FsFiletype::Directory, "b"),
            line(12, 3, FsFiletype::RegularFile, "c.txt"),
        ]
    );
}

#[test]
fn readdir_lists_from_an_offset() {
    let found = three();
    assert_eq!(
        Filesystem::readdir(&found, 2),
        vec![line(12, 3, FsFiletype::RegularFile, "c.txt")]
    );
    assert_eq!(Filesystem::readdir(&found, 3), vec![]);
    assert_eq!(Filesystem::readdir(&found, 4), vec![]);
    assert_eq!(Filesystem::readdir(&found, i64::MAX), vec![]);
}

#[test]
fn readdir_lists_nothing_from_a_negative_offset() {
    let found = vec![child("/d/a", file("/d/a", 10))];
    assert_eq!(Filesystem::readdir(&found, -1), vec![]);
    assert_eq!(Filesystem::readdir(&Vec::new(), 0), vec![]);
}

#[test]
fn readdir_names_an_entry_without_components_with_nothing() {
    assert_eq!(
        Filesystem::readdir(&vec![child("/", directory("/", 1))], 0),
        vec![line(1, 1, FsFiletype::Directory, "")]
    );
}

#[test]
fn readdir_skips_the_children_that_could_not_be_looked_up() {
    let children = vec![
        missing("/d/x", 2),
        child("/d/a", file("/d/a", 10)),
        missing("/d/y", 13),
        child("/d/b", directory("/d/b", 11)),
    ];
    assert_eq!(
        Filesystem::readdir(&children, 0),
        vec![line(10, 1, FsFiletype::RegularFile, "a"), line(11, 2, FsFiletype::Directory, "b")]
    );
    assert_eq!(
        Filesystem::readdir(&children, 1),
        vec![line(11, 2, FsFiletype::Directory, "b")]
    );
    assert_eq!(Filesystem::readdir(&vec![missing("/d/x", 2)], 0), vec![]);
}

#[test]
fn readdir_names_a_line_after_the_listed_path() {
    let children = vec![
        child("/d/listed", file("/elsewhere/answered", 10)),
        child("/d/odd", FilesystemEntry::new_directory(String::new(), 0, 0, 0, 755, 0, 0)),
    ];
    assert_eq!(
        Filesystem::readdir(&children, 0),
        vec![
            line(10, 1, FsFiletype::RegularFile, "listed"),
            line(0, 2, FsFiletype::Directory, "odd"),
        ]
    );
}

#[test]
fn statfs_is_fixed() {
    assert_eq!(
        Filesystem::statfs(),
        Statfs {
            blocks: 1000,
            bfree: 980,
            bavail: 980,
            files: 1,
            ffree: 0,
            bsize: 0,
            namelen: 0,
            frsize: 0
        }
    );
}
