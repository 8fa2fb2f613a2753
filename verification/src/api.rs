//! The volume engine: it resolves volume-relative paths into the host tree
//! below the volume's root, keeps the inode directory, and says for each
//! operation what is to be done on the host and what the host's answer means.

use crate::filesystem_entry::{epoch, EntryView, FilesystemEntry, FsFiletype};
use crate::path::{
    child_of, child_path, climbed, components, is_absolute, is_parent, is_within, joined,
    lemma_climbed_of_plain, lemma_components_of_canonical, lemma_components_of_joined,
    lemma_components_of_name, lemma_joined_is_clean, relative_to, resolve, resolved, rooted,
    stays_below, volume_relative, within,
};
use crate::responses::texts;
use std::collections::HashMap;
use vstd::prelude::*;

verus! {

broadcast use vstd::std_specs::hash::group_hash_axioms;

/// The OS error code for a file that is not there.
pub const ENOENT: i32 = 2;

/// The OS error code for a refused access.
pub const EACCES: i32 = 13;

/// The OS error code for a file that is already there.
pub const EEXIST: i32 = 17;

/// The permission bits that every entry is reported with.
pub const DEFAULT_PERM: u16 = 755;

/// A failure with its description.
#[derive(Debug, PartialEq, Eq)]
pub struct ApiError {
    err: String,
}

impl View for ApiError {
    type V = Seq<char>;

    closed spec fn view(&self) -> Seq<char> {
        self.err@
    }
}

impl ApiError {
    /// The failure that `msg` describes.
    pub fn new(msg: &str) -> (e: ApiError)
        ensures
            e@ == msg@,
    {
        ApiError { err: msg.to_owned() }
    }

    /// The description of the failure.
    pub fn to_string(&self) -> (s: String)
        ensures
            s@ == self@,
    {
        self.err.clone()
    }
}

/// A path that resolves to a place outside the volume's root.
#[derive(Debug, Clone, Copy, PartialEq, Eq, Structural)]
pub struct JailEscape {}

/// Why an operation of the engine failed.
#[derive(Debug, Clone, Copy, PartialEq, Eq, Structural)]
pub enum FsError {
    /// The inode is not in the directory.
    NotFound,
    /// The path leaves the volume, or the host refused.
    PermissionDenied,
    /// The destination exists.
    AlreadyExists,
    /// The host failed with this OS error code.
    Host { code: i32 },
}

impl FsError {
    /// The OS error code that stands for the failure on the wire.
    pub open spec fn spec_code(&self) -> i32 {
        match self {
            FsError::NotFound => ENOENT,
            FsError::PermissionDenied => EACCES,
            FsError::AlreadyExists => EEXIST,
            FsError::Host { code } => *code,
        }
    }

    #[verifier::when_used_as_spec(spec_code)]
    pub fn code(&self) -> (c: i32)
        ensures
            c == self.spec_code(),
    {
        match self {
            FsError::NotFound => ENOENT,
            FsError::PermissionDenied => EACCES,
            FsError::AlreadyExists => EEXIST,
            FsError::Host { code } => *code,
        }
    }
}

/// What the host reports of a file or directory.
#[derive(Debug, Clone, Copy, PartialEq, Eq, Structural)]
pub struct HostMetadata {
    pub ino: u64,
    pub size: u64,
    pub blocks: u64,
    pub uid: u32,
    pub gid: u32,
    pub is_dir: bool,
}

/// An operation on the host tree. Every path in it is a host path.
#[derive(Debug, PartialEq, Eq)]
#[allow(inconsistent_fields)]
pub enum HostRequest {
    /// Report the metadata of `path`.
    Metadata { path: String },
    /// List the host paths of the children of the directory `path`.
    ReadDir { path: String },
    /// Read up to `size` bytes of the file `path`, from `offset` on.
    Read { path: String, offset: i64, size: u32 },
    /// Make `data` the content of the existing file `path`.
    Write { path: String, offset: i64, data: Vec<u8> },
    /// Rename `from` to `to`.
    Rename { from: String, to: String },
    /// Create the directory `path`.
    CreateDir { path: String },
    /// Create the empty file `path`.
    CreateFile { path: String },
    /// Remove the file `path`.
    RemoveFile { path: String },
    /// Remove the empty directory `path`.
    RemoveDir { path: String },
}

/// What a host request says, its texts as sequences of characters.
#[allow(inconsistent_fields)]
pub enum HostRequestView {
    Metadata { path: Seq<char> },
    ReadDir { path: Seq<char> },
    Read { path: Seq<char>, offset: i64, size: u32 },
    Write { path: Seq<char>, offset: i64, data: Seq<u8> },
    Rename { from: Seq<char>, to: Seq<char> },
    CreateDir { path: Seq<char> },
    CreateFile { path: Seq<char> },
    RemoveFile { path: Seq<char> },
    RemoveDir { path: Seq<char> },
}

impl View for HostRequest {
    type V = HostRequestView;

    open spec fn view(&self) -> HostRequestView {
        match self {
            HostRequest::Metadata { path } => HostRequestView::Metadata { path: path@ },
            HostRequest::ReadDir { path } => HostRequestView::ReadDir { path: path@ },
            HostRequest::Read { path, offset, size } => HostRequestView::Read {
                path: path@,
                offset: *offset,
                size: *size,
            },
            HostRequest::Write { path, offset, data } => HostRequestView::Write {
                path: path@,
                offset: *offset,
                data: data@,
            },
            HostRequest::Rename { from, to } => HostRequestView::Rename { from: from@, to: to@ },
            HostRequest::CreateDir { path } => HostRequestView::CreateDir { path: path@ },
            HostRequest::CreateFile { path } => HostRequestView::CreateFile { path: path@ },
            HostRequest::RemoveFile { path } => HostRequestView::RemoveFile { path: path@ },
            HostRequest::RemoveDir { path } => HostRequestView::RemoveDir { path: path@ },
        }
    }
}

impl HostRequestView {
    /// Every path that the request touches lies inside the volume rooted at `root`.
    pub open spec fn confined(self, root: Seq<char>) -> bool {
        match self {
            HostRequestView::Metadata { path } => within(root, path),
            HostRequestView::ReadDir { path } => within(root, path),
            HostRequestView::Read { path, .. } => within(root, path),
            HostRequestView::Write { path, .. } => within(root, path),
            HostRequestView::Rename { from, to } => within(root, from) && within(root, to),
            HostRequestView::CreateDir { path } => within(root, path),
            HostRequestView::CreateFile { path } => within(root, path),
            HostRequestView::RemoveFile { path } => within(root, path),
            HostRequestView::RemoveDir { path } => within(root, path),
        }
    }
}

impl HostRequest {
    /// Whether every path that the request touches lies inside the volume
    /// rooted at `root`.
    pub fn is_confined(&self, root: &str) -> (b: bool)
        ensures
            b == self@.confined(root@),
    {
        match self {
            HostRequest::Metadata { path } => is_within(root, path.as_str()),
            HostRequest::ReadDir { path } => is_within(root, path.as_str()),
            HostRequest::Read { path, .. } => is_within(root, path.as_str()),
            HostRequest::Write { path, .. } => is_within(root, path.as_str()),
            HostRequest::Rename { from, to } => is_within(root, from.as_str()) && is_within(
                root,
                to.as_str(),
            ),
            HostRequest::CreateDir { path } => is_within(root, path.as_str()),
            HostRequest::CreateFile { path } => is_within(root, path.as_str()),
            HostRequest::RemoveFile { path } => is_within(root, path.as_str()),
            HostRequest::RemoveDir { path } => is_within(root, path.as_str()),
        }
    }
}

/// The volume-relative path of the volume's root.
pub open spec fn root_path() -> Seq<char> {
    seq!['/']
}

/// The characters of an optional text.
pub open spec fn text_of(t: Option<String>) -> Option<Seq<char>> {
    match t {
        Some(s) => Some(s@),
        None => None,
    }
}

/// The jail check: a resolved path passes if it lies inside the volume.
pub open spec fn jailed(root: Seq<char>, candidate: Option<Seq<char>>) -> Option<Seq<char>> {
    match candidate {
        Some(h) => if within(root, h) {
            Some(h)
        } else {
            None
        },
        None => None,
    }
}

/// The host path that a volume-relative path stands for, if it stays
/// inside the volume.
pub open spec fn host_path(root: Seq<char>, path: Seq<char>) -> Option<Seq<char>> {
    jailed(root, resolved(root, path))
}

/// The entry that the engine reports for `path` when the host reports `meta`.
pub open spec fn entry_of(path: Seq<char>, meta: HostMetadata) -> EntryView {
    EntryView {
        path,
        ino: meta.ino,
        size: meta.size,
        blocks: meta.blocks,
        atime: epoch(),
        mtime: epoch(),
        ctime: epoch(),
        crtime: epoch(),
        perm: DEFAULT_PERM,
        uid: meta.uid,
        gid: meta.gid,
        kind: if meta.is_dir {
            FsFiletype::Directory
        } else {
            FsFiletype::RegularFile
        },
    }
}

/// The directory after the entry for `path` was seen: it stands at the
/// inode that the host reported, in place of what stood there.
pub open spec fn recorded(dir: Map<u64, EntryView>, path: Seq<char>, meta: HostMetadata) -> Map<
    u64,
    EntryView,
> {
    dir.insert(meta.ino, entry_of(path, meta))
}

/// The directory of a new engine: the root's entry at the inode that the
/// host reported, and at inode 1 under the number 1.
pub open spec fn initial_directory(meta: HostMetadata) -> Map<u64, EntryView> {
    recorded(Map::empty(), root_path(), meta).insert(
        1,
        EntryView { ino: 1, ..entry_of(root_path(), meta) },
    )
}

/// The entry at an inode.
pub open spec fn looked_up(dir: Map<u64, EntryView>, ino: u64) -> Result<EntryView, FsError> {
    if dir.contains_key(ino) {
        Ok(dir[ino])
    } else {
        Err(FsError::NotFound)
    }
}

/// The volume-relative path and the host path of `name` in the directory at
/// the inode `parent`.
pub open spec fn located(
    root: Seq<char>,
    dir: Map<u64, EntryView>,
    parent: u64,
    name: Seq<char>,
) -> Result<(Seq<char>, Seq<char>), FsError> {
    if !dir.contains_key(parent) {
        Err(FsError::NotFound)
    } else {
        let path = child_of(dir[parent].path, name);
        match host_path(root, path) {
            Some(h) => Ok((path, h)),
            None => Err(FsError::PermissionDenied),
        }
    }
}

/// The host path of the file at an inode.
pub open spec fn located_inode(root: Seq<char>, dir: Map<u64, EntryView>, ino: u64) -> Result<
    Seq<char>,
    FsError,
> {
    if !dir.contains_key(ino) {
        Err(FsError::NotFound)
    } else {
        match host_path(root, dir[ino].path) {
            Some(h) => Ok(h),
            None => Err(FsError::PermissionDenied),
        }
    }
}

/// What `get_entry` asks of the host.
pub open spec fn entry_request(root: Seq<char>, path: Seq<char>) -> Result<
    HostRequestView,
    FsError,
> {
    match host_path(root, path) {
        Some(h) => Ok(HostRequestView::Metadata { path: h }),
        None => Err(FsError::PermissionDenied),
    }
}

/// What `readdir` asks of the host; nothing for a path that leaves the volume.
pub open spec fn listing_request(root: Seq<char>, path: Seq<char>) -> Option<HostRequestView> {
    match host_path(root, path) {
        Some(h) => Some(HostRequestView::ReadDir { path: h }),
        None => None,
    }
}

/// What `read` asks of the host.
pub open spec fn read_request(
    root: Seq<char>,
    dir: Map<u64, EntryView>,
    ino: u64,
    offset: i64,
    size: u32,
) -> Result<HostRequestView, FsError> {
    match located_inode(root, dir, ino) {
        Ok(h) => Ok(HostRequestView::Read { path: h, offset, size }),
        Err(e) => Err(e),
    }
}

/// What `write` asks of the host.
pub open spec fn write_request(
    root: Seq<char>,
    dir: Map<u64, EntryView>,
    ino: u64,
    offset: i64,
    data: Seq<u8>,
) -> Result<HostRequestView, FsError> {
    match located_inode(root, dir, ino) {
        Ok(h) => Ok(HostRequestView::Write { path: h, offset, data }),
        Err(e) => Err(e),
    }
}

/// What `rename` asks of the host: the volume-relative path of the
/// destination, the request that looks for it, and the request that renames.
pub open spec fn rename_request(
    root: Seq<char>,
    dir: Map<u64, EntryView>,
    parent: u64,
    name: Seq<char>,
    nparent: u64,
    nname: Seq<char>,
) -> Result<(Seq<char>, HostRequestView, HostRequestView), FsError> {
    if !dir.contains_key(parent) || !dir.contains_key(nparent) {
        Err(FsError::NotFound)
    } else {
        match (located(root, dir, parent, name), located(root, dir, nparent, nname)) {
            (Ok(from), Ok(to)) => Ok(
                (
                    to.0,
                    HostRequestView::Metadata { path: to.1 },
                    HostRequestView::Rename { from: from.1, to: to.1 },
                ),
            ),
            _ => Err(FsError::PermissionDenied),
        }
    }
}

/// What `mkdir` and `create` ask of the host: the volume-relative path of
/// the new entry, the request that creates it, and the request that looks at
/// it once it is there.
pub open spec fn make_request(
    root: Seq<char>,
    dir: Map<u64, EntryView>,
    parent: u64,
    name: Seq<char>,
    directory: bool,
) -> Result<(Seq<char>, HostRequestView, HostRequestView), FsError> {
    match located(root, dir, parent, name) {
        Ok(place) => Ok(
            (
                place.0,
                if directory {
                    HostRequestView::CreateDir { path: place.1 }
                } else {
                    HostRequestView::CreateFile { path: place.1 }
                },
                HostRequestView::Metadata { path: place.1 },
            ),
        ),
        Err(e) => Err(e),
    }
}

/// What `unlink` and `rmdir` ask of the host.
pub open spec fn remove_request(
    root: Seq<char>,
    dir: Map<u64, EntryView>,
    parent: u64,
    name: Seq<char>,
    directory: bool,
) -> Result<HostRequestView, FsError> {
    match located(root, dir, parent, name) {
        Ok(place) => Ok(
            if directory {
                HostRequestView::RemoveDir { path: place.1 }
            } else {
                HostRequestView::RemoveFile { path: place.1 }
            },
        ),
        Err(e) => Err(e),
    }
}

/// The host paths of a listing as seen from inside the volume.
pub open spec fn relative_all(root: Seq<char>, listing: Seq<Seq<char>>) -> Seq<Seq<char>> {
    Seq::new(listing.len(), |i: int| volume_relative(root, listing[i]))
}

/// Exactly `size` bytes: those of `data`, cut off or filled up with zero bytes.
pub open spec fn fitted(data: Seq<u8>, size: nat) -> Seq<u8> {
    Seq::new(
        size,
        |i: int|
            if i < data.len() {
                data[i]
            } else {
                0u8
            },
    )
}

/// A request is what the contract says it is.
pub open spec fn asks(r: Result<HostRequest, FsError>, want: Result<HostRequestView, FsError>) -> bool {
    match (r, want) {
        (Ok(q), Ok(w)) => q@ == w,
        (Err(e), Err(f)) => e == f,
        _ => false,
    }
}

/// Server side engine of one volume.
pub struct FilesystemAPI {
    /// The root of the volume on the host
    pub root: String,
    inode_cache: HashMap<u64, FilesystemEntry>,
}

impl FilesystemAPI {
    /// The root of the volume on the host.
    pub closed spec fn spec_root(&self) -> Seq<char> {
        self.root@
    }

    /// The inode directory: the entry last seen at each inode.
    pub closed spec fn directory(&self) -> Map<u64, EntryView> {
        self.inode_cache@.map_values(|e: FilesystemEntry| e@)
    }

    /// The root of the volume on the host.
    pub fn root(&self) -> (r: &String)
        ensures
            r@ == self.spec_root(),
    {
        &self.root
    }

    /// The jail check on a resolved path.
    pub fn jail(root: &str, candidate: Option<String>) -> (r: Result<String, JailEscape>)
        ensures
            match r {
                Ok(h) => jailed(root@, text_of(candidate)) == Some(h@),
                Err(_) => jailed(root@, text_of(candidate)) is None,
            },
    {
        match candidate {
            Some(h) => {
                if is_within(root, h.as_str()) {
                    Ok(h)
                } else {
                    Err(JailEscape {  })
                }
            },
            None => Err(JailEscape {  }),
        }
    }

    fn host_path_of(root: &str, path: &str) -> (r: Result<String, JailEscape>)
        ensures
            match r {
                Ok(h) => host_path(root@, path@) == Some(h@),
                Err(_) => host_path(root@, path@) is None,
            },
    {
        FilesystemAPI::jail(root, resolve(root, path))
    }

    /// Combines `path` with the root of the volume. The result is a host
    /// path inside the volume, or the path is refused.
    pub fn join_root_path(&self, path: &str) -> (r: Result<String, JailEscape>)
        ensures
            match r {
                Ok(h) => host_path(self.spec_root(), path@) == Some(h@) && within(self.spec_root(), h@),
                Err(_) => host_path(self.spec_root(), path@) is None,
            },
    {
        FilesystemAPI::host_path_of(self.root.as_str(), path)
    }

    /// What to ask of the host before an engine for `root` is made: the
    /// metadata of the root directory.
    pub fn open(root: &str) -> (r: Result<HostRequest, FsError>)
        ensures
            asks(r, entry_request(root@, root_path())),
            r matches Ok(q) ==> q@.confined(root@),
    {
        proof {
            reveal_strlit("/");
            assert("/"@ =~= root_path());
        }
        match FilesystemAPI::host_path_of(root, "/") {
            Ok(h) => Ok(HostRequest::Metadata { path: h }),
            Err(_) => Err(FsError::PermissionDenied),
        }
    }

    /// The engine of the volume at `root`, whose root directory the host
    /// reports as `meta`. The root stands in the directory at inode 1.
    pub fn new(root: String, meta: HostMetadata) -> (api: FilesystemAPI)
        ensures
            api.spec_root() == root@,
            api.directory() == initial_directory(meta),
    {
        let mut api = FilesystemAPI { root, inode_cache: HashMap::new() };
        assert(api.directory() =~= Map::<u64, EntryView>::empty());
        proof {
            reveal_strlit("/");
            assert("/"@ =~= root_path());
        }
        let mut ret = api.record("/", meta);
        ret.ino = 1;
        let ghost before = api.inode_cache@;
        api.inode_cache.insert(1, ret);
        assert(api.directory() =~= initial_directory(meta)) by {
            assert(api.inode_cache@ == before.insert(1, ret));
        }
        api
    }

    /// What `readdir` asks of the host.
    pub fn readdir(&self, path: &str) -> (r: Option<HostRequest>)
        ensures
            match r {
                Some(q) => listing_request(self.spec_root(), path@) == Some(q@) && q@.confined(
                    self.spec_root(),
                ),
                None => listing_request(self.spec_root(), path@) is None,
            },
    {
        match self.join_root_path(path) {
            Ok(h) => Some(HostRequest::ReadDir { path: h }),
            Err(_) => None,
        }
    }

    /// The children that the host listed, as volume-relative paths.
    pub fn children(&self, listing: &Vec<String>) -> (r: Vec<String>)
        ensures
            texts(r@) == relative_all(self.spec_root(), texts(listing@)),
    {
        let mut out: Vec<String> = Vec::new();
        let mut i: usize = 0;
        while i < listing.len()
            invariant
                i <= listing.len(),
                out@.len() == i,
                forall|j: int|
                    0 <= j < i ==> (#[trigger] out@[j])@ == volume_relative(
                        self.spec_root(),
                        listing@[j]@,
                    ),
            decreases listing.len() - i,
        {
            out.push(relative_to(self.root.as_str(), listing[i].as_str()));
            i = i + 1;
        }
        assert(texts(out@) =~= relative_all(self.spec_root(), texts(listing@)));
        out
    }

    /// The path of the entry at an inode.
    pub fn get_path_from_inode(&self, ino: u64) -> (r: Result<String, FsError>)
        ensures
            match looked_up(self.directory(), ino) {
                Ok(e) => r matches Ok(p) && p@ == e.path,
                Err(f) => r == Err::<String, FsError>(f),
            },
    {
        match self.get_entry_from_inode(ino) {
            Ok(e) => Ok(e.path),
            Err(f) => Err(f),
        }
    }

    /// The entry at an inode.
    pub fn get_entry_from_inode(&self, ino: u64) -> (r: Result<FilesystemEntry, FsError>)
        ensures
            match looked_up(self.directory(), ino) {
                Ok(e) => r matches Ok(found) && found@ == e,
                Err(f) => r matches Err(g) && g == f,
            },
    {
        match self.inode_cache.get(&ino) {
            Some(e) => Ok(e.clone()),
            None => Err(FsError::NotFound),
        }
    }

    /// What `get_entry` asks of the host.
    pub fn get_entry(&self, path: &str) -> (r: Result<HostRequest, FsError>)
        ensures
            asks(r, entry_request(self.spec_root(), path@)),
            r matches Ok(q) ==> q@.confined(self.spec_root()),
    {
        match self.join_root_path(path) {
            Ok(h) => Ok(HostRequest::Metadata { path: h }),
            Err(_) => Err(FsError::PermissionDenied),
        }
    }

    /// Takes the metadata that the host reported for `path`: the entry
    /// goes into the directory and is returned.
    pub fn record(&mut self, path: &str, meta: HostMetadata) -> (e: FilesystemEntry)
        ensures
            e@ == entry_of(path@, meta),
            final(self).spec_root() == old(self).spec_root(),
            final(self).directory() == recorded(old(self).directory(), path@, meta),
    {
        let ret = if meta.is_dir {
            FilesystemEntry::new_directory(
                path.to_owned(),
                meta.ino,
                meta.size,
                meta.blocks,
                DEFAULT_PERM,
                meta.uid,
                meta.gid,
            )
        } else {
            FilesystemEntry::new_file(
                path.to_owned(),
                meta.ino,
                meta.size,
                meta.blocks,
                DEFAULT_PERM,
                meta.uid,
                meta.gid,
            )
        };
        let ghost before = self.inode_cache@;
        let stored = ret.clone();
        self.inode_cache.insert(meta.ino, stored);
        assert(self.directory() =~= recorded(old(self).directory(), path@, meta)) by {
            assert(self.inode_cache@ == before.insert(meta.ino, stored));
        }
        ret
    }

    fn locate_inode(&self, ino: u64) -> (r: Result<String, FsError>)
        ensures
            match located_inode(self.spec_root(), self.directory(), ino) {
                Ok(h) => r matches Ok(p) && p@ == h && within(self.spec_root(), h),
                Err(f) => r == Err::<String, FsError>(f),
            },
    {
        match self.get_path_from_inode(ino) {
            Ok(path) => match self.join_root_path(path.as_str()) {
                Ok(h) => Ok(h),
                Err(_) => Err(FsError::PermissionDenied),
            },
            Err(f) => Err(f),
        }
    }

    fn locate(&self, parent: u64, name: &str) -> (r: Result<(String, String), FsError>)
        ensures
            match located(self.spec_root(), self.directory(), parent, name@) {
                Ok(place) => r matches Ok(found) && found.0@ == place.0 && found.1@ == place.1
                    && within(self.spec_root(), place.1),
                Err(f) => r == Err::<(String, String), FsError>(f),
            },
    {
        match self.get_path_from_inode(parent) {
            Ok(parent_path) => {
                let path = child_path(parent_path.as_str(), name);
                match self.join_root_path(path.as_str()) {
                    Ok(h) => Ok((path, h)),
                    Err(_) => Err(FsError::PermissionDenied),
                }
            },
            Err(f) => Err(f),
        }
    }

    /// What `read` asks of the host.
    pub fn read(&self, ino: u64, offset: i64, size: u32) -> (r: Result<HostRequest, FsError>)
        ensures
            asks(r, read_request(self.spec_root(), self.directory(), ino, offset, size)),
            r matches Ok(q) ==> q@.confined(self.spec_root()),
    {
        match self.locate_inode(ino) {
            Ok(path) => Ok(HostRequest::Read { path, offset, size }),
            Err(f) => Err(f),
        }
    }

    /// The answer to a read of `size` bytes for which the host had `data`.
    pub fn chunk(size: u32, data: Vec<u8>) -> (r: Vec<u8>)
        ensures
            r@ == fitted(data@, size as nat),
    {
        let mut out = data;
        let n: usize = size as usize;
        if out.len() >= n {
            out.truncate(n);
            assert(out@ =~= fitted(data@, n as nat));
            return out;
        }
        assert(out@ =~= fitted(data@, out@.len()));
        while out.len() < n
            invariant
                data@.len() <= out@.len() <= n,
                out@ == fitted(data@, out@.len()),
            decreases n - out@.len(),
        {
            out.push(0);
            assert(out@ =~= fitted(data@, out@.len()));
        }
        out
    }

    /// What `rename` asks of the host: the volume-relative path of the
    /// destination, the request that looks for it, and the rename itself,
    /// which is due only if nothing is found there.
    pub fn rename(&self, parent: u64, name: &str, nparent: u64, nname: &str) -> (r: Result<
        (String, HostRequest, HostRequest),
        FsError,
    >)
        ensures
            match rename_request(self.spec_root(), self.directory(), parent, name@, nparent, nname@) {
                Ok(want) => r matches Ok(got) && got.0@ == want.0 && got.1@ == want.1 && got.2@
                    == want.2 && got.1@.confined(self.spec_root()) && got.2@.confined(self.spec_root()),
                Err(f) => r matches Err(g) && g == f,
            },
    {
        let from = self.locate(parent, name);
        let to = self.locate(nparent, nname);
        match (from, to) {
            (Ok(from), Ok(to)) => {
                let probe = HostRequest::Metadata { path: to.1.clone() };
                Ok((to.0, probe, HostRequest::Rename { from: from.1, to: to.1 }))
            },
            (Err(FsError::NotFound), _) => Err(FsError::NotFound),
            (_, Err(FsError::NotFound)) => Err(FsError::NotFound),
            _ => Err(FsError::PermissionDenied),
        }
    }

    /// What `mkdir` asks of the host: the volume-relative path of the new
    /// directory, the request that creates it, and the request that looks at
    /// it afterwards.
    pub fn mkdir(&self, parent: u64, name: &str) -> (r: Result<
        (String, HostRequest, HostRequest),
        FsError,
    >)
        ensures
            match make_request(self.spec_root(), self.directory(), parent, name@, true) {
                Ok(want) => r matches Ok(got) && got.0@ == want.0 && got.1@ == want.1 && got.2@
                    == want.2 && got.1@.confined(self.spec_root()) && got.2@.confined(
                    self.spec_root(),
                ),
                Err(f) => r matches Err(g) && g == f,
            },
    {
        match self.locate(parent, name) {
            Ok(place) => {
                let look = HostRequest::Metadata { path: place.1.clone() };
                Ok((place.0, HostRequest::CreateDir { path: place.1 }, look))
            },
            Err(f) => Err(f),
        }
    }

    /// What `create` asks of the host: the volume-relative path of the new
    /// file, the request that creates it, and the request that looks at it
    /// afterwards.
    pub fn create(&self, parent: u64, name: &str) -> (r: Result<
        (String, HostRequest, HostRequest),
        FsError,
    >)
        ensures
            match make_request(self.spec_root(), self.directory(), parent, name@, false) {
                Ok(want) => r matches Ok(got) && got.0@ == want.0 && got.1@ == want.1 && got.2@
                    == want.2 && got.1@.confined(self.spec_root()) && got.2@.confined(
                    self.spec_root(),
                ),
                Err(f) => r matches Err(g) && g == f,
            },
    {
        match self.locate(parent, name) {
            Ok(place) => {
                let look = HostRequest::Metadata { path: place.1.clone() };
                Ok((place.0, HostRequest::CreateFile { path: place.1 }, look))
            },
            Err(f) => Err(f),
        }
    }

    /// What `write` asks of the host.
    pub fn write(&self, ino: u64, offset: i64, data: Vec<u8>) -> (r: Result<HostRequest, FsError>)
        ensures
            asks(r, write_request(self.spec_root(), self.directory(), ino, offset, data@)),
            r matches Ok(q) ==> q@.confined(self.spec_root()),
    {
        match self.locate_inode(ino) {
            Ok(path) => Ok(HostRequest::Write { path, offset, data }),
            Err(f) => Err(f),
        }
    }

    /// What `unlink` asks of the host.
    pub fn unlink(&self, parent: u64, name: &str) -> (r: Result<HostRequest, FsError>)
        ensures
            asks(r, remove_request(self.spec_root(), self.directory(), parent, name@, false)),
            r matches Ok(q) ==> q@.confined(self.spec_root()),
    {
        match self.locate(parent, name) {
            Ok(place) => Ok(HostRequest::RemoveFile { path: place.1 }),
            Err(f) => Err(f),
        }
    }

    /// What `rmdir` asks of the host.
    pub fn rmdir(&self, parent: u64, name: &str) -> (r: Result<HostRequest, FsError>)
        ensures
            asks(r, remove_request(self.spec_root(), self.directory(), parent, name@, true)),
            r matches Ok(q) ==> q@.confined(self.spec_root()),
    {
        match self.locate(parent, name) {
            Ok(place) => Ok(HostRequest::RemoveDir { path: place.1 }),
            Err(f) => Err(f),
        }
    }
}

/// Jail containment: a path that the jail lets through lies inside the volume.
pub proof fn lemma_jail_containment(root: Seq<char>, path: Seq<char>)
    ensures
        host_path(root, path) matches Some(h) ==> within(root, h),
{
}

/// The jail decided: a path is admitted exactly where it joins onto the root
/// to an absolute path whose components, once `..` has climbed, begin with
/// those of the root. The host path is then written from these components.
pub proof fn lemma_host_path_decided(root: Seq<char>, path: Seq<char>)
    ensures
        host_path(root, path) is Some <==> is_absolute(joined(root, path)) && components(
            root,
        ).is_prefix_of(climbed(components(root) + components(path))),
        host_path(root, path) matches Some(h) ==> h == rooted(
            climbed(components(root) + components(path)),
        ),
{
    lemma_components_of_joined(root, path);
    lemma_components_of_canonical(joined(root, path));
}

/// A path that stays inside is never refused: where neither the root nor
/// the path steps to a parent directory, the path is admitted, and its host
/// path is written from the root's components followed by its own.
pub proof fn lemma_plain_path_is_admitted(root: Seq<char>, path: Seq<char>)
    requires
        is_absolute(root),
        stays_below(components(root)),
        stays_below(components(path)),
    ensures
        host_path(root, path) == Some(rooted(components(root) + components(path))),
{
    let all = components(root) + components(path);
    lemma_joined_is_clean(root, path);
    lemma_host_path_decided(root, path);
    assert(stays_below(all)) by {
        assert forall|i: int| 0 <= i < all.len() implies !is_parent(#[trigger] all[i]) by {
            if i < components(root).len() {
                assert(all[i] == components(root)[i]);
            } else {
                assert(all[i] == components(path)[i - components(root).len()]);
            }
        }
    }
    lemma_climbed_of_plain(all);
    assert(all.subrange(0, components(root).len() as int) =~= components(root));
}

/// The parent of the root is refused: in a volume whose root is not the
/// host's root, the path `..` leaves the volume.
pub proof fn lemma_parent_of_root_is_refused(root: Seq<char>)
    requires
        stays_below(components(root)),
        components(root).len() > 0,
    ensures
        host_path(root, seq!['.', '.']) is None,
{
    let up = seq!['.', '.'];
    let all = components(root) + seq![up];
    lemma_host_path_decided(root, up);
    lemma_components_of_name(up);
    assert(all.drop_last() =~= components(root));
    lemma_climbed_of_plain(components(root));
    assert(climbed(all) == components(root).drop_last());
}

/// Inode-root identity: a new engine has the root's entry at inode 1.
pub proof fn lemma_root_identity(meta: HostMetadata)
    ensures
        looked_up(initial_directory(meta), 1) == Ok::<EntryView, FsError>(
            EntryView { ino: 1, ..entry_of(root_path(), meta) },
        ),
{
}

/// Inode round trip: once the entry for `path` is recorded, the inode that
/// it carries leads back to it, and so to `path`.
pub proof fn lemma_inode_round_trip(dir: Map<u64, EntryView>, path: Seq<char>, meta: HostMetadata)
    ensures
        looked_up(recorded(dir, path, meta), entry_of(path, meta).ino) == Ok::<
            EntryView,
            FsError,
        >(entry_of(path, meta)),
        entry_of(path, meta).path == path,
{
}

} // verus!
