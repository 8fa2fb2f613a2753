//! The client session: it builds the call for each operation, reads the
//! response that came back, and keeps the metadata cache.

use crate::api::ApiError;
use crate::caching::Cache;
use crate::calls::{Call, CallView, RequestInfo};
use crate::filesystem_entry::{fresh_entry, EntryView, FilesystemEntry, FsFiletype};
use crate::responses::{texts, Response, ResponseView};
use vstd::prelude::*;

verus! {

/// A host error that the server reported, with its raw OS code.
#[derive(Debug, Clone, Copy, PartialEq, Eq, Structural)]
pub struct OsError {
    pub code: i32,
}

/// The entry that stands in where the server answered with something else
/// than an entry or an error.
pub open spec fn placeholder() -> EntryView {
    fresh_entry(Seq::empty(), 0, 0, 0, 755, 0, 0, FsFiletype::Directory)
}

/// What a response means to `readdir`: its paths, or none.
pub open spec fn listing_reply(resp: ResponseView) -> Seq<Seq<char>> {
    match resp {
        ResponseView::ReadDir { data } => data,
        _ => Seq::empty(),
    }
}

/// What a response means to `read`: its bytes, the error, or no bytes.
pub open spec fn data_reply(resp: ResponseView) -> Result<Seq<u8>, OsError> {
    match resp {
        ResponseView::Read { data } => Ok(data),
        ResponseView::IOError { error } => Err(OsError { code: error }),
        _ => Ok(Seq::empty()),
    }
}

/// What a response means to `rename`, `unlink` and `rmdir`: the error, or success.
pub open spec fn status_reply(resp: ResponseView) -> Result<(), OsError> {
    match resp {
        ResponseView::IOError { error } => Err(OsError { code: error }),
        _ => Ok(()),
    }
}

/// What a response means to `mkdir`, `get_entry` and `get_entry_from_inode`:
/// its entry, the error, or the placeholder.
pub open spec fn entry_reply(resp: ResponseView) -> Result<EntryView, OsError> {
    match resp {
        ResponseView::GetEntry { data } => Ok(data),
        ResponseView::IOError { error } => Err(OsError { code: error }),
        _ => Ok(placeholder()),
    }
}

/// What a response means to `create`: its entry, the error, or the error 0.
pub open spec fn created_reply(resp: ResponseView) -> Result<EntryView, OsError> {
    match resp {
        ResponseView::GetEntry { data } => Ok(data),
        ResponseView::IOError { error } => Err(OsError { code: error }),
        _ => Err(OsError { code: 0 }),
    }
}

/// What a response means to `write`: its count, the error, or the error 0.
pub open spec fn written_reply(resp: ResponseView) -> Result<u32, OsError> {
    match resp {
        ResponseView::Write { data } => Ok(data),
        ResponseView::IOError { error } => Err(OsError { code: error }),
        _ => Err(OsError { code: 0 }),
    }
}

/// What a response means to `get_path_from_inode`: its path, the error, or
/// the empty path.
pub open spec fn path_reply(resp: ResponseView) -> Result<Seq<char>, OsError> {
    match resp {
        ResponseView::GetPath { data } => Ok(data),
        ResponseView::IOError { error } => Err(OsError { code: error }),
        _ => Ok(Seq::empty()),
    }
}

/// What a response means to `lookup_volume`: the id, the server's
/// description of the failure, or a failure without description.
pub open spec fn lookup_reply(resp: ResponseView) -> Result<u64, Seq<char>> {
    match resp {
        ResponseView::VolumeLookup { id } => Ok(id),
        ResponseView::Error { error } => Err(error),
        _ => Err(Seq::empty()),
    }
}

/// What a response means to `list_volumes`.
pub open spec fn volumes_reply(resp: ResponseView) -> Result<Seq<Seq<char>>, Seq<char>> {
    match resp {
        ResponseView::ListVolumes { data } => Ok(data),
        ResponseView::Error { error } => Err(error),
        _ => Err(Seq::empty()),
    }
}

/// What a response means to `server_info`: the response itself where it is
/// the server's info.
pub open spec fn info_reply(resp: ResponseView) -> Result<ResponseView, Seq<char>> {
    match resp {
        ResponseView::ServerInfo { .. } => Ok(resp),
        ResponseView::Error { error } => Err(error),
        _ => Err(Seq::empty()),
    }
}

/// What `get_entry` does first.
#[derive(Debug, PartialEq, Eq)]
pub enum Lookup {
    /// The cache holds the entry: no call is made.
    Cached(FilesystemEntry),
    /// The call to send.
    Ask(Call),
}

/// What `Lookup` says.
pub enum LookupView {
    Cached(EntryView),
    Ask(CallView),
}

impl View for Lookup {
    type V = LookupView;

    open spec fn view(&self) -> LookupView {
        match self {
            Lookup::Cached(e) => LookupView::Cached(e@),
            Lookup::Ask(c) => LookupView::Ask(c@),
        }
    }
}

/// What `get_entry` does first, given the cache: a cached entry is
/// returned, otherwise the server is asked.
pub open spec fn looked(
    cache: Option<Map<Seq<char>, EntryView>>,
    info: RequestInfo,
    path: Seq<char>,
) -> LookupView {
    match cache {
        Some(m) => if m.contains_key(path) {
            LookupView::Cached(m[path])
        } else {
            LookupView::Ask(CallView::GetEntry { info, path })
        },
        None => LookupView::Ask(CallView::GetEntry { info, path }),
    }
}

/// The cache after `get_entry` has read the response to its call for
/// `path`: an entry that it returns is stored for `path`.
pub open spec fn learned(
    cache: Option<Map<Seq<char>, EntryView>>,
    path: Seq<char>,
    resp: ResponseView,
) -> Option<Map<Seq<char>, EntryView>> {
    match (cache, entry_reply(resp)) {
        (Some(m), Ok(e)) => Some(m.insert(path, e)),
        _ => cache,
    }
}

/// The result of a reply is what the contract says it is.
pub open spec fn gives(r: Result<FilesystemEntry, OsError>, want: Result<EntryView, OsError>) -> bool {
    match (r, want) {
        (Ok(e), Ok(w)) => e@ == w,
        (Err(e), Err(w)) => e == w,
        _ => false,
    }
}

fn placeholder_entry() -> (e: FilesystemEntry)
    ensures
        e@ == placeholder(),
{
    FilesystemEntry::new_directory(String::new(), 0, 0, 0, 755, 0, 0)
}

fn entry_from(resp: Response) -> (r: Result<FilesystemEntry, OsError>)
    ensures
        gives(r, entry_reply(resp@)),
{
    match resp {
        Response::GetEntry { data } => Ok(data),
        Response::IOError { error } => Err(OsError { code: error }),
        _ => Ok(placeholder_entry()),
    }
}

fn status_from(resp: Response) -> (r: Result<(), OsError>)
    ensures
        r == status_reply(resp@),
{
    match resp {
        Response::IOError { error } => Err(OsError { code: error }),
        _ => Ok(()),
    }
}

fn failure_from(resp: Response) -> (e: ApiError)
    ensures
        match resp@ {
            ResponseView::Error { error } => e@ == error,
            _ => e@ == Seq::<char>::empty(),
        },
{
    proof {
        reveal_strlit("");
        assert(""@ =~= Seq::<char>::empty());
    }
    match resp {
        Response::Error { error } => ApiError::new(error.as_str()),
        _ => ApiError::new(""),
    }
}

/// Connection to a server, for the calls that are about no volume.
pub struct ServerConnection {}

impl ServerConnection {
    /// A connection that has sent nothing yet.
    pub fn new() -> ServerConnection {
        ServerConnection {  }
    }

    /// The call that looks up the id of a volume.
    pub fn lookup_volume(&self, name: &str) -> (call: Call)
        ensures
            call@ == (CallView::VolumeLookup { name: name@ }),
    {
        Call::VolumeLookup { name: name.to_owned() }
    }

    /// The id of the volume that was looked up.
    pub fn lookup_volume_reply(&self, resp: Response) -> (r: Result<u64, ApiError>)
        ensures
            match lookup_reply(resp@) {
                Ok(id) => r matches Ok(got) && got == id,
                Err(why) => r matches Err(e) && e@ == why,
            },
    {
        match resp {
            Response::VolumeLookup { id } => Ok(id),
            other => Err(failure_from(other)),
        }
    }

    /// The call that asks for the server's name and version.
    pub fn server_info(&self) -> (call: Call)
        ensures
            call@ == CallView::ServerInfo,
    {
        Call::ServerInfo {  }
    }

    /// The server's name and version as they came.
    pub fn server_info_reply(&self, resp: Response) -> (r: Result<Response, ApiError>)
        ensures
            match info_reply(resp@) {
                Ok(info) => r matches Ok(got) && got@ == info,
                Err(why) => r matches Err(e) && e@ == why,
            },
    {
        match resp {
            Response::ServerInfo { name, version } => Ok(Response::ServerInfo { name, version }),
            other => Err(failure_from(other)),
        }
    }

    /// The call that asks for the names of the volumes.
    pub fn list_volumes(&self) -> (call: Call)
        ensures
            call@ == CallView::ListVolumes,
    {
        Call::ListVolumes {  }
    }

    /// The names of the volumes as they came.
    pub fn list_volumes_reply(&self, resp: Response) -> (r: Result<Vec<String>, ApiError>)
        ensures
            match volumes_reply(resp@) {
                Ok(names) => r matches Ok(got) && texts(got@) == names,
                Err(why) => r matches Err(e) && e@ == why,
            },
    {
        match resp {
            Response::ListVolumes { data } => Ok(data),
            other => Err(failure_from(other)),
        }
    }
}

/// Connection to one volume of a server.
pub struct VolumeConnection {
    info: RequestInfo,
    /// The metadata cache, where it is in use
    pub cache: Option<Cache>,
}

impl VolumeConnection {
    /// What every call of the session carries.
    pub closed spec fn info(&self) -> RequestInfo {
        self.info
    }

    /// What the cache holds, where it is in use.
    pub closed spec fn cached(&self) -> Option<Map<Seq<char>, EntryView>> {
        match self.cache {
            Some(c) => Some(c@),
            None => None,
        }
    }

    /// The cache, where it is in use, holds one entry for a path.
    pub closed spec fn wf(&self) -> bool {
        match self.cache {
            Some(c) => c.wf(),
            None => true,
        }
    }

    /// A session with the volume `vol_id`, with an empty cache.
    pub fn new(vol_id: u64) -> (c: VolumeConnection)
        ensures
            c.wf(),
            c.info() == (RequestInfo { volume_id: vol_id }),
            c.cached() == Some(Map::<Seq<char>, EntryView>::empty()),
    {
        VolumeConnection { info: RequestInfo { volume_id: vol_id }, cache: Some(Cache::new()) }
    }

    /// The call that lists a directory.
    pub fn readdir(&self, path: &str) -> (call: Call)
        ensures
            call@ == (CallView::ReadDir { info: self.info(), path: path@ }),
    {
        Call::ReadDir { info: self.info, path: path.to_owned() }
    }

    /// The children that were listed.
    pub fn readdir_reply(&self, resp: Response) -> (r: Vec<String>)
        ensures
            texts(r@) == listing_reply(resp@),
    {
        match resp {
            Response::ReadDir { data } => data,
            _ => {
                let none: Vec<String> = Vec::new();
                assert(texts(none@) =~= Seq::<Seq<char>>::empty());
                none
            },
        }
    }

    /// The call that reads from a file.
    pub fn read(&self, ino: u64, offset: i64, size: u32) -> (call: Call)
        ensures
            call@ == (CallView::Read { info: self.info(), ino, offset, size }),
    {
        Call::Read { info: self.info, ino, offset, size }
    }

    /// The bytes that were read.
    pub fn read_reply(&self, resp: Response) -> (r: Result<Vec<u8>, OsError>)
        ensures
            match data_reply(resp@) {
                Ok(data) => r matches Ok(got) && got@ == data,
                Err(e) => r matches Err(g) && g == e,
            },
    {
        match resp {
            Response::Read { data } => Ok(data),
            Response::IOError { error } => Err(OsError { code: error }),
            _ => Ok(Vec::new()),
        }
    }

    /// The call that renames.
    pub fn rename(&self, parent: u64, name: &str, nparent: u64, nname: &str) -> (call: Call)
        ensures
            call@ == (CallView::Rename {
                info: self.info(),
                parent,
                name: name@,
                nparent,
                nname: nname@,
            }),
    {
        Call::Rename {
            info: self.info,
            parent,
            name: name.to_owned(),
            nparent,
            nname: nname.to_owned(),
        }
    }

    /// Whether the rename was made.
    pub fn rename_reply(&self, resp: Response) -> (r: Result<(), OsError>)
        ensures
            r == status_reply(resp@),
    {
        status_from(resp)
    }

    /// The call that makes a directory.
    pub fn mkdir(&self, parent: u64, name: &str) -> (call: Call)
        ensures
            call@ == (CallView::Mkdir { info: self.info(), parent, name: name@ }),
    {
        Call::Mkdir { info: self.info, parent, name: name.to_owned() }
    }

    /// The directory that was made.
    pub fn mkdir_reply(&self, resp: Response) -> (r: Result<FilesystemEntry, OsError>)
        ensures
            gives(r, entry_reply(resp@)),
    {
        entry_from(resp)
    }

    /// The call that creates a file.
    pub fn create(&self, parent: u64, name: &str) -> (call: Call)
        ensures
            call@ == (CallView::Create { info: self.info(), parent, name: name@ }),
    {
        Call::Create { info: self.info, parent, name: name.to_owned() }
    }

    /// The file that was created.
    pub fn create_reply(&self, resp: Response) -> (r: Result<FilesystemEntry, OsError>)
        ensures
            gives(r, created_reply(resp@)),
    {
        match resp {
            Response::GetEntry { data } => Ok(data),
            Response::IOError { error } => Err(OsError { code: error }),
            _ => Err(OsError { code: 0 }),
        }
    }

    /// The call that writes a file.
    pub fn write(&self, ino: u64, offset: i64, data: &[u8]) -> (call: Call)
        ensures
            call@ == (CallView::Write { info: self.info(), ino, offset, data: data@ }),
    {
        Call::Write { info: self.info, ino, offset, data: vstd::slice::slice_to_vec(data) }
    }

    /// The count that the server reported for the write.
    pub fn write_reply(&self, resp: Response) -> (r: Result<u32, OsError>)
        ensures
            r == written_reply(resp@),
    {
        match resp {
            Response::Write { data } => Ok(data),
            Response::IOError { error } => Err(OsError { code: error }),
            _ => Err(OsError { code: 0 }),
        }
    }

    /// The call that removes a file.
    pub fn unlink(&self, parent: u64, name: &str) -> (call: Call)
        ensures
            call@ == (CallView::Unlink { info: self.info(), parent, name: name@ }),
    {
        Call::Unlink { info: self.info, parent, name: name.to_owned() }
    }

    /// Whether the file was removed.
    pub fn unlink_reply(&self, resp: Response) -> (r: Result<(), OsError>)
        ensures
            r == status_reply(resp@),
    {
        status_from(resp)
    }

    /// The call that removes a directory.
    pub fn rmdir(&self, parent: u64, name: &str) -> (call: Call)
        ensures
            call@ == (CallView::Rmdir { info: self.info(), parent, name: name@ }),
    {
        Call::Rmdir { info: self.info, parent, name: name.to_owned() }
    }

    /// Whether the directory was removed.
    pub fn rmdir_reply(&self, resp: Response) -> (r: Result<(), OsError>)
        ensures
            r == status_reply(resp@),
    {
        status_from(resp)
    }

    /// The entry of `path` from the cache, or the call that asks for it.
    pub fn get_entry(&self, path: &str) -> (r: Lookup)
        requires
            self.wf(),
        ensures
            r@ == looked(self.cached(), self.info(), path@),
    {
        match &self.cache {
            Some(cache) => match cache.get_entry(path) {
                Some(e) => Lookup::Cached(e.clone()),
                None => Lookup::Ask(Call::GetEntry { info: self.info, path: path.to_owned() }),
            },
            None => Lookup::Ask(Call::GetEntry { info: self.info, path: path.to_owned() }),
        }
    }

    /// The entry that was asked for with the call for `path`. It goes into
    /// the cache as the entry of `path`, where the cache is in use.
    pub fn get_entry_reply(&mut self, path: &str, resp: Response) -> (r: Result<
        FilesystemEntry,
        OsError,
    >)
        requires
            old(self).wf(),
        ensures
            final(self).wf(),
            final(self).info() == old(self).info(),
            gives(r, entry_reply(resp@)),
            final(self).cached() == learned(old(self).cached(), path@, resp@),
    {
        let r = entry_from(resp);
        match &r {
            Ok(e) => match &mut self.cache {
                Some(cache) => cache.insert(path, e),
                None => {},
            },
            Err(_) => {},
        }
        r
    }

    /// The call that asks for the entry at an inode.
    pub fn get_entry_from_inode(&self, ino: u64) -> (call: Call)
        ensures
            call@ == (CallView::GetEntryFromInode { info: self.info(), ino }),
    {
        Call::GetEntryFromInode { info: self.info, ino }
    }

    /// The entry at the inode.
    pub fn get_entry_from_inode_reply(&self, resp: Response) -> (r: Result<
        FilesystemEntry,
        OsError,
    >)
        ensures
            gives(r, entry_reply(resp@)),
    {
        entry_from(resp)
    }

    /// The call that asks for the path at an inode.
    pub fn get_path_from_inode(&self, ino: u64) -> (call: Call)
        ensures
            call@ == (CallView::GetPathFromInode { info: self.info(), ino }),
    {
        Call::GetPathFromInode { info: self.info, ino }
    }

    /// The path at the inode.
    pub fn get_path_from_inode_reply(&self, resp: Response) -> (r: Result<String, OsError>)
        ensures
            match path_reply(resp@) {
                Ok(path) => r matches Ok(got) && got@ == path,
                Err(e) => r matches Err(g) && g == e,
            },
    {
        match resp {
            Response::GetPath { data } => Ok(data),
            Response::IOError { error } => Err(OsError { code: error }),
            _ => Ok(String::new()),
        }
    }
}

/// Cache consistency: once `get_entry` has returned an entry for `path` from
/// a response, and the cache is in use, the next `get_entry` of `path`
/// returns that entry from the cache and makes no call.
pub proof fn lemma_cache_consistency(
    cache: Map<Seq<char>, EntryView>,
    info: RequestInfo,
    path: Seq<char>,
    resp: ResponseView,
)
    requires
        entry_reply(resp) is Ok,
    ensures
        looked(learned(Some(cache), path, resp), info, path) == LookupView::Cached(
            entry_reply(resp)->Ok_0,
        ),
{
}

/// What is cached stays as it is while entries for other paths come in.
pub proof fn lemma_cache_keeps_other_paths(
    cache: Map<Seq<char>, EntryView>,
    info: RequestInfo,
    path: Seq<char>,
    other: Seq<char>,
    resp: ResponseView,
)
    requires
        cache.contains_key(path),
        other != path,
    ensures
        looked(learned(Some(cache), other, resp), info, path) == LookupView::Cached(cache[path]),
{
}

} // verus!
