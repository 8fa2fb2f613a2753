//! The dispatcher of the server: it takes a call, selects the volume, holds
//! it to the read-only policy, and says what is to be done on the host or
//! what is answered; then it takes the host's answer and goes on.

use crate::api::{
    entry_of, entry_request, fitted, initial_directory, listing_request, looked_up, make_request,
    read_request, recorded, relative_all, remove_request, rename_request, root_path, text_of,
    write_request, FilesystemAPI, FsError, HostMetadata, HostRequest, HostRequestView,
};
use crate::calls::{Call, CallView, RequestInfo};
use crate::config::ServerConfig;
use crate::filesystem_entry::{EntryView, FilesystemEntry};
use crate::responses::{texts, Response, ResponseView};
use crate::volume::{volume_of, Volume, VolumeView};
use vstd::prelude::*;

verus! {

/// The OS error code of a read-only filesystem.
pub const EROFS: i32 = 30;

/// The answer of the host to a request.
#[derive(Debug, PartialEq, Eq)]
pub enum HostReply {
    /// The operation failed with this OS error code.
    Failed { code: i32 },
    /// The operation was carried out.
    Done,
    /// The metadata that was asked for.
    Metadata { meta: HostMetadata },
    /// The host paths of the children that were asked for.
    Listing { paths: Vec<String> },
    /// The bytes that were read.
    Data { bytes: Vec<u8> },
}

/// What a host reply says.
pub enum HostReplyView {
    Failed { code: i32 },
    Done,
    Metadata { meta: HostMetadata },
    Listing { paths: Seq<Seq<char>> },
    Data { bytes: Seq<u8> },
}

impl View for HostReply {
    type V = HostReplyView;

    open spec fn view(&self) -> HostReplyView {
        match self {
            HostReply::Failed { code } => HostReplyView::Failed { code: *code },
            HostReply::Done => HostReplyView::Done,
            HostReply::Metadata { meta } => HostReplyView::Metadata { meta: *meta },
            HostReply::Listing { paths } => HostReplyView::Listing { paths: texts(paths@) },
            HostReply::Data { bytes } => HostReplyView::Data { bytes: bytes@ },
        }
    }
}

/// What the dispatcher goes on with once the host has answered.
#[derive(Debug, PartialEq, Eq)]
#[allow(inconsistent_fields)]
pub enum Pending {
    /// The metadata of `path` in the volume `volume` was asked for.
    Entry { volume: usize, path: String },
    /// The children of a directory of the volume `volume` were asked for.
    Listing { volume: usize },
    /// `size` bytes of a file were asked for.
    Chunk { size: u32 },
    /// A file was to be written.
    Written,
    /// The destination `target` of a rename was looked for; it must not be there.
    Probe { volume: usize, target: String, rename: HostRequest },
    /// A rename was to be made.
    Renamed,
    /// The entry `path` was to be created; `look` reads its metadata.
    Made { volume: usize, path: String, look: HostRequest },
    /// A file or directory was to be removed.
    Removed,
}

/// What `Pending` says.
#[allow(inconsistent_fields)]
pub enum PendingView {
    Entry { volume: usize, path: Seq<char> },
    Listing { volume: usize },
    Chunk { size: u32 },
    Written,
    Probe { volume: usize, target: Seq<char>, rename: HostRequestView },
    Renamed,
    Made { volume: usize, path: Seq<char>, look: HostRequestView },
    Removed,
}

impl View for Pending {
    type V = PendingView;

    open spec fn view(&self) -> PendingView {
        match self {
            Pending::Entry { volume, path } => PendingView::Entry { volume: *volume, path: path@ },
            Pending::Listing { volume } => PendingView::Listing { volume: *volume },
            Pending::Chunk { size } => PendingView::Chunk { size: *size },
            Pending::Written => PendingView::Written,
            Pending::Probe { volume, target, rename } => PendingView::Probe {
                volume: *volume,
                target: target@,
                rename: rename@,
            },
            Pending::Renamed => PendingView::Renamed,
            Pending::Made { volume, path, look } => PendingView::Made {
                volume: *volume,
                path: path@,
                look: look@,
            },
            Pending::Removed => PendingView::Removed,
        }
    }
}

/// The next thing to do for a call.
#[derive(Debug, PartialEq, Eq)]
pub enum Step {
    /// Carry out `request` on the host and hand its answer to `complete`,
    /// together with `pending`.
    Host { request: HostRequest, pending: Pending },
    /// Send `response` to the client.
    Reply { response: Response },
}

/// What `Step` says.
pub enum StepView {
    Host { request: HostRequestView, pending: PendingView },
    Reply { response: ResponseView },
}

impl View for Step {
    type V = StepView;

    open spec fn view(&self) -> StepView {
        match self {
            Step::Host { request, pending } => StepView::Host {
                request: request@,
                pending: pending@,
            },
            Step::Reply { response } => StepView::Reply { response: response@ },
        }
    }
}

/// What the dispatcher knows: the server's name and version, and its volumes
/// in the order of their ids.
pub struct ServerView {
    pub name: Option<Seq<char>>,
    pub version: Seq<char>,
    pub volumes: Seq<VolumeView>,
}

/// The answer for a failure of the engine: its OS error code.
pub open spec fn failure(e: FsError) -> StepView {
    StepView::Reply { response: ResponseView::IOError { error: e.spec_code() } }
}

/// The answer for a host failure with the given OS error code.
pub open spec fn host_failure(code: i32) -> StepView {
    StepView::Reply { response: ResponseView::IOError { error: code } }
}

/// The answer where no volume has the id or the name that was asked for.
pub open spec fn no_volume() -> StepView {
    StepView::Reply { response: ResponseView::Error { error: "Volume not found"@ } }
}

/// The answer to a change of a read-only volume.
pub open spec fn read_only() -> StepView {
    StepView::Reply { response: ResponseView::IOError { error: EROFS } }
}

/// The answer to a host reply that does not fit what was asked.
pub open spec fn misfit() -> StepView {
    StepView::Reply { response: ResponseView::Invalid }
}

/// The names of the volumes that are discoverable, in the order of the volumes.
pub open spec fn discoverable_names(volumes: Seq<VolumeView>) -> Seq<Seq<char>>
    decreases volumes.len(),
{
    if volumes.len() == 0 {
        Seq::empty()
    } else {
        let rest = discoverable_names(volumes.drop_last());
        if volumes.last().discoverable == Some(true) {
            rest.push(volumes.last().name)
        } else {
            rest
        }
    }
}

/// The id of the first volume with the given name.
pub open spec fn first_named(volumes: Seq<VolumeView>, name: Seq<char>) -> Option<int>
    decreases volumes.len(),
{
    if volumes.len() == 0 {
        None
    } else {
        match first_named(volumes.drop_last(), name) {
            Some(i) => Some(i),
            None => if volumes.last().name == name {
                Some(volumes.len() - 1)
            } else {
                None
            },
        }
    }
}

/// The first step for a call to the volume `v`, whose id is `id`.
pub open spec fn begun_on(v: VolumeView, id: usize, call: CallView) -> StepView {
    match call {
        CallView::ReadDir { path, .. } => match listing_request(v.root, path) {
            Some(request) => StepView::Host { request, pending: PendingView::Listing { volume: id } },
            None => StepView::Reply { response: ResponseView::ReadDir { data: Seq::empty() } },
        },
        CallView::GetEntry { path, .. } => match entry_request(v.root, path) {
            Ok(request) => StepView::Host {
                request,
                pending: PendingView::Entry { volume: id, path },
            },
            Err(e) => failure(e),
        },
        CallView::GetEntryFromInode { ino, .. } => match looked_up(v.directory, ino) {
            Ok(data) => StepView::Reply { response: ResponseView::GetEntry { data } },
            Err(e) => failure(e),
        },
        CallView::GetPathFromInode { ino, .. } => match looked_up(v.directory, ino) {
            Ok(data) => StepView::Reply { response: ResponseView::GetPath { data: data.path } },
            Err(e) => failure(e),
        },
        CallView::Read { ino, offset, size, .. } => match read_request(
            v.root,
            v.directory,
            ino,
            offset,
            size,
        ) {
            Ok(request) => StepView::Host { request, pending: PendingView::Chunk { size } },
            Err(e) => failure(e),
        },
        CallView::Rename { parent, name, nparent, nname, .. } => match rename_request(
            v.root,
            v.directory,
            parent,
            name,
            nparent,
            nname,
        ) {
            Ok(plan) => StepView::Host {
                request: plan.1,
                pending: PendingView::Probe { volume: id, target: plan.0, rename: plan.2 },
            },
            Err(e) => failure(e),
        },
        CallView::Mkdir { parent, name, .. } => match make_request(
            v.root,
            v.directory,
            parent,
            name,
            true,
        ) {
            Ok(plan) => StepView::Host {
                request: plan.1,
                pending: PendingView::Made { volume: id, path: plan.0, look: plan.2 },
            },
            Err(e) => failure(e),
        },
        CallView::Create { parent, name, .. } => match make_request(
            v.root,
            v.directory,
            parent,
            name,
            false,
        ) {
            Ok(plan) => StepView::Host {
                request: plan.1,
                pending: PendingView::Made { volume: id, path: plan.0, look: plan.2 },
            },
            Err(e) => failure(e),
        },
        CallView::Rmdir { parent, name, .. } => match remove_request(
            v.root,
            v.directory,
            parent,
            name,
            true,
        ) {
            Ok(request) => StepView::Host { request, pending: PendingView::Removed },
            Err(e) => failure(e),
        },
        CallView::Unlink { parent, name, .. } => match remove_request(
            v.root,
            v.directory,
            parent,
            name,
            false,
        ) {
            Ok(request) => StepView::Host { request, pending: PendingView::Removed },
            Err(e) => failure(e),
        },
        CallView::Write { ino, offset, data, .. } => match write_request(
            v.root,
            v.directory,
            ino,
            offset,
            data,
        ) {
            Ok(request) => StepView::Host { request, pending: PendingView::Written },
            Err(e) => failure(e),
        },
        _ => misfit(),
    }
}

/// The first step for a call: the answer to a call to the server itself;
/// for a call to a volume the answer that there is no such volume, or that
/// it is read-only, or else what the volume's engine asks of the host.
pub open spec fn begun(s: ServerView, call: CallView) -> StepView {
    match call {
        CallView::ListVolumes => StepView::Reply {
            response: ResponseView::ListVolumes { data: discoverable_names(s.volumes) },
        },
        CallView::VolumeLookup { name } => match first_named(s.volumes, name) {
            Some(i) => StepView::Reply { response: ResponseView::VolumeLookup { id: i as u64 } },
            None => no_volume(),
        },
        CallView::ServerInfo => StepView::Reply {
            response: ResponseView::ServerInfo {
                name: match s.name {
                    Some(n) => n,
                    None => Seq::empty(),
                },
                version: s.version,
            },
        },
        _ => match call.volume() {
            Some(id) => if id >= s.volumes.len() {
                no_volume()
            } else if call.is_mutating() && s.volumes[id as int].readonly == Some(true) {
                read_only()
            } else {
                begun_on(s.volumes[id as int], id as usize, call)
            },
            None => misfit(),
        },
    }
}

/// The server after the volume `volume` has seen the entry for `path`.
pub open spec fn seen(s: ServerView, volume: usize, path: Seq<char>, meta: HostMetadata) -> ServerView {
    ServerView {
        volumes: s.volumes.update(
            volume as int,
            VolumeView {
                directory: recorded(s.volumes[volume as int].directory, path, meta),
                ..s.volumes[volume as int]
            },
        ),
        ..s
    }
}

/// The server and the next step after the host has answered.
pub open spec fn completed(s: ServerView, pending: PendingView, reply: HostReplyView) -> (
    ServerView,
    StepView,
) {
    match pending {
        PendingView::Entry { volume, path } => match reply {
            HostReplyView::Metadata { meta } => if volume < s.volumes.len() {
                (
                    seen(s, volume, path, meta),
                    StepView::Reply {
                        response: ResponseView::GetEntry { data: entry_of(path, meta) },
                    },
                )
            } else {
                (s, no_volume())
            },
            HostReplyView::Failed { code } => (s, host_failure(code)),
            _ => (s, misfit()),
        },
        PendingView::Listing { volume } => match reply {
            HostReplyView::Listing { paths } => if volume < s.volumes.len() {
                (
                    s,
                    StepView::Reply {
                        response: ResponseView::ReadDir {
                            data: relative_all(s.volumes[volume as int].root, paths),
                        },
                    },
                )
            } else {
                (s, no_volume())
            },
            HostReplyView::Failed { .. } => (
                s,
                StepView::Reply { response: ResponseView::ReadDir { data: Seq::empty() } },
            ),
            _ => (s, misfit()),
        },
        PendingView::Chunk { size } => match reply {
            HostReplyView::Data { bytes } => (
                s,
                StepView::Reply {
                    response: ResponseView::Read { data: fitted(bytes, size as nat) },
                },
            ),
            HostReplyView::Failed { code } => (s, host_failure(code)),
            _ => (s, misfit()),
        },
        PendingView::Written => match reply {
            HostReplyView::Done => (s, StepView::Reply { response: ResponseView::Write { data: 0 } }),
            HostReplyView::Failed { code } => (s, host_failure(code)),
            _ => (s, misfit()),
        },
        PendingView::Probe { volume, target, rename } => if volume >= s.volumes.len() {
            (s, no_volume())
        } else {
            match reply {
                HostReplyView::Metadata { meta } => (
                    seen(s, volume, target, meta),
                    failure(FsError::AlreadyExists),
                ),
                HostReplyView::Failed { .. } => if rename.confined(s.volumes[volume as int].root) {
                    (s, StepView::Host { request: rename, pending: PendingView::Renamed })
                } else {
                    (s, failure(FsError::PermissionDenied))
                },
                _ => (s, misfit()),
            }
        },
        PendingView::Renamed => match reply {
            HostReplyView::Done => (s, StepView::Reply { response: ResponseView::Success }),
            HostReplyView::Failed { .. } => (s, failure(FsError::PermissionDenied)),
            _ => (s, misfit()),
        },
        PendingView::Made { volume, path, look } => if volume >= s.volumes.len() {
            (s, no_volume())
        } else {
            match reply {
                HostReplyView::Done => if look.confined(s.volumes[volume as int].root) {
                    (s, StepView::Host { request: look, pending: PendingView::Entry { volume, path } })
                } else {
                    (s, failure(FsError::PermissionDenied))
                },
                HostReplyView::Failed { .. } => (s, failure(FsError::PermissionDenied)),
                _ => (s, misfit()),
            }
        },
        PendingView::Removed => match reply {
            HostReplyView::Done => (s, StepView::Reply { response: ResponseView::Success }),
            HostReplyView::Failed { code } => (s, host_failure(code)),
            _ => (s, misfit()),
        },
    }
}

impl StepView {
    /// A step that touches the host touches it inside one of the volumes.
    pub open spec fn confined(self, s: ServerView) -> bool {
        match self {
            StepView::Host { request, .. } => exists|i: int|
                0 <= i < s.volumes.len() && request.confined((#[trigger] s.volumes[i]).root),
            StepView::Reply { .. } => true,
        }
    }
}

/// The file server: its configuration and its volumes.
pub struct FileServer {
    config: ServerConfig,
    volumes: Vec<Volume>,
    version: String,
}

impl View for FileServer {
    type V = ServerView;

    closed spec fn view(&self) -> ServerView {
        ServerView {
            name: text_of(self.config.name),
            version: self.version@,
            volumes: Seq::new(self.volumes@.len(), |i: int| self.volumes@[i]@),
        }
    }
}

fn reply(response: Response) -> (step: Step)
    ensures
        step@ == (StepView::Reply { response: response@ }),
{
    Step::Reply { response }
}

fn fail(e: FsError) -> (step: Step)
    ensures
        step@ == failure(e),
{
    Step::Reply { response: Response::IOError { error: e.code() } }
}

fn host_fail(code: i32) -> (step: Step)
    ensures
        step@ == host_failure(code),
{
    Step::Reply { response: Response::IOError { error: code } }
}

fn unknown_volume() -> (step: Step)
    ensures
        step@ == no_volume(),
{
    Step::Reply { response: Response::Error { error: "Volume not found".to_owned() } }
}

fn no_children() -> (step: Step)
    ensures
        step@ == (StepView::Reply { response: ResponseView::ReadDir { data: Seq::empty() } }),
{
    let data: Vec<String> = Vec::new();
    assert(texts(data@) =~= Seq::<Seq<char>>::empty());
    Step::Reply { response: Response::ReadDir { data } }
}

fn refuse_misfit() -> (step: Step)
    ensures
        step@ == misfit(),
{
    Step::Reply { response: Response::Invalid }
}

impl FileServer {
    /// The server that `config` describes. The host reports `roots[i]` for
    /// the root of the volume `i`; `version` is the version of the build.
    pub fn new(config: ServerConfig, roots: Vec<HostMetadata>, version: String) -> (s: FileServer)
        requires
            roots@.len() == config.volumes@.len(),
        ensures
            s@.name == text_of(config.name),
            s@.version == version@,
            s@.volumes.len() == config.volumes@.len(),
            forall|i: int|
                0 <= i < config.volumes@.len() ==> #[trigger] s@.volumes[i] == volume_of(
                    config.volumes@[i],
                    roots@[i],
                ),
    {
        let mut volumes: Vec<Volume> = Vec::new();
        let mut i: usize = 0;
        while i < config.volumes.len()
            invariant
                i <= config.volumes@.len(),
                roots@.len() == config.volumes@.len(),
                volumes@.len() == i,
                forall|j: int|
                    0 <= j < i ==> (#[trigger] volumes@[j])@ == volume_of(
                        config.volumes@[j],
                        roots@[j],
                    ),
            decreases config.volumes@.len() - i,
        {
            volumes.push(Volume::new(&config.volumes[i], roots[i]));
            i = i + 1;
        }
        FileServer { config, volumes, version }
    }

    /// The number of volumes.
    pub fn volume_count(&self) -> (n: usize)
        ensures
            n == self@.volumes.len(),
    {
        self.volumes.len()
    }

    /// Checks whether the volume is read-only: a read-only volume gives the
    /// answer to send in place of the change.
    pub fn check_read_only(&self, vol_id: usize) -> (r: Result<(), Response>)
        requires
            vol_id < self@.volumes.len(),
        ensures
            match r {
                Ok(_) => self@.volumes[vol_id as int].readonly != Some(true),
                Err(resp) => self@.volumes[vol_id as int].readonly == Some(true)
                    && (StepView::Reply { response: resp@ }) == read_only(),
            },
    {
        match self.volumes[vol_id].config.readonly {
            Some(true) => Err(Response::IOError { error: EROFS }),
            _ => Ok(()),
        }
    }

    /// The names of the discoverable volumes.
    pub fn list_volumes(&self) -> (names: Vec<String>)
        ensures
            texts(names@) == discoverable_names(self@.volumes),
    {
        let mut names: Vec<String> = Vec::new();
        let mut i: usize = 0;
        assert(self@.volumes.take(0) =~= Seq::<VolumeView>::empty());
        assert(texts(names@) =~= discoverable_names(self@.volumes.take(0)));
        while i < self.volumes.len()
            invariant
                i <= self.volumes@.len(),
                texts(names@) == discoverable_names(self@.volumes.take(i as int)),
            decreases self.volumes@.len() - i,
        {
            let volume = &self.volumes[i];
            assert(self@.volumes.take(i as int + 1).drop_last() == self@.volumes.take(i as int));
            match volume.config.discoverable {
                Some(true) => {
                    let ghost before = texts(names@);
                    names.push(volume.name.clone());
                    assert(texts(names@) =~= before.push(volume.name@));
                },
                _ => {},
            }
            i = i + 1;
        }
        assert(self@.volumes.take(self.volumes@.len() as int) == self@.volumes);
        names
    }

    /// The id of the first volume with the given name.
    pub fn volume_lookup(&self, name: &String) -> (r: Option<u64>)
        ensures
            match r {
                Some(id) => first_named(self@.volumes, name@) == Some(id as int),
                None => first_named(self@.volumes, name@) is None,
            },
    {
        let mut i: usize = 0;
        assert(self@.volumes.take(0) =~= Seq::<VolumeView>::empty());
        while i < self.volumes.len()
            invariant
                i <= self.volumes@.len(),
                first_named(self@.volumes.take(i as int), name@) is None,
            decreases self.volumes@.len() - i,
        {
            assert(self@.volumes.take(i as int + 1).drop_last() == self@.volumes.take(i as int));
            if self.volumes[i].name == *name {
                proof {
                    lemma_first_named_stays(self@.volumes, name@, i as int + 1);
                }
                return Some(i as u64);
            }
            i = i + 1;
        }
        assert(self@.volumes.take(self.volumes@.len() as int) == self@.volumes);
        None
    }

    /// The name and the version of the server.
    pub fn server_info(&self) -> (r: Response)
        ensures
            r@ == (ResponseView::ServerInfo {
                name: match self@.name {
                    Some(n) => n,
                    None => Seq::empty(),
                },
                version: self@.version,
            }),
    {
        let name = match &self.config.name {
            Some(n) => n.clone(),
            None => String::new(),
        };
        Response::ServerInfo { name, version: self.version.clone() }
    }

    fn select(&self, info: RequestInfo) -> (r: Option<usize>)
        ensures
            match r {
                Some(i) => i == info.volume_id && i < self@.volumes.len(),
                None => info.volume_id >= self@.volumes.len(),
            },
    {
        if info.volume_id < self.volumes.len() as u64 {
            Some(info.volume_id as usize)
        } else {
            None
        }
    }

    fn select_writable(&self, info: RequestInfo) -> (r: Result<usize, Step>)
        ensures
            match r {
                Ok(i) => i == info.volume_id && i < self@.volumes.len()
                    && self@.volumes[i as int].readonly != Some(true),
                Err(step) => if info.volume_id >= self@.volumes.len() {
                    step@ == no_volume()
                } else {
                    self@.volumes[info.volume_id as int].readonly == Some(true) && step@
                        == read_only()
                },
            },
    {
        match self.select(info) {
            Some(i) => match self.check_read_only(i) {
                Ok(_) => Ok(i),
                Err(response) => Err(Step::Reply { response }),
            },
            None => Err(unknown_volume()),
        }
    }

    /// Takes a call and says what is to be done first: something on the
    /// host, or the answer itself.
    pub fn handle_cmd(&self, call: Call) -> (step: Step)
        ensures
            step@ == begun(self@, call@),
            step@.confined(self@),
    {
        match call {
            Call::ReadDir { info, path } => match self.select(info) {
                Some(i) => match self.volumes[i].api.readdir(path.as_str()) {
                    Some(request) => Step::Host { request, pending: Pending::Listing { volume: i } },
                    None => no_children(),
                },
                None => unknown_volume(),
            },
            Call::GetEntry { info, path } => match self.select(info) {
                Some(i) => match self.volumes[i].api.get_entry(path.as_str()) {
                    Ok(request) => Step::Host { request, pending: Pending::Entry { volume: i, path } },
                    Err(e) => fail(e),
                },
                None => unknown_volume(),
            },
            Call::GetEntryFromInode { info, ino } => match self.select(info) {
                Some(i) => match self.volumes[i].api.get_entry_from_inode(ino) {
                    Ok(data) => reply(Response::GetEntry { data }),
                    Err(e) => fail(e),
                },
                None => unknown_volume(),
            },
            Call::GetPathFromInode { info, ino } => match self.select(info) {
                Some(i) => match self.volumes[i].api.get_path_from_inode(ino) {
                    Ok(data) => reply(Response::GetPath { data }),
                    Err(e) => fail(e),
                },
                None => unknown_volume(),
            },
            Call::Read { info, ino, offset, size } => match self.select(info) {
                Some(i) => match self.volumes[i].api.read(ino, offset, size) {
                    Ok(request) => Step::Host { request, pending: Pending::Chunk { size } },
                    Err(e) => fail(e),
                },
                None => unknown_volume(),
            },
            Call::Rename { info, parent, name, nparent, nname } => match self.select_writable(info) {
                Ok(i) => match self.volumes[i].api.rename(
                    parent,
                    name.as_str(),
                    nparent,
                    nname.as_str(),
                ) {
                    Ok(plan) => Step::Host {
                        request: plan.1,
                        pending: Pending::Probe { volume: i, target: plan.0, rename: plan.2 },
                    },
                    Err(e) => fail(e),
                },
                Err(step) => step,
            },
            Call::Mkdir { info, parent, name } => match self.select_writable(info) {
                Ok(i) => match self.volumes[i].api.mkdir(parent, name.as_str()) {
                    Ok(plan) => Step::Host {
                        request: plan.1,
                        pending: Pending::Made { volume: i, path: plan.0, look: plan.2 },
                    },
                    Err(e) => fail(e),
                },
                Err(step) => step,
            },
            Call::Rmdir { info, parent, name } => match self.select_writable(info) {
                Ok(i) => match self.volumes[i].api.rmdir(parent, name.as_str()) {
                    Ok(request) => Step::Host { request, pending: Pending::Removed },
                    Err(e) => fail(e),
                },
                Err(step) => step,
            },
            Call::Create { info, parent, name } => match self.select_writable(info) {
                Ok(i) => match self.volumes[i].api.create(parent, name.as_str()) {
                    Ok(plan) => Step::Host {
                        request: plan.1,
                        pending: Pending::Made { volume: i, path: plan.0, look: plan.2 },
                    },
                    Err(e) => fail(e),
                },
                Err(step) => step,
            },
            Call::Unlink { info, parent, name } => match self.select_writable(info) {
                Ok(i) => match self.volumes[i].api.unlink(parent, name.as_str()) {
                    Ok(request) => Step::Host { request, pending: Pending::Removed },
                    Err(e) => fail(e),
                },
                Err(step) => step,
            },
            Call::Write { info, ino, offset, data } => match self.select_writable(info) {
                Ok(i) => match self.volumes[i].api.write(ino, offset, data) {
                    Ok(request) => Step::Host { request, pending: Pending::Written },
                    Err(e) => fail(e),
                },
                Err(step) => step,
            },
            Call::ListVolumes {  } => reply(Response::ListVolumes { data: self.list_volumes() }),
            Call::VolumeLookup { name } => match self.volume_lookup(&name) {
                Some(id) => reply(Response::VolumeLookup { id }),
                None => unknown_volume(),
            },
            Call::ServerInfo {  } => reply(self.server_info()),
        }
    }

    fn see(&mut self, volume: usize, path: &str, meta: HostMetadata) -> (e: FilesystemEntry)
        requires
            volume < old(self)@.volumes.len(),
        ensures
            e@ == entry_of(path@, meta),
            final(self)@ == seen(old(self)@, volume, path@, meta),
    {
        let e = self.volumes[volume].api.record(path, meta);
        assert(self@.volumes =~= seen(old(self)@, volume, path@, meta).volumes);
        e
    }

    /// Takes the host's answer to the request of a step, and says what is
    /// to be done next.
    pub fn complete(&mut self, pending: Pending, answer: HostReply) -> (step: Step)
        ensures
            final(self)@ == completed(old(self)@, pending@, answer@).0,
            step@ == completed(old(self)@, pending@, answer@).1,
            step@.confined(final(self)@),
    {
        match pending {
            Pending::Entry { volume, path } => match answer {
                HostReply::Metadata { meta } => {
                    if volume < self.volumes.len() {
                        let data = self.see(volume, path.as_str(), meta);
                        reply(Response::GetEntry { data })
                    } else {
                        unknown_volume()
                    }
                },
                HostReply::Failed { code } => host_fail(code),
                _ => refuse_misfit(),
            },
            Pending::Listing { volume } => match answer {
                HostReply::Listing { paths } => {
                    if volume < self.volumes.len() {
                        let data = self.volumes[volume].api.children(&paths);
                        reply(Response::ReadDir { data })
                    } else {
                        unknown_volume()
                    }
                },
                HostReply::Failed { .. } => no_children(),
                _ => refuse_misfit(),
            },
            Pending::Chunk { size } => match answer {
                HostReply::Data { bytes } => reply(
                    Response::Read { data: FilesystemAPI::chunk(size, bytes) },
                ),
                HostReply::Failed { code } => host_fail(code),
                _ => refuse_misfit(),
            },
            Pending::Written => match answer {
                HostReply::Done => reply(Response::Write { data: 0 }),
                HostReply::Failed { code } => host_fail(code),
                _ => refuse_misfit(),
            },
            Pending::Probe { volume, target, rename } => {
                if volume >= self.volumes.len() {
                    unknown_volume()
                } else {
                    match answer {
                        HostReply::Metadata { meta } => {
                            let _ = self.see(volume, target.as_str(), meta);
                            fail(FsError::AlreadyExists)
                        },
                        HostReply::Failed { .. } => {
                            if rename.is_confined(self.volumes[volume].api.root().as_str()) {
                                Step::Host { request: rename, pending: Pending::Renamed }
                            } else {
                                fail(FsError::PermissionDenied)
                            }
                        },
                        _ => refuse_misfit(),
                    }
                }
            },
            Pending::Renamed => match answer {
                HostReply::Done => reply(Response::Success {  }),
                HostReply::Failed { .. } => fail(FsError::PermissionDenied),
                _ => refuse_misfit(),
            },
            Pending::Made { volume, path, look } => {
                if volume >= self.volumes.len() {
                    unknown_volume()
                } else {
                    match answer {
                        HostReply::Done => {
                            if look.is_confined(self.volumes[volume].api.root().as_str()) {
                                Step::Host { request: look, pending: Pending::Entry { volume, path } }
                            } else {
                                fail(FsError::PermissionDenied)
                            }
                        },
                        HostReply::Failed { .. } => fail(FsError::PermissionDenied),
                        _ => refuse_misfit(),
                    }
                }
            },
            Pending::Removed => match answer {
                HostReply::Done => reply(Response::Success {  }),
                HostReply::Failed { code } => host_fail(code),
                _ => refuse_misfit(),
            },
        }
    }
}

/// A volume found among the first volumes is the one found among all.
proof fn lemma_first_named_stays(volumes: Seq<VolumeView>, name: Seq<char>, k: int)
    requires
        0 <= k <= volumes.len(),
        first_named(volumes.take(k), name) is Some,
    ensures
        first_named(volumes, name) == first_named(volumes.take(k), name),
    decreases volumes.len() - k,
{
    if k == volumes.len() {
        assert(volumes.take(k) =~= volumes);
    } else {
        assert(volumes.drop_last().take(k) =~= volumes.take(k));
        lemma_first_named_stays(volumes.drop_last(), name, k);
    }
}

/// What the lookup finds is the first volume of that name; it finds none
/// only where no volume has the name.
pub proof fn lemma_first_named(volumes: Seq<VolumeView>, name: Seq<char>)
    ensures
        match first_named(volumes, name) {
            Some(i) => 0 <= i < volumes.len() && volumes[i].name == name && forall|j: int|
                0 <= j < i ==> (#[trigger] volumes[j]).name != name,
            None => forall|j: int| 0 <= j < volumes.len() ==> (#[trigger] volumes[j]).name != name,
        },
    decreases volumes.len(),
{
    if volumes.len() > 0 {
        lemma_first_named(volumes.drop_last(), name);
        match first_named(volumes.drop_last(), name) {
            Some(i) => {
                assert forall|j: int| 0 <= j < i implies (#[trigger] volumes[j]).name != name by {
                    assert(volumes.drop_last()[j].name != name);
                }
            },
            None => {
                assert forall|j: int| 0 <= j < volumes.len() - 1 implies (
                #[trigger] volumes[j]).name != name by {
                    assert(volumes.drop_last()[j].name != name);
                }
            },
        }
    }
}

/// Discovery filter: the listed names are exactly the names of the
/// volumes whose `discoverable` is set and true, in the order of the volumes.
pub proof fn lemma_discovery_filter(volumes: Seq<VolumeView>)
    ensures
        discoverable_names(volumes) == volumes.filter(
            |v: VolumeView| v.discoverable == Some(true),
        ).map_values(|v: VolumeView| v.name),
    decreases volumes.len(),
{
    let keep = |v: VolumeView| v.discoverable == Some(true);
    let name = |v: VolumeView| v.name;
    reveal(Seq::filter);
    if volumes.len() == 0 {
        assert(volumes.filter(keep).map_values(name) =~= Seq::<Seq<char>>::empty());
    } else {
        lemma_discovery_filter(volumes.drop_last());
        let rest = volumes.drop_last().filter(keep);
        if keep(volumes.last()) {
            assert(rest.push(volumes.last()).map_values(name) =~= rest.map_values(name).push(
                volumes.last().name,
            ));
        }
    }
}

/// The directories only grow: whatever the host answers, the server keeps
/// its volumes with their names, roots and flags, and every inode that a
/// directory held it still holds.
pub proof fn lemma_directory_grows(s: ServerView, pending: PendingView, answer: HostReplyView)
    ensures
        completed(s, pending, answer).0.name == s.name,
        completed(s, pending, answer).0.version == s.version,
        completed(s, pending, answer).0.volumes.len() == s.volumes.len(),
        forall|i: int|
            0 <= i < s.volumes.len() ==> {
                let before = #[trigger] s.volumes[i];
                let after = completed(s, pending, answer).0.volumes[i];
                &&& after.name == before.name
                &&& after.root == before.root
                &&& after.discoverable == before.discoverable
                &&& after.readonly == before.readonly
                &&& forall|ino: u64|
                    before.directory.contains_key(ino) ==> after.directory.contains_key(ino)
            },
{
}

/// A call to a volume that is not there is answered at once.
pub proof fn lemma_unknown_volume(s: ServerView, call: CallView)
    requires
        call.volume() matches Some(id) && id >= s.volumes.len(),
    ensures
        begun(s, call) == no_volume(),
{
}

/// Inode-root identity: a volume that was just made answers a call for the
/// entry at inode 1 with the entry of its root.
pub proof fn lemma_root_identity(s: ServerView, info: RequestInfo, meta: HostMetadata)
    requires
        info.volume_id < s.volumes.len(),
        s.volumes[info.volume_id as int].directory == initial_directory(meta),
    ensures
        begun(s, CallView::GetEntryFromInode { info, ino: 1 }) == (StepView::Reply {
            response: ResponseView::GetEntry {
                data: EntryView { ino: 1, ..entry_of(root_path(), meta) },
            },
        }),
{
}

/// Read-only enforcement: a call that changes a read-only volume is
/// answered with the read-only error at once; nothing is asked of the host.
pub proof fn lemma_read_only_enforced(s: ServerView, call: CallView)
    requires
        call.is_mutating(),
        call.volume() matches Some(id) && id < s.volumes.len() && s.volumes[id as int].readonly
            == Some(true),
    ensures
        begun(s, call) == read_only(),
{
}

} // verus!
