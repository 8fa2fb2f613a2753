use vstd::prelude::*;

verus! {

/// What every call to a volume carries: the volume it is meant for.
#[derive(Debug, Clone, Copy, PartialEq, Eq, Structural)]
pub struct RequestInfo {
    pub volume_id: u64,
}

/// Possible calls of a client.
#[derive(Debug, PartialEq, Eq)]
#[allow(inconsistent_fields)]
pub enum Call {
    ReadDir { info: RequestInfo, path: String },
    GetEntry { info: RequestInfo, path: String },
    GetEntryFromInode { info: RequestInfo, ino: u64 },
    GetPathFromInode { info: RequestInfo, ino: u64 },
    Read { info: RequestInfo, ino: u64, offset: i64, size: u32 },
    Rename { info: RequestInfo, parent: u64, name: String, nparent: u64, nname: String },
    Mkdir { info: RequestInfo, parent: u64, name: String },
    Rmdir { info: RequestInfo, parent: u64, name: String },
    Create { info: RequestInfo, parent: u64, name: String },
    Unlink { info: RequestInfo, parent: u64, name: String },
    Write { info: RequestInfo, ino: u64, offset: i64, data: Vec<u8> },
    ListVolumes {},
    VolumeLookup { name: String },
    ServerInfo {},
}

/// What a call says, its texts as sequences of characters.
#[allow(inconsistent_fields)]
pub enum CallView {
    ReadDir { info: RequestInfo, path: Seq<char> },
    GetEntry { info: RequestInfo, path: Seq<char> },
    GetEntryFromInode { info: RequestInfo, ino: u64 },
    GetPathFromInode { info: RequestInfo, ino: u64 },
    Read { info: RequestInfo, ino: u64, offset: i64, size: u32 },
    Rename { info: RequestInfo, parent: u64, name: Seq<char>, nparent: u64, nname: Seq<char> },
    Mkdir { info: RequestInfo, parent: u64, name: Seq<char> },
    Rmdir { info: RequestInfo, parent: u64, name: Seq<char> },
    Create { info: RequestInfo, parent: u64, name: Seq<char> },
    Unlink { info: RequestInfo, parent: u64, name: Seq<char> },
    Write { info: RequestInfo, ino: u64, offset: i64, data: Seq<u8> },
    ListVolumes,
    VolumeLookup { name: Seq<char> },
    ServerInfo,
}

impl View for Call {
    type V = CallView;

    open spec fn view(&self) -> CallView {
        match self {
            Call::ReadDir { info, path } => CallView::ReadDir { info: *info, path: path@ },
            Call::GetEntry { info, path } => CallView::GetEntry { info: *info, path: path@ },
            Call::GetEntryFromInode { info, ino } => CallView::GetEntryFromInode {
                info: *info,
                ino: *ino,
            },
            Call::GetPathFromInode { info, ino } => CallView::GetPathFromInode {
                info: *info,
                ino: *ino,
            },
            Call::Read { info, ino, offset, size } => CallView::Read {
                info: *info,
                ino: *ino,
                offset: *offset,
                size: *size,
            },
            Call::Rename { info, parent, name, nparent, nname } => CallView::Rename {
                info: *info,
                parent: *parent,
                name: name@,
                nparent: *nparent,
                nname: nname@,
            },
            Call::Mkdir { info, parent, name } => CallView::Mkdir {
                info: *info,
                parent: *parent,
                name: name@,
            },
            Call::Rmdir { info, parent, name } => CallView::Rmdir {
                info: *info,
                parent: *parent,
                name: name@,
            },
            Call::Create { info, parent, name } => CallView::Create {
                info: *info,
                parent: *parent,
                name: name@,
            },
            Call::Unlink { info, parent, name } => CallView::Unlink {
                info: *info,
                parent: *parent,
                name: name@,
            },
            Call::Write { info, ino, offset, data } => CallView::Write {
                info: *info,
                ino: *ino,
                offset: *offset,
                data: data@,
            },
            Call::ListVolumes {  } => CallView::ListVolumes,
            Call::VolumeLookup { name } => CallView::VolumeLookup { name: name@ },
            Call::ServerInfo {  } => CallView::ServerInfo,
        }
    }
}

impl CallView {
    /// The calls that change the backing tree.
    pub open spec fn is_mutating(self) -> bool {
        self is Rename || self is Mkdir || self is Rmdir || self is Create || self is Unlink
            || self is Write
    }

    /// The volume that the call is meant for; the calls to the server itself name none.
    pub open spec fn volume(self) -> Option<u64> {
        match self {
            CallView::ReadDir { info, .. } => Some(info.volume_id),
            CallView::GetEntry { info, .. } => Some(info.volume_id),
            CallView::GetEntryFromInode { info, .. } => Some(info.volume_id),
            CallView::GetPathFromInode { info, .. } => Some(info.volume_id),
            CallView::Read { info, .. } => Some(info.volume_id),
            CallView::Rename { info, .. } => Some(info.volume_id),
            CallView::Mkdir { info, .. } => Some(info.volume_id),
            CallView::Rmdir { info, .. } => Some(info.volume_id),
            CallView::Create { info, .. } => Some(info.volume_id),
            CallView::Unlink { info, .. } => Some(info.volume_id),
            CallView::Write { info, .. } => Some(info.volume_id),
            CallView::ListVolumes => None,
            CallView::VolumeLookup { .. } => None,
            CallView::ServerInfo => None,
        }
    }
}

} // verus!
