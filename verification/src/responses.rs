use crate::filesystem_entry::{EntryView, FilesystemEntry};
use vstd::prelude::*;

verus! {

/// Possible responses of the server.
#[derive(Debug, PartialEq, Eq)]
#[allow(inconsistent_fields)]
pub enum Response {
    Invalid,
    /// General error with its description
    Error { error: String },
    /// A host error with its raw OS code
    IOError { error: i32 },
    /// The operation was carried out and has nothing to return
    Success {},
    ReadDir { data: Vec<String> },
    GetEntry { data: FilesystemEntry },
    GetPath { data: String },
    Read { data: Vec<u8> },
    Write { data: u32 },
    ListVolumes { data: Vec<String> },
    VolumeLookup { id: u64 },
    ServerInfo { name: String, version: String },
    Compressed { data: Vec<u8> },
}

/// The character sequences that a list of strings holds.
pub open spec fn texts(v: Seq<String>) -> Seq<Seq<char>> {
    Seq::new(v.len(), |i: int| v[i]@)
}

/// What a response says, its texts as sequences of characters.
#[allow(inconsistent_fields)]
pub enum ResponseView {
    Invalid,
    Error { error: Seq<char> },
    IOError { error: i32 },
    Success,
    ReadDir { data: Seq<Seq<char>> },
    GetEntry { data: EntryView },
    GetPath { data: Seq<char> },
    Read { data: Seq<u8> },
    Write { data: u32 },
    ListVolumes { data: Seq<Seq<char>> },
    VolumeLookup { id: u64 },
    ServerInfo { name: Seq<char>, version: Seq<char> },
    Compressed { data: Seq<u8> },
}

impl View for Response {
    type V = ResponseView;

    open spec fn view(&self) -> ResponseView {
        match self {
            Response::Invalid => ResponseView::Invalid,
            Response::Error { error } => ResponseView::Error { error: error@ },
            Response::IOError { error } => ResponseView::IOError { error: *error },
            Response::Success {  } => ResponseView::Success,
            Response::ReadDir { data } => ResponseView::ReadDir { data: texts(data@) },
            Response::GetEntry { data } => ResponseView::GetEntry { data: data@ },
            Response::GetPath { data } => ResponseView::GetPath { data: data@ },
            Response::Read { data } => ResponseView::Read { data: data@ },
            Response::Write { data } => ResponseView::Write { data: *data },
            Response::ListVolumes { data } => ResponseView::ListVolumes { data: texts(data@) },
            Response::VolumeLookup { id } => ResponseView::VolumeLookup { id: *id },
            Response::ServerInfo { name, version } => ResponseView::ServerInfo {
                name: name@,
                version: version@,
            },
            Response::Compressed { data } => ResponseView::Compressed { data: data@ },
        }
    }
}

} // verus!
