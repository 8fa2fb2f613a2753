use shfs::api::{HostMetadata, HostRequest};
use shfs::calls::{Call, RequestInfo};
use shfs::config::{ServerConfig, VolumeConfig};
use shfs::filesystem_entry::FsFiletype;
use shfs::responses::Response;
use shfs::server::{FileServer, HostReply, Pending, Step, EROFS};
use shfs::volume::Volume;

fn volume(
    name: Option<&str>,
    root: &str,
    discoverable: Option<bool>,
    readonly: Option<bool>,
) -> VolumeConfig {
    VolumeConfig {
        name: name.map(String::from),
        description: None,
        root: root.to_string(),
        discoverable,
        public: None,
        trash_enabled: None,
        readonly,
    }
}

fn dir(ino: u64) -> HostMetadata {
    HostMetadata { ino, size: 4096, blocks: 8, uid: 0, gid: 0, is_dir: true }
}

fn file(ino: u64) -> HostMetadata {
    HostMetadata { ino, size: 0, blocks: 0, uid: 0, gid: 0, is_dir: false }
}

fn server(volumes: Vec<VolumeConfig>) -> FileServer {
    let roots = (0..volumes.len()).map(|i| dir(1000 + i as u64)).collect();
    FileServer::new(ServerConfig { name: None, volumes }, roots, "0.1.0".to_string())
}

fn one_volume(readonly: bool) -> FileServer {
    server(vec![volume(Some("V"), "/srv/v", None, Some(readonly))])
}

fn info(volume_id: u64) -> RequestInfo {
    RequestInfo { volume_id }
}

fn host(step: Step) -> (HostRequest, Pending) {
    match step {
        Step::Host { request, pending } => (request, pending),
        other => panic!("no host request: {:?}", other),
    }
}

fn answer(step: Step) -> Response {
    match step {
        Step::Reply { response } => response,
        other => panic!("no reply: {:?}", other),
    }
}

fn changes(volume_id: u64) -> Vec<Call> {
    vec![
        Call::Mkdir { info: info(volume_id), parent: 1, name: "a".to_string() },
        Call::Create { info: info(volume_id), parent: 1, name: "a".to_string() },
        Call::Unlink { info: info(volume_id), parent: 1, name: "a".to_string() },
        Call::Rmdir { info: info(volume_id), parent: 1, name: "a".to_string() },
        Call::Rename {
            info: info(volume_id),
            parent: 1,
            name: "a".to_string(),
            nparent: 1,
            nname: "b".to_string(),
        },
        Call::Write { info: info(volume_id), ino: 1, offset: 0, data: vec![1] },
    ]
}

#[test]
fn mkdir_then_read_dir() {
    let mut s = one_volume(false);
    let step = s.handle_cmd(Call::Mkdir { info: info(0), parent: 1, name: "a".to_string() });
    let (request, pending) = host(step);
    assert_eq!(request, HostRequest::CreateDir { path: "/srv/v/a".to_string() });
    let (request, pending) = host(s.complete(pending, HostReply::Done));
    assert_eq!(request, HostRequest::Metadata { path: "/srv/v/a".to_string() });
    match answer(s.complete(pending, HostReply::Metadata { meta: dir(42) })) {
        Response::GetEntry { data } => {
            assert_eq!(data.kind, FsFiletype::Directory);
            assert_eq!(data.path, "/a");
            assert_eq!(data.ino, 42);
        },
        other => panic!("{:?}", other),
    }
    let step = s.handle_cmd(Call::ReadDir { info: info(0), path: "/".to_string() });
    let (request, pending) = host(step);
    assert_eq!(request, HostRequest::ReadDir { path: "/srv/v".to_string() });
    let listing = HostReply::Listing { paths: vec!["/srv/v/a".to_string()] };
    assert_eq!(
        answer(s.complete(pending, listing)),
        Response::ReadDir { data: vec!["/a".to_string()] }
    );
}

#[test]
fn create_write_read() {
    let mut s = one_volume(false);
    let step = s.handle_cmd(Call::Create { info: info(0), parent: 1, name: "f".to_string() });
    let (request, pending) = host(step);
    assert_eq!(request, HostRequest::CreateFile { path: "/srv/v/f".to_string() });
    let (request, pending) = host(s.complete(pending, HostReply::Done));
    assert_eq!(request, HostRequest::Metadata { path: "/srv/v/f".to_string() });
    let ino = match answer(s.complete(pending, HostReply::Metadata { meta: file(77) })) {
        Response::GetEntry { data } => {
            assert_eq!(data.kind, FsFiletype::RegularFile);
            assert_eq!(data.path, "/f");
            data.ino
        },
        other => panic!("{:?}", other),
    };
    assert_eq!(ino, 77);
    let step = s.handle_cmd(Call::Write { info: info(0), ino, offset: 0, data: vec![0x68, 0x69] });
    let (request, pending) = host(step);
    assert_eq!(
        request,
        HostRequest::Write { path: "/srv/v/f".to_string(), offset: 0, data: vec![0x68, 0x69] }
    );
    assert_eq!(answer(s.complete(pending, HostReply::Done)), Response::Write { data: 0 });
    let step = s.handle_cmd(Call::Read { info: info(0), ino, offset: 0, size: 2 });
    let (request, pending) = host(step);
    assert_eq!(request, HostRequest::Read { path: "/srv/v/f".to_string(), offset: 0, size: 2 });
    assert_eq!(
        answer(s.complete(pending, HostReply::Data { bytes: vec![0x68, 0x69] })),
        Response::Read { data: vec![0x68, 0x69] }
    );
}

#[test]
fn read_only_volume_refuses_every_change() {
    let s = one_volume(true);
    for call in changes(0) {
        assert_eq!(answer(s.handle_cmd(call)), Response::IOError { error: 30 });
    }
    assert_eq!(EROFS, 30);
}

#[test]
fn read_only_volume_still_reads() {
    let s = one_volume(true);
    let (request, _) = host(s.handle_cmd(Call::GetEntry { info: info(0), path: "/a".to_string() }));
    assert_eq!(request, HostRequest::Metadata { path: "/srv/v/a".to_string() });
    let (request, _) = host(s.handle_cmd(Call::ReadDir { info: info(0), path: "/".to_string() }));
    assert_eq!(request, HostRequest::ReadDir { path: "/srv/v".to_string() });
}

#[test]
fn writable_volume_takes_every_change_to_the_host() {
    let s = server(vec![volume(Some("V"), "/srv/v", None, None)]);
    for call in changes(0) {
        assert!(matches!(s.handle_cmd(call), Step::Host { .. }));
    }
}

#[test]
fn check_read_only_gives_the_answer() {
    let s = server(vec![
        volume(Some("A"), "/srv/a", None, Some(true)),
        volume(Some("B"), "/srv/b", None, Some(false)),
        volume(Some("C"), "/srv/c", None, None),
    ]);
    assert_eq!(s.volume_count(), 3);
    assert_eq!(s.check_read_only(0), Err(Response::IOError { error: 30 }));
    assert_eq!(s.check_read_only(1), Ok(()));
    assert_eq!(s.check_read_only(2), Ok(()));
}

#[test]
fn get_entry_outside_the_volume_is_denied() {
    let s = one_volume(false);
    let step = s.handle_cmd(Call::GetEntry { info: info(0), path: "../../etc".to_string() });
    assert_eq!(answer(step), Response::IOError { error: 13 });
}

#[test]
fn read_dir_outside_the_volume_is_empty() {
    let s = one_volume(false);
    let step = s.handle_cmd(Call::ReadDir { info: info(0), path: "../..".to_string() });
    assert_eq!(answer(step), Response::ReadDir { data: vec![] });
}

#[test]
fn list_volumes_gives_the_discoverable_ones() {
    let s = server(vec![
        volume(Some("V1"), "/srv/1", Some(true), None),
        volume(Some("V2"), "/srv/2", Some(false), None),
        volume(Some("V3"), "/srv/3", None, None),
    ]);
    assert_eq!(
        answer(s.handle_cmd(Call::ListVolumes {})),
        Response::ListVolumes { data: vec!["V1".to_string()] }
    );
    assert_eq!(s.list_volumes(), vec!["V1".to_string()]);
}

#[test]
fn list_volumes_keeps_the_order_of_the_volumes() {
    let s = server(vec![
        volume(Some("b"), "/srv/1", Some(true), None),
        volume(Some("x"), "/srv/2", None, None),
        volume(Some("a"), "/srv/3", Some(true), None),
        volume(Some("b"), "/srv/4", Some(true), None),
    ]);
    assert_eq!(s.list_volumes(), vec!["b".to_string(), "a".to_string(), "b".to_string()]);
    assert_eq!(server(vec![]).list_volumes(), Vec::<String>::new());
}

#[test]
fn volume_lookup_gives_the_first_of_the_name() {
    let s = server(vec![
        volume(Some("A"), "/srv/1", None, None),
        volume(Some("B"), "/srv/2", None, None),
        volume(Some("B"), "/srv/3", None, None),
    ]);
    assert_eq!(
        answer(s.handle_cmd(Call::VolumeLookup { name: "B".to_string() })),
        Response::VolumeLookup { id: 1 }
    );
    assert_eq!(s.volume_lookup(&"A".to_string()), Some(0));
    assert_eq!(s.volume_lookup(&"C".to_string()), None);
}

#[test]
fn volume_lookup_of_an_unknown_name_is_an_error() {
    let s = one_volume(false);
    assert_eq!(
        answer(s.handle_cmd(Call::VolumeLookup { name: "W".to_string() })),
        Response::Error { error: "Volume not found".to_string() }
    );
}

#[test]
fn volume_is_named_after_its_root_where_it_has_no_name() {
    let s = server(vec![volume(None, "/srv/data/", Some(true), None)]);
    assert_eq!(s.list_volumes(), vec!["data".to_string()]);
    assert_eq!(s.volume_lookup(&"data".to_string()), Some(0));
    let v = Volume::new(&volume(None, "/", None, None), dir(2));
    assert_eq!(v.name, "");
    assert_eq!(v.root, "/");
}

#[test]
fn volume_keeps_its_configuration() {
    let conf = volume(Some("V"), "/srv/v", Some(true), Some(true));
    let v = Volume::new(&conf, dir(2));
    assert_eq!(v.name, "V");
    assert_eq!(v.root, "/srv/v");
    assert_eq!(v.config, conf);
    assert_eq!(v.api.get_path_from_inode(1), Ok("/".to_string()));
}

#[test]
fn server_info_gives_name_and_version() {
    let named = FileServer::new(
        ServerConfig { name: Some("box".to_string()), volumes: vec![] },
        vec![],
        "1.2.3".to_string(),
    );
    assert_eq!(
        answer(named.handle_cmd(Call::ServerInfo {})),
        Response::ServerInfo { name: "box".to_string(), version: "1.2.3".to_string() }
    );
    assert_eq!(
        server(vec![]).server_info(),
        Response::ServerInfo { name: "".to_string(), version: "0.1.0".to_string() }
    );
}

#[test]
fn unknown_volume_is_an_error() {
    let s = one_volume(false);
    let missing = Response::Error { error: "Volume not found".to_string() };
    let step = s.handle_cmd(Call::GetEntry { info: info(1), path: "/".to_string() });
    assert_eq!(answer(step), missing);
    let step = s.handle_cmd(Call::GetEntryFromInode { info: info(u64::MAX), ino: 1 });
    assert_eq!(answer(step), missing);
    for call in changes(5) {
        assert_eq!(answer(s.handle_cmd(call)), missing);
    }
}

#[test]
fn each_volume_has_its_own_root() {
    let s = server(vec![
        volume(Some("A"), "/srv/a", None, None),
        volume(Some("B"), "/srv/b", None, None),
    ]);
    let (request, pending) =
        host(s.handle_cmd(Call::GetEntry { info: info(1), path: "/x".to_string() }));
    assert_eq!(request, HostRequest::Metadata { path: "/srv/b/x".to_string() });
    assert_eq!(pending, Pending::Entry { volume: 1, path: "/x".to_string() });
}

#[test]
fn inode_calls_are_answered_from_the_directory() {
    let mut s = one_volume(false);
    match answer(s.handle_cmd(Call::GetEntryFromInode { info: info(0), ino: 1 })) {
        Response::GetEntry { data } => {
            assert_eq!(data.path, "/");
            assert_eq!(data.ino, 1);
        },
        other => panic!("{:?}", other),
    }
    assert_eq!(
        answer(s.handle_cmd(Call::GetPathFromInode { info: info(0), ino: 1 })),
        Response::GetPath { data: "/".to_string() }
    );
    assert_eq!(
        answer(s.handle_cmd(Call::GetPathFromInode { info: info(0), ino: 9 })),
        Response::IOError { error: 2 }
    );
    assert_eq!(
        answer(s.handle_cmd(Call::GetEntryFromInode { info: info(0), ino: 9 })),
        Response::IOError { error: 2 }
    );
    let (_, pending) = host(s.handle_cmd(Call::GetEntry { info: info(0), path: "/a".to_string() }));
    s.complete(pending, HostReply::Metadata { meta: file(9) });
    assert_eq!(
        answer(s.handle_cmd(Call::GetPathFromInode { info: info(0), ino: 9 })),
        Response::GetPath { data: "/a".to_string() }
    );
}

#[test]
fn get_entry_passes_the_host_error_on() {
    let mut s = one_volume(false);
    let (_, pending) = host(s.handle_cmd(Call::GetEntry { info: info(0), path: "/a".to_string() }));
    assert_eq!(
        answer(s.complete(pending, HostReply::Failed { code: 2 })),
        Response::IOError { error: 2 }
    );
    assert_eq!(
        answer(s.handle_cmd(Call::GetPathFromInode { info: info(0), ino: 9 })),
        Response::IOError { error: 2 }
    );
}

#[test]
fn rename_goes_on_where_the_destination_is_free() {
    let mut s = one_volume(false);
    let call = Call::Rename {
        info: info(0),
        parent: 1,
        name: "a".to_string(),
        nparent: 1,
        nname: "b".to_string(),
    };
    let (request, pending) = host(s.handle_cmd(call));
    assert_eq!(request, HostRequest::Metadata { path: "/srv/v/b".to_string() });
    let (request, pending) = host(s.complete(pending, HostReply::Failed { code: 2 }));
    assert_eq!(
        request,
        HostRequest::Rename { from: "/srv/v/a".to_string(), to: "/srv/v/b".to_string() }
    );
    assert_eq!(answer(s.complete(pending, HostReply::Done)), Response::Success {});
}

#[test]
fn rename_fails_where_the_destination_exists() {
    let mut s = one_volume(false);
    let call = Call::Rename {
        info: info(0),
        parent: 1,
        name: "a".to_string(),
        nparent: 1,
        nname: "b".to_string(),
    };
    let (_, pending) = host(s.handle_cmd(call));
    assert_eq!(
        answer(s.complete(pending, HostReply::Metadata { meta: file(5) })),
        Response::IOError { error: 17 }
    );
    assert_eq!(
        answer(s.handle_cmd(Call::GetPathFromInode { info: info(0), ino: 5 })),
        Response::GetPath { data: "/b".to_string() }
    );
}

#[test]
fn rename_that_the_host_refuses_is_denied() {
    let mut s = one_volume(false);
    let call = Call::Rename {
        info: info(0),
        parent: 1,
        name: "a".to_string(),
        nparent: 1,
        nname: "b".to_string(),
    };
    let (_, pending) = host(s.handle_cmd(call));
    let (_, pending) = host(s.complete(pending, HostReply::Failed { code: 2 }));
    assert_eq!(
        answer(s.complete(pending, HostReply::Failed { code: 2 })),
        Response::IOError { error: 13 }
    );
}

#[test]
fn rename_outside_the_volume_is_denied() {
    let s = one_volume(false);
    let call = Call::Rename {
        info: info(0),
        parent: 1,
        name: "a".to_string(),
        nparent: 1,
        nname: "../../b".to_string(),
    };
    assert_eq!(answer(s.handle_cmd(call)), Response::IOError { error: 13 });
}

#[test]
fn forged_continuation_cannot_leave_the_volume() {
    let mut s = one_volume(false);
    let pending = Pending::Probe {
        volume: 0,
        target: "/b".to_string(),
        rename: HostRequest::Rename { from: "/srv/v/a".to_string(), to: "/etc/b".to_string() },
    };
    assert_eq!(
        answer(s.complete(pending, HostReply::Failed { code: 2 })),
        Response::IOError { error: 13 }
    );
    let pending = Pending::Made {
        volume: 0,
        path: "/b".to_string(),
        look: HostRequest::Metadata { path: "/srv/v/../w".to_string() },
    };
    assert_eq!(answer(s.complete(pending, HostReply::Done)), Response::IOError { error: 13 });
    let pending = Pending::Listing { volume: 3 };
    assert_eq!(
        answer(s.complete(pending, HostReply::Listing { paths: vec![] })),
        Response::Error { error: "Volume not found".to_string() }
    );
}

#[test]
fn mkdir_that_the_host_refuses_is_denied() {
    let mut s = one_volume(false);
    let (_, pending) =
        host(s.handle_cmd(Call::Mkdir { info: info(0), parent: 1, name: "a".to_string() }));
    assert_eq!(
        answer(s.complete(pending, HostReply::Failed { code: 17 })),
        Response::IOError { error: 13 }
    );
}

#[test]
fn mkdir_below_an_unknown_parent_is_not_found() {
    let s = one_volume(false);
    let step = s.handle_cmd(Call::Mkdir { info: info(0), parent: 8, name: "a".to_string() });
    assert_eq!(answer(step), Response::IOError { error: 2 });
}

#[test]
fn unlink_and_rmdir_pass_the_host_error_on() {
    let mut s = one_volume(false);
    let (request, pending) =
        host(s.handle_cmd(Call::Unlink { info: info(0), parent: 1, name: "f".to_string() }));
    assert_eq!(request, HostRequest::RemoveFile { path: "/srv/v/f".to_string() });
    assert_eq!(
        answer(s.complete(pending, HostReply::Failed { code: 2 })),
        Response::IOError { error: 2 }
    );
    let (request, pending) =
        host(s.handle_cmd(Call::Rmdir { info: info(0), parent: 1, name: "d".to_string() }));
    assert_eq!(request, HostRequest::RemoveDir { path: "/srv/v/d".to_string() });
    assert_eq!(
        answer(s.complete(pending, HostReply::Failed { code: 39 })),
        Response::IOError { error: 39 }
    );
    let (_, pending) =
        host(s.handle_cmd(Call::Rmdir { info: info(0), parent: 1, name: "d".to_string() }));
    assert_eq!(answer(s.complete(pending, HostReply::Done)), Response::Success {});
}

#[test]
fn read_gives_exactly_the_size() {
    let mut s = one_volume(false);
    let (request, pending) = host(s.handle_cmd(Call::Read { info: info(0), ino: 1, offset: 4, size: 3 }));
    assert_eq!(request, HostRequest::Read { path: "/srv/v".to_string(), offset: 4, size: 3 });
    assert_eq!(pending, Pending::Chunk { size: 3 });
    assert_eq!(
        answer(s.complete(pending, HostReply::Data { bytes: vec![7] })),
        Response::Read { data: vec![7, 0, 0] }
    );
    assert_eq!(
        answer(s.complete(Pending::Chunk { size: 1 }, HostReply::Failed { code: 5 })),
        Response::IOError { error: 5 }
    );
}

#[test]
fn write_passes_the_host_error_on() {
    let mut s = one_volume(false);
    assert_eq!(
        answer(s.complete(Pending::Written, HostReply::Failed { code: 28 })),
        Response::IOError { error: 28 }
    );
    let step = s.handle_cmd(Call::Write { info: info(0), ino: 4, offset: 0, data: vec![] });
    assert_eq!(answer(step), Response::IOError { error: 2 });
}

#[test]
fn read_dir_that_fails_on_the_host_is_empty() {
    let mut s = one_volume(false);
    let (_, pending) = host(s.handle_cmd(Call::ReadDir { info: info(0), path: "/x".to_string() }));
    assert_eq!(
        answer(s.complete(pending, HostReply::Failed { code: 20 })),
        Response::ReadDir { data: vec![] }
    );
}

#[test]
fn answer_that_does_not_fit_is_invalid() {
    let mut s = one_volume(false);
    assert_eq!(answer(s.complete(Pending::Written, HostReply::Data { bytes: vec![] })), Response::Invalid);
    assert_eq!(answer(s.complete(Pending::Removed, HostReply::Metadata { meta: dir(1) })), Response::Invalid);
    assert_eq!(answer(s.complete(Pending::Renamed, HostReply::Listing { paths: vec![] })), Response::Invalid);
    assert_eq!(answer(s.complete(Pending::Chunk { size: 1 }, HostReply::Done)), Response::Invalid);
    assert_eq!(answer(s.complete(Pending::Listing { volume: 0 }, HostReply::Done)), Response::Invalid);
    let pending = Pending::Entry { volume: 0, path: "/a".to_string() };
    assert_eq!(answer(s.complete(pending, HostReply::Done)), Response::Invalid);
}
