use crate::api::{initial_directory, FilesystemAPI, HostMetadata};
use crate::config::VolumeConfig;
use crate::filesystem_entry::EntryView;
use crate::path::{base_name, file_name};
use vstd::prelude::*;

verus! {

/// A volume of a running server.
pub struct Volume {
    /// The name of the volume
    pub name: String,
    /// The root path of the volume on the host
    pub root: String,
    /// The configuration that the volume was made from
    pub config: VolumeConfig,
    /// The engine of the volume
    pub api: FilesystemAPI,
}

/// What the dispatcher reads of a volume.
pub struct VolumeView {
    pub name: Seq<char>,
    pub root: Seq<char>,
    pub discoverable: Option<bool>,
    pub readonly: Option<bool>,
    pub directory: Map<u64, EntryView>,
}

impl View for Volume {
    type V = VolumeView;

    open spec fn view(&self) -> VolumeView {
        VolumeView {
            name: self.name@,
            root: self.api.spec_root(),
            discoverable: self.config.discoverable,
            readonly: self.config.readonly,
            directory: self.api.directory(),
        }
    }
}

/// The name of a volume: the configured one, else the base name of its
/// root, which is empty where the root has none.
pub open spec fn volume_name(name: Option<String>, root: Seq<char>) -> Seq<char> {
    match name {
        Some(n) => n@,
        None => match base_name(root) {
            Some(b) => b,
            None => Seq::empty(),
        },
    }
}

/// The volume that is made from a configuration when the host reports
/// `meta` for its root.
pub open spec fn volume_of(conf: VolumeConfig, meta: HostMetadata) -> VolumeView {
    VolumeView {
        name: volume_name(conf.name, conf.root@),
        root: conf.root@,
        discoverable: conf.discoverable,
        readonly: conf.readonly,
        directory: initial_directory(meta),
    }
}

impl Volume {
    /// The volume that `conf` describes; the host reports `meta` for its root.
    pub fn new(conf: &VolumeConfig, meta: HostMetadata) -> (v: Volume)
        ensures
            v@ == volume_of(*conf, meta),
            v.root@ == conf.root@,
            v.config == *conf,
    {
        let root = conf.root.clone();
        let name = match &conf.name {
            Some(n) => n.clone(),
            None => match file_name(root.as_str()) {
                Some(b) => b,
                None => String::new(),
            },
        };
        Volume { name, root: root.clone(), config: conf.clone(), api: FilesystemAPI::new(root, meta) }
    }
}

} // verus!
