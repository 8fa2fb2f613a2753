//! A network filesystem. A server exports directory trees of its host as
//! volumes; a client mounts a volume and sends each operation to the server.
//!
//! The library holds what both sides decide and compute; sockets, files
//! and the mount live in the program around it.
//!
//! * `networking`: framing of a message into datagrams and its reassembly.
//! * `compression`: the compressed envelope of a response.
//! * `calls`, `responses`, `filesystem_entry`, `config`: what travels and
//!   what is configured.
//! * `path`: joining, splitting and confining paths.
//! * `api`: the engine of a volume, with its jail and its inode directory.
//! * `volume`, `server`: the volumes of a server and its dispatcher.
//! * `caching`, `client`: the session of a client and its metadata cache.
//! * `fuse_fs`: what the kernel bridge is told.
//! * `address`: the address of a mount on the command line.

pub mod address;
pub mod api;
pub mod caching;
pub mod calls;
pub mod client;
pub mod compression;
pub mod config;
pub mod filesystem_entry;
pub mod fuse_fs;
pub mod networking;
pub mod path;
pub mod responses;
pub mod server;
pub mod volume;
