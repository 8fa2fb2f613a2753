use vstd::prelude::*;

verus! {

/// Configuration of the whole server.
#[derive(Debug, PartialEq, Eq)]
pub struct ServerConfig {
    /// Name of the server
    pub name: Option<String>,
    /// The volumes, in the order of their ids
    pub volumes: Vec<VolumeConfig>,
}

/// Configuration of one volume.
#[derive(Debug, PartialEq, Eq)]
pub struct VolumeConfig {
    /// Name of the volume
    pub name: Option<String>,
    /// Description of the volume
    pub description: Option<String>,
    /// Root path of the volume on the host
    pub root: String,
    /// Whether the volume is listed to clients
    pub discoverable: Option<bool>,
    /// Whether the volume is open to everyone
    pub public: Option<bool>,
    /// Whether removed files go to a trash
    pub trash_enabled: Option<bool>,
    /// Whether the volume refuses every change
    pub readonly: Option<bool>,
}

/// A copy of an optional text.
pub fn clone_text(t: &Option<String>) -> (c: Option<String>)
    ensures
        c == *t,
{
    match t {
        Some(s) => Some(s.clone()),
        None => None,
    }
}

impl Clone for VolumeConfig {
    fn clone(&self) -> (c: Self)
        ensures
            c == *self,
    {
        VolumeConfig {
            name: clone_text(&self.name),
            description: clone_text(&self.description),
            root: self.root.clone(),
            discoverable: self.discoverable,
            public: self.public,
            trash_enabled: self.trash_enabled,
            readonly: self.readonly,
        }
    }
}

impl Clone for ServerConfig {
    fn clone(&self) -> (c: Self)
        ensures
            c.name == self.name,
            c.volumes@ == self.volumes@,
    {
        let mut volumes: Vec<VolumeConfig> = Vec::new();
        let mut i: usize = 0;
        while i < self.volumes.len()
            invariant
                i <= self.volumes.len(),
                volumes@ == self.volumes@.take(i as int),
            decreases self.volumes.len() - i,
        {
            volumes.push(self.volumes[i].clone());
            i = i + 1;
            assert(self.volumes@.take(i as int) == self.volumes@.take(i as int - 1).push(
                self.volumes@[i as int - 1],
            ));
        }
        assert(self.volumes@.take(self.volumes.len() as int) == self.volumes@);
        ServerConfig { name: clone_text(&self.name), volumes }
    }
}

} // verus!
