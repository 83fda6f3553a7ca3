//! The capability through which the engine touches the outside world.
//!
//! Every filesystem, network, version-control and interactive operation the
//! engine sequences is a method of [`Host`]. The engine promises nothing
//! about what a host does; its own contracts state what it decides and
//! records for every possible host answer. A process wires in a real host;
//! a test wires in a scripted one.

use vstd::prelude::*;

verus! {

/// What a path resolves to on the host, probed after shell expansion.
#[derive(Clone, Copy)]
pub struct PathProbe {
    pub is_dir: bool,
    pub is_file: bool,
}

/// One entry of a recursive directory walk: the path relative to the walked
/// root, split into components, and whether it is a regular file.
#[derive(Debug)]
pub struct WalkEntry {
    pub components: Vec<String>,
    pub is_file: bool,
}

/// A registry service's answer for one package version: where the package's
/// repository lives and which tag holds the requested version.
pub struct RegistryPackage {
    pub url: String,
    pub tag: String,
}

/// What a failed host operation reports.
#[derive(Debug)]
pub struct HostError {
    pub message: String,
}

/// The injected capability: blocking, effectful operations on the machine
/// the engine runs on. No contract constrains a host; the engine's own
/// contracts hold for every answer a host can give.
pub trait Host {
    /// Probes whether a path names an existing directory or regular file.
    fn probe_path(&mut self, path: &String) -> PathProbe;

    /// True when anything exists at the path.
    fn path_exists(&mut self, path: &String) -> bool;

    /// Removes a file or directory tree if present.
    fn remove_path(&mut self, path: &String) -> Result<(), HostError>;

    /// Downloads a URL into a local file, replacing it if present.
    fn download(&mut self, url: &String, destination: &String) -> Result<(), HostError>;

    /// Extracts a zip archive into a directory.
    fn extract_archive(&mut self, archive: &String, destination: &String) -> Result<
        (),
        HostError,
    >;

    /// Clones a git repository, constrained to a branch when one is given.
    fn git_clone(&mut self, repo: &String, branch: &Option<String>, destination: &String) -> Result<
        (),
        HostError,
    >;

    /// Hard-resets a clone to the object a reference resolves to.
    fn git_reset_hard(&mut self, destination: &String, reference: &String) -> Result<
        (),
        HostError,
    >;

    /// Asks the registry service which repository and tag serve a package
    /// version.
    fn registry_lookup(&mut self, name: &String, version: &String) -> Result<
        RegistryPackage,
        HostError,
    >;

    /// Walks a directory tree, returning every entry under the root.
    fn walk(&mut self, root: &String) -> Result<Vec<WalkEntry>, HostError>;

    /// Reads a text file as lines; `None` when the file does not exist.
    fn read_lines(&mut self, path: &String) -> Option<Vec<String>>;

    /// Copies one file, creating intermediate destination directories.
    fn copy_file(&mut self, from: &String, to: &String) -> Result<(), HostError>;

    /// Loads and parses a manifest file into its typed shape.
    fn load_config(&mut self, path: &String) -> Result<crate::config::Config, HostError>;

    /// The content digest of a file.
    fn digest(&mut self, path: &String) -> Result<u64, HostError>;

    /// Asks the user whether a changed file may be overwritten.
    fn confirm_overwrite(&mut self, path: &String) -> bool;
}

} // verus!
