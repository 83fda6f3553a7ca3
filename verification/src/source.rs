//! The five source variants: how each fetch mechanism materializes a
//! dependency into its slot.
//!
//! Every variant bottoms out in the same directory materialization and the
//! same manifest propagation: a registry lookup yields a git fetch, a git
//! fetch and an archive both end in a directory copy, a URL download ends
//! in an archive extraction. The host performs the effects; this module
//! sequences them and owns every decision between them.

use vstd::prelude::*;
use vstd::string::*;
use crate::config::DependencyOptions;
use crate::config::clone_opt_string;
use crate::dependency::Dependency;
use crate::errors::InstallError;
use crate::host::Host;
use crate::host::WalkEntry;
use crate::materializer::CopyReport;
use crate::materializer::copy_directory;
use crate::materializer::copy_report_exact;
use crate::paths::spec_join;
use crate::paths::spec_join_components;
use crate::paths::join_components;
use crate::paths::path_join;
use crate::paths::path_join_rel;
use crate::resolver::Propagated;
use crate::resolver::Resolver;
use crate::resolver::installs_view;
use crate::resolver::spec_install_directives;
use crate::resolver::spec_rewritten_requires;
use crate::resolver::strings_view;
use crate::paths::spec_parent;

verus! {

/// A dependency fetched by copying a local directory.
pub struct DirSource {
    pub path: String,
}

/// A dependency fetched by extracting a local archive.
pub struct FileSource {
    pub path: String,
}

/// A dependency fetched by cloning a git repository, constrained to at
/// most one of a branch, a revision, or a tag.
pub struct GitSource {
    pub repo: String,
    pub branch: Option<String>,
    pub rev: Option<String>,
    pub tag: Option<String>,
}

/// A dependency fetched by downloading a remote archive.
pub struct UrlSource {
    pub url: String,
}

/// A dependency fetched by asking the registry service where the package's
/// repository lives.
pub struct RegistrySource {
    pub version: String,
}

/// The executable counterpart of classified dependency options.
pub enum Source {
    Dir(DirSource),
    File(FileSource),
    Git(GitSource),
    Url(UrlSource),
    Registry(RegistrySource),
}

impl Clone for Source {
    fn clone(&self) -> (res: Self)
        ensures
            res == *self,
    {
        match self {
            Source::Dir(s) => Source::Dir(DirSource { path: s.path.clone() }),
            Source::File(s) => Source::File(FileSource { path: s.path.clone() }),
            Source::Git(s) => Source::Git(
                GitSource {
                    repo: s.repo.clone(),
                    branch: clone_opt_string(&s.branch),
                    rev: clone_opt_string(&s.rev),
                    tag: clone_opt_string(&s.tag),
                },
            ),
            Source::Url(s) => Source::Url(UrlSource { url: s.url.clone() }),
            Source::Registry(s) => Source::Registry(RegistrySource { version: s.version.clone() }),
        }
    }
}

/// The source that materializes each dependency-options variant.
pub open spec fn spec_source_of(o: DependencyOptions) -> Source {
    match o {
        DependencyOptions::Dir { dir } => Source::Dir(DirSource { path: dir }),
        DependencyOptions::File { file } => Source::File(FileSource { path: file }),
        DependencyOptions::Git { branch, repo, rev, tag } => Source::Git(
            GitSource { repo, branch, rev, tag },
        ),
        DependencyOptions::Registry { version } => Source::Registry(RegistrySource { version }),
        DependencyOptions::Url { url } => Source::Url(UrlSource { url }),
    }
}

/// Builds the executable source for classified dependency options: every
/// variant has one.
pub fn from_dependency_options(options: &DependencyOptions) -> (r: Option<Source>)
    ensures
        r == Some(spec_source_of(*options)),
{
    Some(
        match options {
            DependencyOptions::Dir { dir } => Source::Dir(DirSource { path: dir.clone() }),
            DependencyOptions::File { file } => Source::File(FileSource { path: file.clone() }),
            DependencyOptions::Git { branch, repo, rev, tag } => Source::Git(
                GitSource {
                    repo: repo.clone(),
                    branch: clone_opt_string(branch),
                    rev: clone_opt_string(rev),
                    tag: clone_opt_string(tag),
                },
            ),
            DependencyOptions::Registry { version } => Source::Registry(
                RegistrySource { version: version.clone() },
            ),
            DependencyOptions::Url { url } => Source::Url(UrlSource { url: url.clone() }),
        },
    )
}

/// The single reference a git materialization resets to after cloning: the
/// revision when one is given, else the tag, else none. When both are set
/// the revision wins and the tag is never applied.
pub fn checkout_target(rev: &Option<String>, tag: &Option<String>) -> (r: Option<String>)
    ensures
        rev is Some ==> r == *rev,
        rev is None ==> r == *tag,
{
    match rev {
        Some(reference) => Some(reference.clone()),
        None => clone_opt_string(tag),
    }
}

/// Whether a walked entry is a dependency manifest file.
pub open spec fn spec_is_manifest_entry(e: WalkEntry) -> bool {
    e.is_file && e.components@.len() > 0 && e.components@.last()@ == "Smaug.toml"@
}

/// The directory that holds a manifest entry: the walk root itself for a
/// top-level manifest, else the root joined with the entry's directory.
pub open spec fn spec_manifest_dir(root: Seq<char>, e: WalkEntry) -> Seq<char> {
    if e.components@.len() == 1 {
        root
    } else {
        spec_join(
            root,
            spec_join_components(e.components@.drop_last().map_values(|c: String| c@)),
        )
    }
}

/// Finds the first walked directory that holds a recognizable manifest,
/// so an archive wrapped in a top-level directory still resolves.
pub fn find_package_dir(entries: &Vec<WalkEntry>, root: &String) -> (r: Option<String>)
    ensures
        match r {
            Some(dir) => exists|i: int|
                0 <= i < entries@.len() && spec_is_manifest_entry(#[trigger] entries@[i]) && (
                forall|k: int| 0 <= k < i ==> !spec_is_manifest_entry(#[trigger] entries@[k]))
                    && dir@ == spec_manifest_dir(root@, entries@[i]),
            None => forall|i: int|
                0 <= i < entries@.len() ==> !spec_is_manifest_entry(#[trigger] entries@[i]),
        },
{
    let manifest_name = String::from_str("Smaug.toml");
    let mut i: usize = 0;
    while i < entries.len()
        invariant
            i <= entries@.len(),
            manifest_name@ == "Smaug.toml"@,
            forall|k: int| 0 <= k < i ==> !spec_is_manifest_entry(#[trigger] entries@[k]),
        decreases entries@.len() - i,
    {
        let e = &entries[i];
        let n = e.components.len();
        if e.is_file && n > 0 && e.components[n - 1].eq(&manifest_name) {
            proof {
                assert(entries@[i as int].components@.last() == entries@[i as int].components@[n
                    - 1]);
            }
            if n == 1 {
                return Some(root.clone());
            }
            let mut parent: Vec<String> = Vec::new();
            let mut k: usize = 0;
            while k < n - 1
                invariant
                    k <= n - 1,
                    n == e.components@.len(),
                    parent@.len() == k,
                    forall|j: int| 0 <= j < k ==> (#[trigger] parent@[j])@ == e.components@[j]@,
                decreases n - 1 - k,
            {
                parent.push(e.components[k].clone());
                k = k + 1;
            }
            let joined = join_components(&parent);
            proof {
                assert(parent@.map_values(|c: String| c@) =~= entries@[
                    i as int
                ].components@.drop_last().map_values(|c: String| c@));
            }
            return Some(path_join(root.as_str(), joined.as_str()));
        }
        i = i + 1;
    }
    None
}

impl DirSource {
    /// Materializes a directory dependency: the declared path, resolved
    /// against the consuming project directory, is copied into the slot
    /// `destination/<name>` with the ignore-aware materializer. Returns
    /// the materializer's report of what it walked and copied.
    pub fn install<H: Host>(
        &self,
        host: &mut H,
        dependency: &Dependency,
        destination: &String,
    ) -> (r: Result<CopyReport, InstallError>)
        ensures
            r matches Ok(report) ==> copy_report_exact(report),
            r matches Err(e) ==> e matches InstallError::Fetch { name, message } && name@
                == dependency.name@,
    {
        let project_dir = crate::paths::parent_of(destination.as_str());
        let source = path_join(project_dir.as_str(), self.path.as_str());
        let slot = path_join(destination.as_str(), dependency.name.as_str());
        match copy_directory(host, &source, &slot) {
            Ok(report) => Ok(report),
            Err(e) => Err(
                InstallError::Fetch { name: dependency.name.clone(), message: e.message },
            ),
        }
    }
}

impl FileSource {
    /// Materializes an archive dependency: clears the stale cache slot,
    /// extracts the archive there, locates the first directory holding a
    /// recognizable manifest, and finishes as a directory copy from it.
    pub fn install<H: Host>(
        &self,
        host: &mut H,
        dependency: &Dependency,
        destination: &String,
        cache_root: &String,
    ) -> (r: Result<CopyReport, InstallError>)
        ensures
            r matches Ok(report) ==> copy_report_exact(report),
            r matches Err(e) ==> e matches InstallError::Fetch { name, message } && name@
                == dependency.name@,
    {
        let slot = path_join(cache_root.as_str(), dependency.name.as_str());
        if let Err(e) = host.remove_path(&slot) {
            return Err(InstallError::Fetch { name: dependency.name.clone(), message: e.message });
        }
        if let Err(e) = host.extract_archive(&self.path, &slot) {
            return Err(InstallError::Fetch { name: dependency.name.clone(), message: e.message });
        }
        let entries = match host.walk(&slot) {
            Ok(entries) => entries,
            Err(e) => {
                return Err(
                    InstallError::Fetch { name: dependency.name.clone(), message: e.message },
                );
            },
        };
        match find_package_dir(&entries, &slot) {
            None => Err(
                InstallError::Fetch {
                    name: dependency.name.clone(),
                    message: String::from_str("no manifest file found in the extracted archive"),
                },
            ),
            Some(dir) => DirSource { path: dir }.install(host, dependency, destination),
        }
    }
}

impl UrlSource {
    /// Materializes a remote archive: clears the stale download, downloads
    /// the URL into the cache, and finishes as an archive extraction.
    pub fn install<H: Host>(
        &self,
        host: &mut H,
        dependency: &Dependency,
        destination: &String,
        cache_root: &String,
    ) -> (r: Result<CopyReport, InstallError>)
        ensures
            r matches Ok(report) ==> copy_report_exact(report),
            r matches Err(e) ==> e matches InstallError::Fetch { name, message } && name@
                == dependency.name@,
    {
        let mut file_name = dependency.name.clone();
        file_name.append(".zip");
        let cached = path_join(cache_root.as_str(), file_name.as_str());
        if let Err(e) = host.remove_path(&cached) {
            return Err(InstallError::Fetch { name: dependency.name.clone(), message: e.message });
        }
        if let Err(e) = host.download(&self.url, &cached) {
            return Err(InstallError::Fetch { name: dependency.name.clone(), message: e.message });
        }
        FileSource { path: cached }.install(host, dependency, destination, cache_root)
    }
}

impl GitSource {
    /// Materializes a git dependency: clears the stale cache slot, clones
    /// the repository (constrained to the branch when one is given),
    /// hard-resets to the revision or else the tag when one is given,
    /// deletes the version-control metadata from the clone, and finishes
    /// as a directory copy from the cache slot.
    pub fn install<H: Host>(
        &self,
        host: &mut H,
        dependency: &Dependency,
        destination: &String,
        cache_root: &String,
    ) -> (r: Result<CopyReport, InstallError>)
        ensures
            r matches Ok(report) ==> copy_report_exact(report),
            r matches Err(e) ==> e matches InstallError::Fetch { name, message } && name@
                == dependency.name@,
    {
        let slot = path_join(cache_root.as_str(), dependency.name.as_str());
        if let Err(e) = host.remove_path(&slot) {
            return Err(InstallError::Fetch { name: dependency.name.clone(), message: e.message });
        }
        if let Err(e) = host.git_clone(&self.repo, &self.branch, &slot) {
            return Err(InstallError::Fetch { name: dependency.name.clone(), message: e.message });
        }
        if let Some(reference) = checkout_target(&self.rev, &self.tag) {
            if let Err(e) = host.git_reset_hard(&slot, &reference) {
                return Err(
                    InstallError::Fetch { name: dependency.name.clone(), message: e.message },
                );
            }
        }
        let metadata = path_join(slot.as_str(), ".git");
        if let Err(e) = host.remove_path(&metadata) {
            return Err(InstallError::Fetch { name: dependency.name.clone(), message: e.message });
        }
        DirSource { path: slot }.install(host, dependency, destination)
    }
}

impl RegistrySource {
    /// Materializes a registry dependency: asks the registry service for
    /// the package's repository and tag, then finishes as a git fetch of
    /// that repository at that tag.
    pub fn install<H: Host>(
        &self,
        host: &mut H,
        dependency: &Dependency,
        destination: &String,
        cache_root: &String,
    ) -> (r: Result<CopyReport, InstallError>)
        ensures
            r matches Ok(report) ==> copy_report_exact(report),
            r matches Err(e) ==> e matches InstallError::Fetch { name, message } && name@
                == dependency.name@,
    {
        match host.registry_lookup(&dependency.name, &self.version) {
            Err(e) => Err(
                InstallError::Fetch { name: dependency.name.clone(), message: e.message },
            ),
            Ok(package) => {
                let git = GitSource {
                    repo: package.url,
                    branch: None,
                    rev: None,
                    tag: Some(package.tag),
                };
                git.install(host, dependency, destination, cache_root)
            },
        }
    }
}

impl Source {
    /// Materializes the dependency into `destination/<name>` through this
    /// source's fetch mechanism.
    pub fn install<H: Host>(
        &self,
        host: &mut H,
        dependency: &Dependency,
        destination: &String,
        cache_root: &String,
    ) -> (r: Result<CopyReport, InstallError>)
        ensures
            r matches Ok(report) ==> copy_report_exact(report),
            r matches Err(e) ==> e matches InstallError::Fetch { name, message } && name@
                == dependency.name@,
    {
        match self {
            Source::Dir(s) => s.install(host, dependency, destination),
            Source::File(s) => s.install(host, dependency, destination, cache_root),
            Source::Git(s) => s.install(host, dependency, destination, cache_root),
            Source::Url(s) => s.install(host, dependency, destination, cache_root),
            Source::Registry(s) => s.install(host, dependency, destination, cache_root),
        }
    }

    /// Whether the dependency is already present: a presence check on the
    /// slot `destination/<name>`, shared by every variant. It does not
    /// inspect content freshness.
    pub fn installed<H: Host>(
        &self,
        host: &mut H,
        dependency: &Dependency,
        destination: &String,
    ) -> bool {
        let slot = path_join(destination.as_str(), dependency.name.as_str());
        host.path_exists(&slot)
    }

    /// The shared post-fetch protocol: loads the materialized dependency's
    /// own manifest, checks which declared requires the dependency bundles
    /// itself, and appends the resulting install directives and require
    /// paths to the resolver. Returns what it propagated; the resolver's
    /// accumulated state grew by exactly the directives and rewritten
    /// requires of the returned data. Fails, leaving the resolver
    /// untouched, when the manifest cannot be loaded or declares no
    /// package section.
    pub fn update_resolver<H: Host>(
        &self,
        host: &mut H,
        resolver: &mut Resolver,
        dependency: &Dependency,
        destination: &String,
    ) -> (r: Result<Propagated, InstallError>)
        ensures
            final(resolver).requirements == old(resolver).requirements,
            final(resolver).source_map == old(resolver).source_map,
            r matches Err(e) ==> *final(resolver) == *old(resolver) && (e
                matches InstallError::Manifest { name } && name@ == dependency.name@),
            r matches Ok(p) ==> ({
                &&& p.bundled@.len() == p.requires@.len()
                &&& installs_view(final(resolver).installs@) == installs_view(
                    old(resolver).installs@,
                ) + spec_install_directives(
                    p.installs@,
                    spec_join(destination@, dependency.name@),
                    spec_parent(destination@),
                )
                &&& strings_view(final(resolver).requires@) == strings_view(
                    old(resolver).requires@,
                ) + spec_rewritten_requires(p.requires@, p.bundled@, dependency.name@)
            }),
    {
        let dep_root = path_join(destination.as_str(), dependency.name.as_str());
        let config_path = path_join(dep_root.as_str(), "Smaug.toml");
        let config = match host.load_config(&config_path) {
            Ok(config) => config,
            Err(_) => {
                return Err(InstallError::Manifest { name: dependency.name.clone() });
            },
        };
        let package = match config.package {
            Some(package) => package,
            None => {
                return Err(InstallError::Manifest { name: dependency.name.clone() });
            },
        };
        let mut bundled: Vec<bool> = Vec::new();
        let mut i: usize = 0;
        while i < package.requires.len()
            invariant
                i <= package.requires@.len(),
                bundled@.len() == i,
                resolver == old(resolver),
            decreases package.requires@.len() - i,
        {
            let package_file = path_join_rel(dep_root.as_str(), package.requires[i].as_str());
            bundled.push(host.path_exists(&package_file));
            i = i + 1;
        }
        resolver.propagate(&dependency.name, &package, &bundled, destination);
        Ok(Propagated { installs: package.installs, requires: package.requires, bundled })
    }
}

} // verus!
