//! The typed shape of a project or package manifest.
//!
//! Manifest files are parsed outside the library; the engine consumes this
//! already-typed structure built from plain values.

use vstd::prelude::*;

verus! {

/// The package section of a dependency's manifest: which of its files to
/// install where, and which modules it requires.
pub struct Package {
    pub name: String,
    pub version: String,
    pub installs: Vec<(String, String)>,
    pub requires: Vec<String>,
}

/// The project section of a consuming project's manifest.
pub struct Project {
    pub name: String,
    pub title: String,
    pub version: String,
    pub authors: Vec<String>,
    pub icon: String,
    pub compile_ruby: bool,
}

/// The configured game-runtime toolchain version and edition.
pub struct DragonRuby {
    pub version: String,
    pub edition: String,
}

/// Publishing coordinates for the itch.io storefront.
pub struct Itch {
    pub url: String,
    pub username: String,
}

/// A whole manifest: sections plus the declared dependencies in manifest
/// order, each already classified into a typed source description.
pub struct Config {
    pub package: Option<Package>,
    pub project: Option<Project>,
    pub dragonruby: DragonRuby,
    pub itch: Option<Itch>,
    pub dependencies: Vec<(String, DependencyOptions)>,
}

/// One classified manifest entry: exactly one fetch mechanism is active.
pub enum DependencyOptions {
    Dir { dir: String },
    File { file: String },
    Git { branch: Option<String>, repo: String, rev: Option<String>, tag: Option<String> },
    Registry { version: String },
    Url { url: String },
}

pub fn clone_opt_string(o: &Option<String>) -> (r: Option<String>)
    ensures
        r == *o,
{
    match o {
        Some(s) => Some(s.clone()),
        None => None,
    }
}

impl Clone for DependencyOptions {
    fn clone(&self) -> (res: Self)
        ensures
            res == *self,
    {
        match self {
            DependencyOptions::Dir { dir } => DependencyOptions::Dir { dir: dir.clone() },
            DependencyOptions::File { file } => DependencyOptions::File { file: file.clone() },
            DependencyOptions::Git { branch, repo, rev, tag } => DependencyOptions::Git {
                branch: clone_opt_string(branch),
                repo: repo.clone(),
                rev: clone_opt_string(rev),
                tag: clone_opt_string(tag),
            },
            DependencyOptions::Registry { version } => DependencyOptions::Registry {
                version: version.clone(),
            },
            DependencyOptions::Url { url } => DependencyOptions::Url { url: url.clone() },
        }
    }
}

} // verus!
