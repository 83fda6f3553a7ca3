//! Classification of a loose manifest entry into a typed source.
//!
//! A dependency may be declared as a bare string or as a table of named
//! fields. A bare string is disambiguated by trying, in order: version
//! requirement, `.git` extension, existing directory, existing file,
//! well-formed URL. A table is disambiguated by which keys it carries:
//! `repo`, then `dir`, `file`, `version`, `url`.

use vstd::prelude::*;
use crate::config::DependencyOptions;
use crate::config::clone_opt_string;
use crate::errors::ClassifyError;
use crate::host::Host;
use crate::host::PathProbe;
use crate::paths::spec_has_git_extension;
use crate::paths::has_git_extension;

verus! {

/// Whether a string parses as a semantic-version requirement; a function of
/// the characters alone.
pub uninterp spec fn parses_as_version_req(s: Seq<char>) -> bool;

/// Relies on semver::VersionReq::parse: whether a string is a well-formed
/// version requirement depends on the characters alone.
#[verifier::external_body]
pub(crate) fn is_version_req(s: &String) -> (r: bool)
    ensures
        r == parses_as_version_req(s@),
{
    semver::VersionReq::parse(s.as_str()).is_ok()
}

/// Whether a string parses as an absolute URL; a function of the characters
/// alone.
pub uninterp spec fn parses_as_url(s: Seq<char>) -> bool;

/// Relies on url::Url::parse: whether a string is a well-formed absolute
/// URL depends on the characters alone.
#[verifier::external_body]
pub(crate) fn is_url(s: &String) -> (r: bool)
    ensures
        r == parses_as_url(s@),
{
    url::Url::parse(s.as_str()).is_ok()
}

/// Relies on shellexpand::full: expands `~` and `$VAR` forms. The result
/// depends on the process environment, so little is promised of it: only
/// that a string with no `$` anywhere and no leading `~` — one with
/// nothing to expand — comes back unchanged, which the expansion's source
/// shows plainly. The unexpanded string also stands when expansion fails.
#[verifier::external_body]
pub(crate) fn expand_path(s: &String) -> (r: String)
    ensures
        ((s@.len() == 0 || s@[0] != '~') && (forall|i: int|
            0 <= i < s@.len() ==> s@[i] != '$')) ==> r@ == s@,
{
    match shellexpand::full(s.as_str()) {
        Ok(expanded) => expanded.into_owned(),
        Err(_) => s.clone(),
    }
}

/// A dependency declared as a table of named fields.
pub struct TableEntry {
    pub repo: Option<String>,
    pub branch: Option<String>,
    pub rev: Option<String>,
    pub tag: Option<String>,
    pub dir: Option<String>,
    pub file: Option<String>,
    pub version: Option<String>,
    pub url: Option<String>,
}

/// A dependency as it stands in a manifest, before classification.
pub enum ManifestEntry {
    Text(String),
    Table(TableEntry),
}

/// Which of the six classification outcomes the facts select.
pub enum SourceKind {
    Registry,
    Git,
    Dir,
    File,
    Url,
    Unrecognized,
}

/// The classification of a bare string, as a function of the five facts it
/// is disambiguated by, tried in priority order.
pub open spec fn spec_source_kind(
    version_req: bool,
    git_ext: bool,
    is_dir: bool,
    is_file: bool,
    url_ok: bool,
) -> SourceKind {
    if version_req {
        SourceKind::Registry
    } else if git_ext {
        SourceKind::Git
    } else if is_dir {
        SourceKind::Dir
    } else if is_file {
        SourceKind::File
    } else if url_ok {
        SourceKind::Url
    } else {
        SourceKind::Unrecognized
    }
}

/// The outcome selected for a bare string `value` whose expansion is
/// `expanded` and whose expansion probes as `probe`.
pub open spec fn spec_text_kind(value: Seq<char>, expanded: Seq<char>, probe: PathProbe) -> SourceKind {
    spec_source_kind(
        parses_as_version_req(value),
        spec_has_git_extension(expanded),
        probe.is_dir,
        probe.is_file,
        parses_as_url(value),
    )
}

/// What classifying the bare string `value` must return: the variant the
/// facts select, carrying the declared or expanded text.
pub open spec fn classify_text_post(
    r: Result<DependencyOptions, ClassifyError>,
    value: Seq<char>,
    expanded: Seq<char>,
    probe: PathProbe,
) -> bool {
    match spec_text_kind(value, expanded, probe) {
        SourceKind::Registry => r matches Ok(DependencyOptions::Registry { version })
            && version@ == value,
        SourceKind::Git => r matches Ok(DependencyOptions::Git { branch, repo, rev, tag })
            && repo@ == value && branch is None && rev is None && tag is None,
        SourceKind::Dir => r matches Ok(DependencyOptions::Dir { dir }) && dir@ == expanded,
        SourceKind::File => r matches Ok(DependencyOptions::File { file }) && file@ == expanded,
        SourceKind::Url => r matches Ok(DependencyOptions::Url { url }) && url@ == value,
        SourceKind::Unrecognized => r matches Err(e) && e is Unrecognized,
    }
}

/// Classifies a bare string from its expansion and the filesystem facts
/// about the expansion.
pub fn classify_text(value: &String, expanded: &String, probe: PathProbe) -> (r: Result<
    DependencyOptions,
    ClassifyError,
>)
    ensures
        classify_text_post(r, value@, expanded@, probe),
{
    if is_version_req(value) {
        Ok(DependencyOptions::Registry { version: value.clone() })
    } else if has_git_extension(expanded.as_str()) {
        Ok(
            DependencyOptions::Git {
                branch: None,
                repo: value.clone(),
                rev: None,
                tag: None,
            },
        )
    } else if probe.is_dir {
        Ok(DependencyOptions::Dir { dir: expanded.clone() })
    } else if probe.is_file {
        Ok(DependencyOptions::File { file: expanded.clone() })
    } else if is_url(value) {
        Ok(DependencyOptions::Url { url: value.clone() })
    } else {
        Err(ClassifyError::Unrecognized)
    }
}

/// What classifying a table entry returns: the first present key among
/// `repo`, `dir`, `file`, `version`, `url` selects the variant; a table
/// with none of them is unrecognized.
pub open spec fn spec_classify_table(t: TableEntry) -> Result<DependencyOptions, ClassifyError> {
    if t.repo is Some {
        Ok(
            DependencyOptions::Git {
                branch: t.branch,
                repo: t.repo->0,
                rev: t.rev,
                tag: t.tag,
            },
        )
    } else if t.dir is Some {
        Ok(DependencyOptions::Dir { dir: t.dir->0 })
    } else if t.file is Some {
        Ok(DependencyOptions::File { file: t.file->0 })
    } else if t.version is Some {
        Ok(DependencyOptions::Registry { version: t.version->0 })
    } else if t.url is Some {
        Ok(DependencyOptions::Url { url: t.url->0 })
    } else {
        Err(ClassifyError::Unrecognized)
    }
}

pub fn classify_table(t: &TableEntry) -> (r: Result<DependencyOptions, ClassifyError>)
    ensures
        r == spec_classify_table(*t),
{
    if let Some(repo) = &t.repo {
        Ok(
            DependencyOptions::Git {
                branch: clone_opt_string(&t.branch),
                repo: repo.clone(),
                rev: clone_opt_string(&t.rev),
                tag: clone_opt_string(&t.tag),
            },
        )
    } else if let Some(dir) = &t.dir {
        Ok(DependencyOptions::Dir { dir: dir.clone() })
    } else if let Some(file) = &t.file {
        Ok(DependencyOptions::File { file: file.clone() })
    } else if let Some(version) = &t.version {
        Ok(DependencyOptions::Registry { version: version.clone() })
    } else if let Some(url) = &t.url {
        Ok(DependencyOptions::Url { url: url.clone() })
    } else {
        Err(ClassifyError::Unrecognized)
    }
}

/// Classifies one manifest entry, consulting the host for the filesystem
/// facts a bare string needs. A bare string is classified against its
/// shell expansion; a string with nothing to expand — no `$` anywhere and
/// no leading `~` — is classified against itself.
pub fn classify<H: Host>(host: &mut H, entry: &ManifestEntry) -> (r: Result<
    DependencyOptions,
    ClassifyError,
>)
    ensures
        match entry {
            ManifestEntry::Table(t) => r == spec_classify_table(*t),
            ManifestEntry::Text(v) => {
                &&& exists|e: Seq<char>, p: PathProbe|
                    #[trigger] classify_text_post(r, v@, e, p)
                &&& ((v@.len() == 0 || v@[0] != '~') && (forall|i: int|
                    0 <= i < v@.len() ==> v@[i] != '$')) ==> exists|p: PathProbe|
                    #[trigger] classify_text_post(r, v@, v@, p)
            },
        },
{
    match entry {
        ManifestEntry::Text(value) => {
            let expanded = expand_path(value);
            let probe = host.probe_path(&expanded);
            let r = classify_text(value, &expanded, probe);
            proof {
                assert(classify_text_post(r, value@, expanded@, probe));
            }
            r
        },
        ManifestEntry::Table(t) => classify_table(t),
    }
}

impl crate::dependency::Dependency {
    /// Builds the dependency a classified table entry declares: the entry
    /// is classified by its keys, and the dependency carries the declared
    /// registry constraint or else the unconstrained marker.
    pub fn from_config(name: &String, entry: &TableEntry) -> (r: Result<
        (crate::dependency::Dependency, DependencyOptions),
        ClassifyError,
    >)
        ensures
            match spec_classify_table(*entry) {
                Ok(options) => r matches Ok(pair) && pair.1 == options && pair.0.name@ == name@
                    && pair.0.version@ == crate::resolver::spec_declared_version(options),
                Err(e) => r matches Err(err) && err == e,
            },
    {
        match classify_table(entry) {
            Err(e) => Err(e),
            Ok(options) => {
                let version = match &options {
                    DependencyOptions::Registry { version } => version.clone(),
                    _ => String::from_str("*"),
                };
                Ok((crate::dependency::Dependency { name: name.clone(), version }, options))
            },
        }
    }
}

/// Classification is total, with the documented priority order: for every
/// combination of facts exactly one outcome results, and each outcome is
/// selected exactly when every fact before it in the order is absent and
/// its own fact is present.
pub proof fn lemma_classification_total(
    version_req: bool,
    git_ext: bool,
    is_dir: bool,
    is_file: bool,
    url_ok: bool,
)
    ensures
        ({
            let k = spec_source_kind(version_req, git_ext, is_dir, is_file, url_ok);
            &&& (k is Registry <==> version_req)
            &&& (k is Git <==> !version_req && git_ext)
            &&& (k is Dir <==> !version_req && !git_ext && is_dir)
            &&& (k is File <==> !version_req && !git_ext && !is_dir && is_file)
            &&& (k is Url <==> !version_req && !git_ext && !is_dir && !is_file && url_ok)
            &&& (k is Unrecognized <==> !version_req && !git_ext && !is_dir && !is_file && !url_ok)
        }),
{
}

/// Changing only the filesystem can move the outcome only as the priority
/// order allows: outcomes decided before the filesystem is consulted
/// stand whatever the filesystem says; creating a directory at the named
/// path can only turn a later outcome into Dir, and creating a regular
/// file can only turn a later outcome into File.
pub proof fn lemma_classification_fs_priority(
    version_req: bool,
    git_ext: bool,
    url_ok: bool,
    dir1: bool,
    file1: bool,
    dir2: bool,
    file2: bool,
)
    ensures
        ({
            let k1 = spec_source_kind(version_req, git_ext, dir1, file1, url_ok);
            let k2 = spec_source_kind(version_req, git_ext, dir2, file2, url_ok);
            &&& (k1 is Registry ==> k2 is Registry)
            &&& (k1 is Git ==> k2 is Git)
            &&& (!dir1 && dir2 && file1 == file2 && !(k1 is Registry) && !(k1 is Git) ==> k2
                is Dir)
            &&& (dir1 == dir2 && !file1 && file2 && !(k1 is Registry) && !(k1 is Git) && !(k1
                is Dir) ==> k2 is File)
        }),
{
}

} // verus!
