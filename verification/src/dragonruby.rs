//! Names and editions of the game-runtime toolchain.
//!
//! Launching the toolchain is outside the engine; these are the plain
//! facts about it that callers need: the names of its binaries per
//! platform, and the ordering of its editions.

use vstd::prelude::*;
use vstd::string::*;

verus! {

/// The platform a toolchain installation runs on; binary names carry an
/// `.exe` suffix on Windows.
#[derive(Clone, Copy, PartialEq, Eq, Structural, Debug)]
pub enum Platform {
    Windows,
    MacOs,
    Linux,
}

/// The edition of a toolchain installation, ordered Standard, Indie, Pro:
/// a higher edition satisfies a requirement for a lower one.
#[derive(Clone, Copy, PartialEq, Eq, Structural, Debug)]
pub enum Edition {
    Standard,
    Indie,
    Pro,
}

impl Edition {
    /// The edition's place in the order.
    pub open spec fn spec_rank(self) -> int {
        match self {
            Edition::Standard => 0,
            Edition::Indie => 1,
            Edition::Pro => 2,
        }
    }

    pub fn rank(&self) -> (r: u8)
        ensures
            r as int == self.spec_rank(),
    {
        match self {
            Edition::Standard => 0,
            Edition::Indie => 1,
            Edition::Pro => 2,
        }
    }

    /// Whether this edition satisfies a requirement for `other`.
    pub fn at_least(&self, other: &Edition) -> (r: bool)
        ensures
            r == (self.spec_rank() >= other.spec_rank()),
    {
        self.rank() >= other.rank()
    }
}

/// One installed toolchain version: its edition, its numeric version, and
/// the name of the directory it was found under.
pub struct Version {
    pub edition: Edition,
    pub major: u64,
    pub minor: u64,
    pub patch: u64,
    pub identifier: String,
}

impl Clone for Version {
    fn clone(&self) -> (res: Self)
        ensures
            res == *self,
    {
        Version {
            edition: self.edition,
            major: self.major,
            minor: self.minor,
            patch: self.patch,
            identifier: self.identifier.clone(),
        }
    }
}

/// Why a toolchain could not be produced.
#[derive(Debug)]
pub enum DragonRubyError {
    /// The named path holds no recognizable toolchain install.
    DragonRubyNotFound { path: String },
    /// No toolchain version is installed at all.
    DragonRubyNotInstalled,
}

/// Numeric version order, ignoring edition and identifier.
pub open spec fn spec_version_le(a: Version, b: Version) -> bool {
    if a.major != b.major {
        a.major < b.major
    } else if a.minor != b.minor {
        a.minor < b.minor
    } else {
        a.patch <= b.patch
    }
}

fn version_le(a: &Version, b: &Version) -> (r: bool)
    ensures
        r == spec_version_le(*a, *b),
{
    if a.major != b.major {
        a.major < b.major
    } else if a.minor != b.minor {
        a.minor < b.minor
    } else {
        a.patch <= b.patch
    }
}

/// The index `latest` picks: the last entry that no other entry exceeds.
pub open spec fn spec_latest_index(vs: Seq<Version>) -> int
    recommends
        vs.len() > 0,
    decreases vs.len(),
{
    if vs.len() <= 1 {
        0
    } else {
        let best = spec_latest_index(vs.drop_last());
        if spec_version_le(vs[best], vs.last()) {
            vs.len() - 1
        } else {
            best
        }
    }
}

/// Picks the newest of the installed toolchain versions: the last entry
/// whose numeric version no other entry exceeds. An empty list means no
/// toolchain is installed.
pub fn latest(versions: &Vec<Version>) -> (r: Result<Version, DragonRubyError>)
    ensures
        match r {
            Ok(v) => versions@.len() > 0 && v == versions@[spec_latest_index(versions@)],
            Err(e) => versions@.len() == 0 && e is DragonRubyNotInstalled,
        },
{
    if versions.len() == 0 {
        return Err(DragonRubyError::DragonRubyNotInstalled);
    }
    let mut best: usize = 0;
    let mut i: usize = 1;
    while i < versions.len()
        invariant
            versions@.len() > 0,
            best < i <= versions@.len(),
            best as int == spec_latest_index(versions@.take(i as int)),
        decreases versions@.len() - i,
    {
        proof {
            assert(versions@.take(i + 1).drop_last() =~= versions@.take(i as int));
            assert(versions@.take(i + 1).last() == versions@[i as int]);
        }
        if version_le(&versions[best], &versions[i]) {
            best = i;
        }
        i = i + 1;
    }
    proof {
        assert(versions@.take(versions@.len() as int) =~= versions@);
    }
    Ok(versions[best].clone())
}

/// The path of the toolchain's documentation index, inside its install.
pub fn dragonruby_docs_path() -> (r: String)
    ensures
        r@ == "docs/docs.html"@,
{
    String::from_str("docs/docs.html")
}

/// The toolchain's runner binary name.
pub fn dragonruby_bin_name(platform: Platform) -> (r: String)
    ensures
        platform is Windows ==> r@ == "dragonruby.exe"@,
        !(platform is Windows) ==> r@ == "dragonruby"@,
{
    match platform {
        Platform::Windows => String::from_str("dragonruby.exe"),
        _ => String::from_str("dragonruby"),
    }
}

/// The toolchain's C-bindings generator binary name.
pub fn dragonruby_bind_name(platform: Platform) -> (r: String)
    ensures
        platform is Windows ==> r@ == "dragonruby-bind.exe"@,
        !(platform is Windows) ==> r@ == "dragonruby-bind"@,
{
    match platform {
        Platform::Windows => String::from_str("dragonruby-bind.exe"),
        _ => String::from_str("dragonruby-bind"),
    }
}

/// The toolchain's development web-server binary name.
pub fn dragonruby_httpd_name(platform: Platform) -> (r: String)
    ensures
        platform is Windows ==> r@ == "dragonruby-httpd.exe"@,
        !(platform is Windows) ==> r@ == "dragonruby-httpd"@,
{
    match platform {
        Platform::Windows => String::from_str("dragonruby-httpd.exe"),
        _ => String::from_str("dragonruby-httpd"),
    }
}

/// The toolchain's publishing binary name.
pub fn dragonruby_publish_name(platform: Platform) -> (r: String)
    ensures
        platform is Windows ==> r@ == "dragonruby-publish.exe"@,
        !(platform is Windows) ==> r@ == "dragonruby-publish"@,
{
    match platform {
        Platform::Windows => String::from_str("dragonruby-publish.exe"),
        _ => String::from_str("dragonruby-publish"),
    }
}

/// The platform segment of a toolchain download name.
pub fn dragonruby_platform(platform: Platform) -> (r: String)
    ensures
        platform is Windows ==> r@ == "windows-amd64"@,
        platform is MacOs ==> r@ == "macos"@,
        platform is Linux ==> r@ == "linux-amd64"@,
{
    match platform {
        Platform::Windows => String::from_str("windows-amd64"),
        Platform::MacOs => String::from_str("macos"),
        Platform::Linux => String::from_str("linux-amd64"),
    }
}

} // verus!
