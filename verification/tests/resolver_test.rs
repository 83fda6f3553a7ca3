use smaug::config::Config;
use smaug::config::DependencyOptions;
use smaug::config::DragonRuby;
use smaug::config::Package;
use smaug::errors::InstallError;
use smaug::host::Host;
use smaug::host::HostError;
use smaug::host::PathProbe;
use smaug::host::RegistryPackage;
use smaug::host::WalkEntry;
use smaug::resolver::new_from_config;
use smaug::source::checkout_target;
use smaug::source::from_dependency_options;
use smaug::source::DirSource;
use smaug::source::GitSource;
use smaug::source::RegistrySource;
use smaug::source::Source;
use smaug::source::UrlSource;
use smaug::dependency::Dependency;

/// A package section a scripted host serves for one manifest path.
struct ServedPackage {
    path: String,
    installs: Vec<(String, String)>,
    requires: Vec<String>,
}

/// A scripted host: an in-memory record of what exists, what each walk
/// reports, and which manifests can be loaded, plus a log of every
/// effectful call.
struct ScriptedHost {
    existing: Vec<String>,
    trees: Vec<(String, Vec<(Vec<String>, bool)>)>,
    packages: Vec<ServedPackage>,
    registry: Vec<(String, String, String, String)>,
    walks: Vec<String>,
    copies: Vec<(String, String)>,
    clones: Vec<(String, Option<String>, String)>,
    resets: Vec<(String, String)>,
    removed: Vec<String>,
    downloads: Vec<(String, String)>,
}

impl ScriptedHost {
    fn new() -> ScriptedHost {
        ScriptedHost {
            existing: Vec::new(),
            trees: Vec::new(),
            packages: Vec::new(),
            registry: Vec::new(),
            walks: Vec::new(),
            copies: Vec::new(),
            clones: Vec::new(),
            resets: Vec::new(),
            removed: Vec::new(),
            downloads: Vec::new(),
        }
    }

    fn err(message: &str) -> HostError {
        HostError { message: message.to_string() }
    }
}

impl Host for ScriptedHost {
    fn probe_path(&mut self, path: &String) -> PathProbe {
        let _ = path;
        PathProbe { is_dir: false, is_file: false }
    }

    fn path_exists(&mut self, path: &String) -> bool {
        let prefix = format!("{}/", path);
        self.existing.iter().any(|e| e == path || e.starts_with(&prefix))
    }

    fn remove_path(&mut self, path: &String) -> Result<(), HostError> {
        self.removed.push(path.clone());
        Ok(())
    }

    fn download(&mut self, url: &String, destination: &String) -> Result<(), HostError> {
        self.downloads.push((url.clone(), destination.clone()));
        Ok(())
    }

    fn extract_archive(&mut self, archive: &String, destination: &String) -> Result<(), HostError> {
        let _ = (archive, destination);
        Ok(())
    }

    fn git_clone(
        &mut self,
        repo: &String,
        branch: &Option<String>,
        destination: &String,
    ) -> Result<(), HostError> {
        self.clones.push((repo.clone(), branch.clone(), destination.clone()));
        Ok(())
    }

    fn git_reset_hard(&mut self, destination: &String, reference: &String) -> Result<(), HostError> {
        self.resets.push((destination.clone(), reference.clone()));
        Ok(())
    }

    fn registry_lookup(
        &mut self,
        name: &String,
        version: &String,
    ) -> Result<RegistryPackage, HostError> {
        for (n, v, url, tag) in &self.registry {
            if n == name && v == version {
                return Ok(RegistryPackage { url: url.clone(), tag: tag.clone() });
            }
        }
        Err(Self::err("could not fetch dependency from registry"))
    }

    fn walk(&mut self, root: &String) -> Result<Vec<WalkEntry>, HostError> {
        self.walks.push(root.clone());
        for (r, entries) in &self.trees {
            if r == root {
                return Ok(entries
                    .iter()
                    .map(|(components, is_file)| WalkEntry {
                        components: components.clone(),
                        is_file: *is_file,
                    })
                    .collect());
            }
        }
        Err(Self::err("no such tree"))
    }

    fn read_lines(&mut self, path: &String) -> Option<Vec<String>> {
        let _ = path;
        None
    }

    fn copy_file(&mut self, from: &String, to: &String) -> Result<(), HostError> {
        self.copies.push((from.clone(), to.clone()));
        self.existing.push(to.clone());
        Ok(())
    }

    fn load_config(&mut self, path: &String) -> Result<Config, HostError> {
        for served in &self.packages {
            if &served.path == path {
                return Ok(Config {
                    package: Some(Package {
                        name: "served".to_string(),
                        version: "0.1.0".to_string(),
                        installs: served.installs.clone(),
                        requires: served.requires.clone(),
                    }),
                    project: None,
                    dragonruby: DragonRuby {
                        version: "*".to_string(),
                        edition: "standard".to_string(),
                    },
                    itch: None,
                    dependencies: Vec::new(),
                });
            }
        }
        Err(Self::err("no manifest"))
    }

    fn digest(&mut self, path: &String) -> Result<u64, HostError> {
        let _ = path;
        Ok(0)
    }

    fn confirm_overwrite(&mut self, path: &String) -> bool {
        let _ = path;
        true
    }
}

fn strings(parts: &[&str]) -> Vec<String> {
    parts.iter().map(|p| p.to_string()).collect()
}

fn ui_lib_config() -> Config {
    Config {
        package: None,
        project: None,
        dragonruby: DragonRuby { version: "*".to_string(), edition: "standard".to_string() },
        itch: None,
        dependencies: vec![(
            "ui".to_string(),
            DependencyOptions::Dir { dir: "../ui-lib".to_string() },
        )],
    }
}

fn ui_host() -> ScriptedHost {
    let mut host = ScriptedHost::new();
    host.trees.push((
        "/project/../ui-lib".to_string(),
        vec![
            (strings(&["Smaug.toml"]), true),
            (strings(&["assets"]), false),
            (strings(&["assets", "icon.png"]), true),
            (strings(&["lib"]), false),
            (strings(&["lib", "ui.rb"]), true),
        ],
    ));
    host.packages.push(ServedPackage {
        path: "/project/smaug/ui/Smaug.toml".to_string(),
        installs: vec![("assets/icon.png".to_string(), "sprites/icon.png".to_string())],
        requires: vec!["lib/ui.rb".to_string()],
    });
    host
}

#[test]
fn dir_dependency_resolves_installs_and_rewritten_requires() {
    let config = ui_lib_config();
    let mut resolver = new_from_config(&config);
    let mut host = ui_host();

    let deps = resolver
        .install(&mut host, &"/project/smaug".to_string(), &"/cache".to_string())
        .expect("the run should succeed");

    assert_eq!(deps.len(), 1);
    assert_eq!(deps[0].name, "ui");
    assert_eq!(deps[0].version, "*");

    assert_eq!(resolver.installs.len(), 1);
    assert_eq!(resolver.installs[0].from, "/project/smaug/ui/assets/icon.png");
    assert_eq!(resolver.installs[0].to, "/project/sprites/icon.png");

    // lib/ui.rb is bundled by the dependency itself, so the require path
    // is rewritten into the shared dependency directory.
    assert_eq!(resolver.requires, vec!["smaug/ui/lib/ui.rb".to_string()]);

    // The whole tree was copied into the slot, minus nothing.
    assert_eq!(host.copies.len(), 3);
}

#[test]
fn installed_dependency_is_skipped_on_the_next_run() {
    let config = ui_lib_config();
    let mut host = ui_host();

    let mut first = new_from_config(&config);
    first
        .install(&mut host, &"/project/smaug".to_string(), &"/cache".to_string())
        .expect("the first run should succeed");
    assert_eq!(host.walks.len(), 1);

    // The slot now exists, so the second run must not fetch again; it
    // still propagates the manifest.
    let mut second = new_from_config(&config);
    second
        .install(&mut host, &"/project/smaug".to_string(), &"/cache".to_string())
        .expect("the second run should succeed");
    assert_eq!(host.walks.len(), 1);
    assert_eq!(resolver_requires(&second), vec!["smaug/ui/lib/ui.rb".to_string()]);
}

fn resolver_requires(r: &smaug::resolver::Resolver) -> Vec<String> {
    r.requires.clone()
}

#[test]
fn installed_survives_cache_deletion() {
    // The presence check looks at the destination slot, not the cache:
    // clearing the cache out of band changes nothing for a dependency
    // that is already in place.
    let config = Config {
        package: None,
        project: None,
        dragonruby: DragonRuby { version: "*".to_string(), edition: "standard".to_string() },
        itch: None,
        dependencies: vec![(
            "pkg".to_string(),
            DependencyOptions::Git {
                branch: None,
                repo: "https://example.com/pkg.git".to_string(),
                rev: None,
                tag: None,
            },
        )],
    };
    let mut host = git_cache_host();

    let mut first = new_from_config(&config);
    first
        .install(&mut host, &"/project/smaug".to_string(), &"/cache".to_string())
        .expect("the first run should succeed");
    assert_eq!(host.clones.len(), 1);

    host.existing.retain(|p| !p.starts_with("/cache/"));

    let mut second = new_from_config(&config);
    second
        .install(&mut host, &"/project/smaug".to_string(), &"/cache".to_string())
        .expect("the second run should succeed");
    assert_eq!(host.clones.len(), 1);
}

#[test]
fn fetch_failure_aborts_the_queue() {
    let config = Config {
        package: None,
        project: None,
        dragonruby: DragonRuby { version: "*".to_string(), edition: "standard".to_string() },
        itch: None,
        dependencies: vec![
            ("broken".to_string(), DependencyOptions::Dir { dir: "missing".to_string() }),
            ("ui".to_string(), DependencyOptions::Dir { dir: "../ui-lib".to_string() }),
        ],
    };
    let mut resolver = new_from_config(&config);
    let mut host = ui_host();

    let result =
        resolver.install(&mut host, &"/project/smaug".to_string(), &"/cache".to_string());
    match result {
        Err(InstallError::Fetch { name, .. }) => assert_eq!(name, "broken"),
        _ => panic!("expected the missing tree to fail the run"),
    }
    // The failure aborted before the second dependency was touched.
    assert_eq!(host.walks, vec!["/project/missing".to_string()]);
}

#[test]
fn missing_package_section_is_a_manifest_error() {
    let config = ui_lib_config();
    let mut resolver = new_from_config(&config);
    let mut host = ui_host();
    host.packages.clear();

    let result =
        resolver.install(&mut host, &"/project/smaug".to_string(), &"/cache".to_string());
    assert!(matches!(result, Err(InstallError::Manifest { name }) if name == "ui"));
}

#[test]
fn declared_versions_follow_the_source_kind() {
    let config = Config {
        package: None,
        project: None,
        dragonruby: DragonRuby { version: "*".to_string(), edition: "standard".to_string() },
        itch: None,
        dependencies: vec![
            ("ui".to_string(), DependencyOptions::Dir { dir: "../ui-lib".to_string() }),
            ("pkg".to_string(), DependencyOptions::Registry { version: "1.0.0".to_string() }),
        ],
    };
    let resolver = new_from_config(&config);
    assert_eq!(resolver.requirements.len(), 2);
    assert_eq!(resolver.requirements[0].name, "ui");
    assert_eq!(resolver.requirements[0].version, "*");
    assert_eq!(resolver.requirements[1].name, "pkg");
    assert_eq!(resolver.requirements[1].version, "1.0.0");
}

#[test]
fn repeated_name_keeps_the_last_source() {
    let config = Config {
        package: None,
        project: None,
        dragonruby: DragonRuby { version: "*".to_string(), edition: "standard".to_string() },
        itch: None,
        dependencies: vec![
            ("x".to_string(), DependencyOptions::Dir { dir: "first".to_string() }),
            ("x".to_string(), DependencyOptions::Dir { dir: "second".to_string() }),
        ],
    };
    let resolver = new_from_config(&config);
    match resolver.source_for(&"x".to_string()) {
        Some(Source::Dir(DirSource { path })) => assert_eq!(path, "second"),
        _ => panic!("expected the later registration to win"),
    }
}

#[test]
fn from_dependency_options_maps_each_variant() {
    let options = DependencyOptions::Url { url: "https://example.com/p.zip".to_string() };
    match from_dependency_options(&options) {
        Some(Source::Url(UrlSource { url })) => assert_eq!(url, "https://example.com/p.zip"),
        _ => panic!("expected a url source"),
    }
}

#[test]
fn revision_wins_over_tag_at_checkout() {
    let rev = Some("abc123".to_string());
    let tag = Some("v1.0".to_string());
    assert_eq!(checkout_target(&rev, &tag), Some("abc123".to_string()));
    assert_eq!(checkout_target(&None, &tag), Some("v1.0".to_string()));
    assert_eq!(checkout_target(&None, &None), None);
}

fn git_cache_host() -> ScriptedHost {
    let mut host = ScriptedHost::new();
    host.trees.push((
        "/cache/pkg".to_string(),
        vec![(strings(&["Smaug.toml"]), true)],
    ));
    host.packages.push(ServedPackage {
        path: "/project/smaug/pkg/Smaug.toml".to_string(),
        installs: Vec::new(),
        requires: Vec::new(),
    });
    host
}

fn pkg_dependency() -> Dependency {
    Dependency { name: "pkg".to_string(), version: "*".to_string() }
}

#[test]
fn git_install_resets_to_the_revision_not_the_tag() {
    let mut host = git_cache_host();
    let source = GitSource {
        repo: "https://example.com/pkg.git".to_string(),
        branch: Some("main".to_string()),
        rev: Some("abc123".to_string()),
        tag: Some("v1.0".to_string()),
    };
    source
        .install(
            &mut host,
            &pkg_dependency(),
            &"/project/smaug".to_string(),
            &"/cache".to_string(),
        )
        .expect("the git install should succeed");

    assert_eq!(
        host.clones,
        vec![(
            "https://example.com/pkg.git".to_string(),
            Some("main".to_string()),
            "/cache/pkg".to_string()
        )]
    );
    // Exactly one hard reset, and it targets the revision.
    assert_eq!(host.resets, vec![("/cache/pkg".to_string(), "abc123".to_string())]);
    // The metadata directory is cleared before the copy.
    assert!(host.removed.contains(&"/cache/pkg/.git".to_string()));
}

#[test]
fn git_install_without_revision_resets_to_the_tag() {
    let mut host = git_cache_host();
    let source = GitSource {
        repo: "https://example.com/pkg.git".to_string(),
        branch: None,
        rev: None,
        tag: Some("v1.0".to_string()),
    };
    source
        .install(
            &mut host,
            &pkg_dependency(),
            &"/project/smaug".to_string(),
            &"/cache".to_string(),
        )
        .expect("the git install should succeed");
    assert_eq!(host.resets, vec![("/cache/pkg".to_string(), "v1.0".to_string())]);
}

#[test]
fn registry_install_becomes_a_git_fetch_of_the_answer() {
    let mut host = git_cache_host();
    host.registry.push((
        "pkg".to_string(),
        "1.0.0".to_string(),
        "https://git.example/pkg.git".to_string(),
        "v1.0.0".to_string(),
    ));
    let source = RegistrySource { version: "1.0.0".to_string() };
    source
        .install(
            &mut host,
            &pkg_dependency(),
            &"/project/smaug".to_string(),
            &"/cache".to_string(),
        )
        .expect("the registry install should succeed");
    assert_eq!(host.clones.len(), 1);
    assert_eq!(host.clones[0].0, "https://git.example/pkg.git");
    assert_eq!(host.resets, vec![("/cache/pkg".to_string(), "v1.0.0".to_string())]);
}

#[test]
fn registry_miss_is_a_fetch_error() {
    let mut host = git_cache_host();
    let source = RegistrySource { version: "9.9.9".to_string() };
    let result = source.install(
        &mut host,
        &pkg_dependency(),
        &"/project/smaug".to_string(),
        &"/cache".to_string(),
    );
    assert!(matches!(result, Err(InstallError::Fetch { name, .. }) if name == "pkg"));
}

#[test]
fn url_install_downloads_then_extracts_then_copies() {
    let mut host = git_cache_host();
    let source = UrlSource { url: "https://example.com/pkg.zip".to_string() };
    source
        .install(
            &mut host,
            &pkg_dependency(),
            &"/project/smaug".to_string(),
            &"/cache".to_string(),
        )
        .expect("the url install should succeed");
    assert_eq!(
        host.downloads,
        vec![("https://example.com/pkg.zip".to_string(), "/cache/pkg.zip".to_string())]
    );
}

#[test]
fn archive_with_a_wrapper_directory_still_resolves() {
    let mut host = ScriptedHost::new();
    host.trees.push((
        "/cache/pkg".to_string(),
        vec![
            (strings(&["pkg-1.0"]), false),
            (strings(&["pkg-1.0", "Smaug.toml"]), true),
            (strings(&["pkg-1.0", "lib", "pkg.rb"]), true),
        ],
    ));
    // The inner directory is what gets copied.
    host.trees.push((
        "/cache/pkg/pkg-1.0".to_string(),
        vec![
            (strings(&["Smaug.toml"]), true),
            (strings(&["lib", "pkg.rb"]), true),
        ],
    ));
    host.packages.push(ServedPackage {
        path: "/project/smaug/pkg/Smaug.toml".to_string(),
        installs: Vec::new(),
        requires: Vec::new(),
    });
    let source = smaug::source::FileSource { path: "/downloads/pkg.zip".to_string() };
    source
        .install(
            &mut host,
            &pkg_dependency(),
            &"/project/smaug".to_string(),
            &"/cache".to_string(),
        )
        .expect("the archive install should succeed");
    assert!(host
        .copies
        .contains(&("/cache/pkg/pkg-1.0/lib/pkg.rb".to_string(), "/project/smaug/pkg/lib/pkg.rb".to_string())));
}

#[test]
fn declared_absolute_paths_stay_inside_the_project() {
    // A dependency manifest is untrusted input: declared install paths
    // are read as relative, so a leading separator cannot direct a copy
    // outside the project tree or read outside the dependency's slot.
    let config = ui_lib_config();
    let mut resolver = new_from_config(&config);
    let mut host = ui_host();
    host.packages.clear();
    host.packages.push(ServedPackage {
        path: "/project/smaug/ui/Smaug.toml".to_string(),
        installs: vec![("/assets/icon.png".to_string(), "/etc/x".to_string())],
        requires: Vec::new(),
    });

    resolver
        .install(&mut host, &"/project/smaug".to_string(), &"/cache".to_string())
        .expect("the run should succeed");

    assert_eq!(resolver.installs.len(), 1);
    assert_eq!(resolver.installs[0].from, "/project/smaug/ui/assets/icon.png");
    assert_eq!(resolver.installs[0].to, "/project/etc/x");
}
