use smaug::classify::classify_table;
use smaug::classify::classify_text;
use smaug::errors::ClassifyError;
use smaug::classify::TableEntry;
use smaug::config::DependencyOptions;
use smaug::host::PathProbe;

fn probe(is_dir: bool, is_file: bool) -> PathProbe {
    PathProbe { is_dir, is_file }
}

fn text(value: &str, p: PathProbe) -> Result<DependencyOptions, ClassifyError> {
    classify_text(&value.to_string(), &value.to_string(), p)
}

fn empty_table() -> TableEntry {
    TableEntry {
        repo: None,
        branch: None,
        rev: None,
        tag: None,
        dir: None,
        file: None,
        version: None,
        url: None,
    }
}

#[test]
fn version_requirement_classifies_as_registry() {
    match text("1.0.0", probe(false, false)) {
        Ok(DependencyOptions::Registry { version }) => assert_eq!(version, "1.0.0"),
        other => panic!("expected a registry source, got {:?}", describe(&other)),
    }
}

#[test]
fn version_range_classifies_as_registry() {
    assert!(matches!(
        text(">= 0.5", probe(false, false)),
        Ok(DependencyOptions::Registry { .. })
    ));
}

#[test]
fn version_wins_over_filesystem() {
    // Even if a directory of that name exists, a parsable version
    // requirement stays a registry dependency.
    assert!(matches!(
        text("1.2.3", probe(true, true)),
        Ok(DependencyOptions::Registry { .. })
    ));
}

#[test]
fn git_extension_classifies_as_git() {
    match text("gems/sprites.git", probe(false, false)) {
        Ok(DependencyOptions::Git { repo, branch, rev, tag }) => {
            assert_eq!(repo, "gems/sprites.git");
            assert!(branch.is_none() && rev.is_none() && tag.is_none());
        }
        other => panic!("expected a git source, got {:?}", describe(&other)),
    }
}

#[test]
fn git_extension_wins_over_directory() {
    assert!(matches!(
        text("vendored.git", probe(true, false)),
        Ok(DependencyOptions::Git { .. })
    ));
}

#[test]
fn existing_directory_classifies_as_dir() {
    match text("../ui-lib", probe(true, false)) {
        Ok(DependencyOptions::Dir { dir }) => assert_eq!(dir, "../ui-lib"),
        other => panic!("expected a dir source, got {:?}", describe(&other)),
    }
}

#[test]
fn directory_wins_over_file() {
    assert!(matches!(
        text("../ui-lib", probe(true, true)),
        Ok(DependencyOptions::Dir { .. })
    ));
}

#[test]
fn existing_file_classifies_as_file() {
    match text("bundles/pkg.zip", probe(false, true)) {
        Ok(DependencyOptions::File { file }) => assert_eq!(file, "bundles/pkg.zip"),
        other => panic!("expected a file source, got {:?}", describe(&other)),
    }
}

#[test]
fn url_classifies_as_url() {
    match text("https://example.com/pkg.zip", probe(false, false)) {
        Ok(DependencyOptions::Url { url }) => assert_eq!(url, "https://example.com/pkg.zip"),
        other => panic!("expected a url source, got {:?}", describe(&other)),
    }
}

#[test]
fn unrecognizable_text_fails_classification() {
    assert!(matches!(
        text("no scheme, no version, nothing", probe(false, false)),
        Err(ClassifyError::Unrecognized)
    ));
}

#[test]
fn creating_the_file_changes_a_failure_to_file() {
    // The same string that failed classifies as File once the path exists:
    // filesystem changes move the outcome only along the priority order.
    let value = "no scheme, no version, nothing";
    assert!(matches!(text(value, probe(false, false)), Err(_)));
    assert!(matches!(
        text(value, probe(false, true)),
        Ok(DependencyOptions::File { .. })
    ));
}

#[test]
fn table_with_repo_classifies_as_git() {
    let mut t = empty_table();
    t.repo = Some("https://example.com/repo.git".to_string());
    t.branch = Some("main".to_string());
    t.dir = Some("ignored".to_string());
    match classify_table(&t) {
        Ok(DependencyOptions::Git { repo, branch, rev, tag }) => {
            assert_eq!(repo, "https://example.com/repo.git");
            assert_eq!(branch.as_deref(), Some("main"));
            assert!(rev.is_none() && tag.is_none());
        }
        other => panic!("expected a git source, got {:?}", describe(&other)),
    }
}

#[test]
fn table_priority_is_dir_file_version_url() {
    let mut t = empty_table();
    t.dir = Some("d".to_string());
    t.file = Some("f".to_string());
    t.version = Some("1.0.0".to_string());
    t.url = Some("https://example.com".to_string());
    assert!(matches!(classify_table(&t), Ok(DependencyOptions::Dir { .. })));

    t.dir = None;
    assert!(matches!(classify_table(&t), Ok(DependencyOptions::File { .. })));

    t.file = None;
    assert!(matches!(
        classify_table(&t),
        Ok(DependencyOptions::Registry { .. })
    ));

    t.version = None;
    assert!(matches!(classify_table(&t), Ok(DependencyOptions::Url { .. })));

    t.url = None;
    assert!(matches!(classify_table(&t), Err(ClassifyError::Unrecognized)));
}

#[test]
fn dependency_from_config_carries_the_registry_constraint() {
    let mut t = empty_table();
    t.version = Some("~> 1.2".to_string());
    let (dep, options) = smaug::dependency::Dependency::from_config(&"pkg".to_string(), &t)
        .expect("a version table classifies");
    assert_eq!(dep.name, "pkg");
    assert_eq!(dep.version, "~> 1.2");
    assert!(matches!(options, DependencyOptions::Registry { .. }));

    let mut g = empty_table();
    g.repo = Some("https://example.com/r.git".to_string());
    let (dep, _) = smaug::dependency::Dependency::from_config(&"r".to_string(), &g)
        .expect("a repo table classifies");
    assert_eq!(dep.version, "*");
}

fn describe(r: &Result<DependencyOptions, ClassifyError>) -> &'static str {
    match r {
        Ok(DependencyOptions::Dir { .. }) => "Dir",
        Ok(DependencyOptions::File { .. }) => "File",
        Ok(DependencyOptions::Git { .. }) => "Git",
        Ok(DependencyOptions::Registry { .. }) => "Registry",
        Ok(DependencyOptions::Url { .. }) => "Url",
        Err(_) => "Err",
    }
}
