use smaug::config::Config;
use smaug::config::DragonRuby;
use smaug::config::Itch;
use smaug::config::Project;
use smaug::dragonruby::dragonruby_bin_name;
use smaug::dragonruby::dragonruby_bind_name;
use smaug::dragonruby::dragonruby_docs_path;
use smaug::dragonruby::dragonruby_httpd_name;
use smaug::dragonruby::dragonruby_platform;
use smaug::dragonruby::dragonruby_publish_name;
use smaug::dragonruby::Edition;
use smaug::dragonruby::Platform;
use smaug::game_metadata::from_config;

fn project_config(itch: Option<Itch>) -> Config {
    Config {
        package: None,
        project: Some(Project {
            name: "mygame".to_string(),
            title: "My Game".to_string(),
            version: "0.3.0".to_string(),
            authors: vec!["Ada".to_string(), "Grace".to_string()],
            icon: "icon.png".to_string(),
            compile_ruby: true,
        }),
        dragonruby: DragonRuby { version: "*".to_string(), edition: "standard".to_string() },
        itch,
        dependencies: Vec::new(),
    }
}

#[test]
fn binary_names_carry_exe_only_on_windows() {
    assert_eq!(dragonruby_bin_name(Platform::Windows), "dragonruby.exe");
    assert_eq!(dragonruby_bin_name(Platform::Linux), "dragonruby");
    assert_eq!(dragonruby_bind_name(Platform::Windows), "dragonruby-bind.exe");
    assert_eq!(dragonruby_bind_name(Platform::MacOs), "dragonruby-bind");
    assert_eq!(dragonruby_httpd_name(Platform::Linux), "dragonruby-httpd");
    assert_eq!(dragonruby_publish_name(Platform::Windows), "dragonruby-publish.exe");
}

#[test]
fn platform_segments_match_the_download_names() {
    assert_eq!(dragonruby_platform(Platform::Windows), "windows-amd64");
    assert_eq!(dragonruby_platform(Platform::MacOs), "macos");
    assert_eq!(dragonruby_platform(Platform::Linux), "linux-amd64");
}

#[test]
fn docs_live_at_a_fixed_path() {
    assert_eq!(dragonruby_docs_path(), "docs/docs.html");
}

#[test]
fn editions_order_standard_indie_pro() {
    assert!(Edition::Pro.at_least(&Edition::Indie));
    assert!(Edition::Indie.at_least(&Edition::Standard));
    assert!(Edition::Indie.at_least(&Edition::Indie));
    assert!(!Edition::Standard.at_least(&Edition::Pro));
}

fn version(edition: Edition, major: u64, minor: u64, identifier: &str) -> smaug::dragonruby::Version {
    smaug::dragonruby::Version {
        edition,
        major,
        minor,
        patch: 0,
        identifier: identifier.to_string(),
    }
}

#[test]
fn latest_picks_the_highest_numeric_version() {
    let versions = vec![
        version(Edition::Standard, 3, 5, "a"),
        version(Edition::Pro, 4, 2, "b"),
        version(Edition::Standard, 4, 0, "c"),
    ];
    let latest = smaug::dragonruby::latest(&versions).expect("something is installed");
    assert_eq!(latest.identifier, "b");
}

#[test]
fn latest_breaks_ties_toward_the_later_entry() {
    let versions = vec![
        version(Edition::Standard, 4, 2, "first"),
        version(Edition::Indie, 4, 2, "second"),
    ];
    let latest = smaug::dragonruby::latest(&versions).expect("something is installed");
    assert_eq!(latest.identifier, "second");
}

#[test]
fn latest_of_nothing_reports_not_installed() {
    let versions: Vec<smaug::dragonruby::Version> = Vec::new();
    assert!(matches!(
        smaug::dragonruby::latest(&versions),
        Err(smaug::dragonruby::DragonRubyError::DragonRubyNotInstalled)
    ));
}

#[test]
fn metadata_carries_the_project_fields() {
    let metadata = from_config(&project_config(None));
    assert_eq!(metadata.gameid, "mygame");
    assert_eq!(metadata.gametitle, "My Game");
    assert_eq!(metadata.version, "0.3.0");
    assert_eq!(metadata.icon, "icon.png");
    assert_eq!(metadata.devtitle, "Ada Grace");
    assert!(metadata.compile_ruby);
}

#[test]
fn developer_id_defaults_without_itch() {
    let metadata = from_config(&project_config(None));
    assert_eq!(metadata.devid, "dragonrider");
}

#[test]
fn developer_id_is_the_itch_username() {
    let itch = Itch { url: "https://ada.itch.io/mygame".to_string(), username: "ada".to_string() };
    let metadata = from_config(&project_config(Some(itch)));
    assert_eq!(metadata.devid, "ada");
}
