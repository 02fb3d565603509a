use proto::plugins::discovery::{binary_name, find_plugin_for_command, resolve_binary_path};
use proto::plugins::install::{
    asset_name_for_platform, default_manifest, find_asset, installed_from_info, installed_names,
    is_up_to_date, release_has_binary, release_urls, repo_api_url,
};
use proto::plugins::flow::{
    install_step, update_step, InstallAction, InstallEvent, InstallState, UpdateAction, UpdateEvent, UpdateState,
};
use proto::plugins::search::{available_listing, contains_name, is_listed_plugin_dir, picked_plugin, search_items};
use proto::plugins::{InstalledPlugin, PluginInfo};
use proto::style::Theme;

fn info(name: &str, cmds: &[(&str, &str)]) -> PluginInfo {
    PluginInfo {
        name: name.to_string(),
        scope: "proto".to_string(),
        version: "1.0.0".to_string(),
        description: String::new(),
        author: String::new(),
        repository: String::new(),
        commands: cmds.iter().map(|(a, b)| (a.to_string(), b.to_string())).collect(),
    }
}

fn strings(v: &[&str]) -> Vec<String> {
    v.iter().map(|s| s.to_string()).collect()
}

#[test]
fn binary_names_come_from_the_first_command_path() {
    assert_eq!(binary_name(&info("mc", &[("mc", "bin/mc-tool")])), "mc-tool");
    assert_eq!(binary_name(&info("mc", &[("mc", "bin/..")])), "mc");
    assert_eq!(binary_name(&info("mc", &[])), "mc");
    assert_eq!(resolve_binary_path("/p/proto-mc", &info("mc", &[("mc", "x/y")])), "/p/proto-mc/bin/y");
}

#[test]
fn discovery_finds_the_plugin_providing_a_command() {
    let scanned = vec![
        (info("a", &[("one", "bin/a")]), "/a".to_string()),
        (info("b", &[("two", "bin/b"), ("one", "bin/b")]), "/b".to_string()),
    ];
    let (i, path) = find_plugin_for_command(scanned, "two").unwrap();
    assert_eq!(i.name, "b");
    assert_eq!(path, "/b");
    let scanned = vec![(info("a", &[("one", "bin/a")]), "/a".to_string())];
    assert!(find_plugin_for_command(scanned, "three").is_none());
}

#[test]
fn asset_names_per_platform() {
    assert_eq!(asset_name_for_platform("mc", "x86_64", "linux"), "mc-x86_64-unknown-linux-gnu");
    assert_eq!(asset_name_for_platform("mc", "aarch64", "macos"), "mc-aarch64-apple-darwin");
    assert_eq!(asset_name_for_platform("mc", "x86_64", "windows"), "mc-x86_64-pc-windows-msvc.exe");
    assert_eq!(asset_name_for_platform("mc", "aarch64", "windows"), "mc-x86_64-pc-windows-msvc.exe");
    assert_eq!(asset_name_for_platform("mc", "riscv64", "linux"), "mc-x86_64-unknown-linux-gnu");
}

#[test]
fn release_addresses_include_custom_repositories() {
    assert_eq!(release_urls(&None), strings(&["https://api.github.com/repos/proto-cli/plugins/releases/latest"]));
    let custom = Some(strings(&[
        "https://github.com/me/p",
        "github.com/you/q",
        "https://example.org/r/releases/latest",
        "http://github.com/alice/plugins.git",
        "https://github.com/bob/tools/",
        "https://gitlab.com/c/d",
    ]));
    assert_eq!(
        release_urls(&custom),
        strings(&[
            "https://api.github.com/repos/proto-cli/plugins/releases/latest",
            "https://api.github.com/repos/me/p/releases/latest",
            "https://api.github.com/repos/you/q/releases/latest",
            "https://api.github.com/repos/alice/plugins/releases/latest",
            "https://api.github.com/repos/bob/tools/releases/latest",
            "https://gitlab.com/c/d/releases/latest",
        ])
    );
    assert_eq!(repo_api_url("https://github.com/alice/plugins"), "https://api.github.com/repos/alice/plugins");
    assert_eq!(repo_api_url("https://api.github.com/repos/x/y"), "https://api.github.com/repos/x/y");
}

#[test]
fn release_selection() {
    let assets = strings(&["mc-x86_64-apple-darwin", "mc-x86_64-unknown-linux-gnu.tar"]);
    assert_eq!(find_asset(&assets, "mc-x86_64-unknown-linux-gnu"), Some(1));
    assert_eq!(find_asset(&assets, "dl"), None);
    assert!(release_has_binary("v1.0", &assets, "mc-x86_64-apple-darwin"));
    assert!(!release_has_binary("", &assets, "mc-x86_64-apple-darwin"));
    assert!(!release_has_binary("v1", &assets, "other"));
    assert!(is_up_to_date("v1.2.0", "1.2.0"));
    assert!(!is_up_to_date("v1.2.1", "1.2.0"));
}

#[test]
fn manifest_and_records() {
    let m = default_manifest("mc", "proto");
    assert_eq!(m.plugin.version, "0.1.0");
    assert_eq!(m.plugin.description, "mc plugin for proto");
    assert_eq!(m.plugin.repository, "https://github.com/proto-cli/plugins/tree/main/mc");
    assert_eq!(m.plugin.commands, vec![("mc".to_string(), "bin/mc".to_string())]);
    let r = installed_from_info(&info("mc", &[("mc", "bin/mc"), ("mcs", "bin/mc")]), "me", "42".to_string());
    assert!(r.installed);
    assert_eq!(r.scope, "me");
    assert_eq!(r.commands, vec!["mc", "mcs"]);
    assert_eq!(r.last_checked, "42");
    let plugins = vec![
        InstalledPlugin { installed: false, ..r.clone_for_test("x") },
        r.clone_for_test("y"),
    ];
    assert_eq!(installed_names(&plugins), vec!["y"]);
}

trait CloneForTest {
    fn clone_for_test(&self, name: &str) -> InstalledPlugin;
}

impl CloneForTest for InstalledPlugin {
    fn clone_for_test(&self, name: &str) -> InstalledPlugin {
        InstalledPlugin {
            name: name.to_string(),
            scope: self.scope.clone(),
            version: self.version.clone(),
            installed: self.installed,
            commands: self.commands.clone(),
            last_checked: self.last_checked.clone(),
        }
    }
}

#[test]
fn repository_listing_and_search() {
    assert!(is_listed_plugin_dir("mc-server", "dir"));
    assert!(!is_listed_plugin_dir(".github", "dir"));
    assert!(!is_listed_plugin_dir("target", "dir"));
    assert!(!is_listed_plugin_dir("README.md", "file"));
    let items = search_items(&strings(&["a", "b"]), &strings(&["b"]));
    assert_eq!(items, strings(&["← Back", "a", "b (installed)"]));
    assert!(contains_name(&strings(&["a", "b"]), "b"));
    assert!(!contains_name(&strings(&["a"]), "c"));
    assert_eq!(picked_plugin(&strings(&["a", "b"]), 0), None);
    assert_eq!(picked_plugin(&strings(&["a", "b"]), 2), Some("b".to_string()));
    let listing = available_listing(&strings(&["a", "b"]), &strings(&["b"]));
    assert_eq!(
        listing,
        strings(&[
            "\n\u{1b}[1m\u{1b}[94;1mAvailable Plugins:\u{1b}[0m\u{1b}[0m",
            "",
            "  \u{1b}[36;1m@proto/\u{1b}[0m \u{1b}[1m\u{1b}[94;1ma\u{1b}[0m\u{1b}[0m",
            "  \u{1b}[36;1m@proto/\u{1b}[0m \u{1b}[1m\u{1b}[94;1mb\u{1b}[0m\u{1b}[0m\u{1b}[92m ✔\u{1b}[0m",
            "\n\u{1b}[2mRun 'proto plugins search' to install interactively.\u{1b}[0m",
        ])
    );
}

fn texts(notes: &[(String, Theme)]) -> Vec<(&str, Theme)> {
    notes.iter().map(|(t, th)| (t.as_str(), *th)).collect()
}

#[test]
fn install_of_an_installed_plugin_does_nothing() {
    let step = install_step(InstallState::CheckingDir, InstallEvent::DirChecked { exists: true }, "@proto/mc", "proto");
    assert!(matches!(step.state, InstallState::Finished));
    assert_eq!(texts(&step.notes), vec![("Plugin @proto/mc is already installed", Theme::Success)]);
    assert!(matches!(step.action, InstallAction::Finish(Ok(()))));
}

#[test]
fn install_without_release_or_cargo_fails() {
    let step = install_step(InstallState::CheckingDir, InstallEvent::DirChecked { exists: false }, "mc", "proto");
    assert_eq!(texts(&step.notes), vec![("Installing mc...", Theme::Header)]);
    assert!(matches!(step.action, InstallAction::FetchRelease));
    let step = install_step(step.state, InstallEvent::ReleaseChecked(Ok(None)), "mc", "proto");
    assert_eq!(texts(&step.notes), vec![("No pre-compiled release found.", Theme::Warn)]);
    assert!(matches!(step.action, InstallAction::CheckCargo));
    let step = install_step(step.state, InstallEvent::CargoChecked { available: false }, "mc", "proto");
    assert!(step.notes.is_empty());
    match step.action {
        InstallAction::Finish(Err(e)) => assert_eq!(e, "No release available and cargo not found. Cannot install mc."),
        _ => panic!("expected a failure"),
    }
    let step = install_step(InstallState::CheckingCargo, InstallEvent::CargoChecked { available: true }, "mc", "proto");
    assert_eq!(texts(&step.notes), vec![("Compiling from source...", Theme::Muted)]);
    assert!(matches!(step.action, InstallAction::Compile));
}

#[test]
fn install_from_a_release_records_the_plugin() {
    let step = install_step(InstallState::FetchingRelease, InstallEvent::ReleaseChecked(Ok(Some("v1.2.0".into()))), "mc", "proto");
    assert_eq!(texts(&step.notes), vec![("Found release v1.2.0", Theme::Muted)]);
    assert!(matches!(step.action, InstallAction::Download));
    let step = install_step(step.state, InstallEvent::BinaryPlaced(Ok(())), "mc", "proto");
    assert!(matches!(step.action, InstallAction::CheckManifest));
    let step = install_step(step.state, InstallEvent::ManifestChecked { exists: false }, "mc", "proto");
    assert!(matches!(step.action, InstallAction::CreateManifest));
    let step = install_step(step.state, InstallEvent::ManifestCreated(Ok(())), "mc", "proto");
    assert!(matches!(step.action, InstallAction::ReadManifest));
    let manifest = info("mc", &[("mcs", "bin/mc"), ("mc2", "bin/mc")]);
    let step = install_step(step.state, InstallEvent::ManifestRead { manifest: Ok(manifest), now: "1700000000".into() }, "mc", "proto");
    match &step.action {
        InstallAction::Record(p) => {
            assert_eq!(p.name, "mc");
            assert_eq!(p.scope, "proto");
            assert_eq!(p.version, "1.0.0");
            assert!(p.installed);
            assert_eq!(p.commands, strings(&["mcs", "mc2"]));
            assert_eq!(p.last_checked, "1700000000");
        }
        _ => panic!("expected a record"),
    }
    let step = install_step(step.state, InstallEvent::Recorded(Ok(())), "mc", "proto");
    assert_eq!(
        texts(&step.notes),
        vec![("Successfully installed mc v1.0.0", Theme::Success), ("Run 'proto mcs --help' to get started", Theme::Muted)]
    );
    assert!(matches!(step.action, InstallAction::Finish(Ok(()))));
    let step = install_step(InstallState::PlacingBinary, InstallEvent::BinaryPlaced(Err("Download failed".into())), "mc", "proto");
    assert!(matches!(step.action, InstallAction::Finish(Err(ref e)) if e == "Download failed"));
}

#[test]
fn update_steps() {
    let step = update_step(UpdateState::LookingUp, UpdateEvent::LookedUp(None), "mc");
    assert!(matches!(step.action, UpdateAction::Finish(Err(ref e)) if e == "Plugin mc is not installed"));
    let record = InstalledPlugin {
        name: "mc".into(),
        scope: "me".into(),
        version: "1.0.0".into(),
        installed: true,
        commands: strings(&["mc"]),
        last_checked: "0".into(),
    };
    let step = update_step(UpdateState::LookingUp, UpdateEvent::LookedUp(Some(record)), "mc");
    assert_eq!(texts(&step.notes), vec![("Checking for updates to mc...", Theme::Header)]);
    assert!(matches!(step.action, UpdateAction::FetchRelease));
    let fetching = || UpdateState::FetchingRelease { version: "1.0.0".into(), scope: "me".into() };
    let step = update_step(fetching(), UpdateEvent::ReleaseChecked(Ok(Some("vv1.0.0".into()))), "mc");
    assert_eq!(texts(&step.notes), vec![("mc is already up to date (v1.0.0)", Theme::Success)]);
    assert!(matches!(step.action, UpdateAction::Finish(Ok(()))));
    let step = update_step(fetching(), UpdateEvent::ReleaseChecked(Ok(None)), "mc");
    assert_eq!(texts(&step.notes), vec![("No release found for mc", Theme::Warn)]);
    let step = update_step(fetching(), UpdateEvent::ReleaseChecked(Ok(Some("v1.1.0".into()))), "mc");
    assert_eq!(texts(&step.notes), vec![("Updating mc from v1.0.0 to v1.1.0", Theme::Muted)]);
    assert!(matches!(step.action, UpdateAction::RemoveOld { ref scope } if scope == "me"));
    let failed = update_step(UpdateState::RemovingOld { scope: "me".into() }, UpdateEvent::OldRemoved(Err("busy".into())), "mc");
    assert!(matches!(failed.action, UpdateAction::Finish(Err(ref e)) if e == "Failed to remove old version: busy"));
    let step = update_step(step.state, UpdateEvent::OldRemoved(Ok(())), "mc");
    assert!(matches!(step.action, UpdateAction::Download));
    let step = update_step(step.state, UpdateEvent::BinaryPlaced(Ok(())), "mc");
    assert!(matches!(step.action, UpdateAction::ReadManifest));
    let mut manifest = info("mc", &[("mc", "bin/mc")]);
    manifest.version = "1.1.0".into();
    let step = update_step(step.state, UpdateEvent::ManifestRead { manifest: Ok(manifest), now: "5".into() }, "mc");
    assert!(matches!(step.action, UpdateAction::Record(ref p) if p.scope == "me" && p.version == "1.1.0" && p.last_checked == "5"));
    let step = update_step(step.state, UpdateEvent::Recorded(Ok(())), "mc");
    assert_eq!(texts(&step.notes), vec![("Updated mc to v1.1.0", Theme::Success)]);
    assert!(matches!(step.action, UpdateAction::Finish(Ok(()))));
}
