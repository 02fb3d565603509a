use proto::plugins::registry::{add_plugin, find_plugin_for_command, get_plugin, list_plugins, remove_plugin, PluginRegistry};
use proto::plugins::{parse_plugin_ref, plugin_dir, plugins_dir, registry_file, InstalledPlugin};

fn rec(name: &str, scope: &str, version: &str, installed: bool, cmds: &[&str]) -> InstalledPlugin {
    InstalledPlugin {
        name: name.to_string(),
        scope: scope.to_string(),
        version: version.to_string(),
        installed,
        commands: cmds.iter().map(|c| c.to_string()).collect(),
        last_checked: "0".to_string(),
    }
}

fn names(r: &PluginRegistry) -> Vec<String> {
    r.plugins.iter().map(|p| p.name.clone()).collect()
}

#[test]
fn plugin_references() {
    assert_eq!(parse_plugin_ref("@alice/tool"), ("alice".to_string(), "tool".to_string()));
    assert_eq!(parse_plugin_ref("@alice/a/b"), ("alice".to_string(), "a/b".to_string()));
    assert_eq!(parse_plugin_ref("@tool"), ("proto".to_string(), "tool".to_string()));
    assert_eq!(parse_plugin_ref("mc-server"), ("proto".to_string(), "mc-server".to_string()));
    assert_eq!(parse_plugin_ref("@/x"), ("".to_string(), "x".to_string()));
    assert_eq!(parse_plugin_ref(""), ("proto".to_string(), "".to_string()));
}

#[test]
fn plugin_paths() {
    assert_eq!(plugins_dir("/c/proto"), "/c/proto/plugins");
    assert_eq!(registry_file("/c/proto/"), "/c/proto/registry.toml");
    assert_eq!(plugin_dir("/c/proto", "proto", "mc"), "/c/proto/plugins/proto-mc");
    assert_eq!(plugin_dir("", "a", "b"), "plugins/a-b");
}

#[test]
fn add_then_get_finds_the_plugin() {
    let mut r = PluginRegistry::default();
    add_plugin(&mut r, rec("mc", "proto", "1.0.0", true, &["mc"]));
    add_plugin(&mut r, rec("dl", "bob", "0.1.0", true, &["download"]));
    let got = get_plugin(r, "mc").unwrap();
    assert_eq!(got.version, "1.0.0");
    assert_eq!(got.scope, "proto");
}

#[test]
fn add_refreshes_existing_record_keeping_scope() {
    let mut r = PluginRegistry::default();
    add_plugin(&mut r, rec("mc", "proto", "1.0.0", true, &["mc"]));
    add_plugin(&mut r, rec("mc", "other", "2.0.0", false, &["mc", "mcx"]));
    assert_eq!(r.plugins.len(), 1);
    let p = &r.plugins[0];
    assert_eq!(p.scope, "proto");
    assert_eq!(p.version, "2.0.0");
    assert!(!p.installed);
    assert_eq!(p.commands, vec!["mc", "mcx"]);
}

#[test]
fn adding_twice_is_adding_once() {
    let mut once = PluginRegistry::default();
    add_plugin(&mut once, rec("a", "s", "1", true, &["x"]));
    add_plugin(&mut once, rec("b", "s", "1", true, &["y"]));
    let mut twice = PluginRegistry::default();
    add_plugin(&mut twice, rec("a", "s", "1", true, &["x"]));
    add_plugin(&mut twice, rec("b", "s", "1", true, &["y"]));
    add_plugin(&mut twice, rec("b", "s", "1", true, &["y"]));
    assert_eq!(names(&once), names(&twice));
    assert_eq!(twice.plugins[1].commands, vec!["y"]);
}

#[test]
fn remove_drops_every_record_of_that_name() {
    let mut r = PluginRegistry { plugins: vec![rec("a", "s", "1", true, &[]), rec("b", "s", "1", true, &[]), rec("a", "t", "2", true, &[])] };
    remove_plugin(&mut r, "a");
    assert_eq!(names(&r), vec!["b"]);
    remove_plugin(&mut r, "zzz");
    assert_eq!(names(&r), vec!["b"]);
    assert!(get_plugin(r, "a").is_none());
}

#[test]
fn lookup_takes_the_first_record() {
    let r = PluginRegistry { plugins: vec![rec("a", "s", "1", true, &[]), rec("a", "t", "2", true, &[])] };
    assert_eq!(get_plugin(r, "a").unwrap().scope, "s");
}

#[test]
fn command_lookup_skips_uninstalled_plugins() {
    let r = PluginRegistry {
        plugins: vec![rec("old", "s", "1", false, &["go"]), rec("new", "s", "1", true, &["run", "go"])],
    };
    assert_eq!(find_plugin_for_command(r, "go").unwrap().name, "new");
    let r2 = PluginRegistry { plugins: vec![rec("old", "s", "1", false, &["go"])] };
    assert!(find_plugin_for_command(r2, "go").is_none());
    let r3 = PluginRegistry { plugins: vec![rec("a", "s", "1", true, &["x"])] };
    assert_eq!(list_plugins(r3).len(), 1);
}
