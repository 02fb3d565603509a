use proto::commands::system::package_lines;
use proto::globals::{flags_from_args, no_color_requested, Flags};
use proto::style::{apply, divider, error, header, label_value, muted, proto_banner, section, success, warn, failure, Theme};
use proto::utils::{
    config_dir, config_file, count_lines, join_path, default_package_manager, detect_package_managers, distro_name,
    get_arch, get_de_wm, get_kernel, get_package_count, get_shell, get_terminal, get_uptime,
    package_count_command, package_manager_candidates, PackageManager, ProtoConfig,
};

fn strings(v: &[&str]) -> Vec<String> {
    v.iter().map(|s| s.to_string()).collect()
}

#[test]
fn styled_text_uses_ansi_escapes() {
    assert_eq!(apply("hi", Theme::Header, true), "\u{1b}[94;1mhi\u{1b}[0m");
    assert_eq!(apply("hi", Theme::Muted, true), "\u{1b}[2mhi\u{1b}[0m");
    assert_eq!(apply("hi", Theme::Value, true), "\u{1b}[97mhi\u{1b}[0m");
    assert_eq!(apply("hi", Theme::Bold, true), "\u{1b}[1mhi\u{1b}[0m");
    assert_eq!(apply("hi", Theme::Error, false), "hi");
    assert_eq!(success("done", true), "\u{1b}[92m✔\u{1b}[0m done");
    assert_eq!(warn("careful", false), "⚠ careful");
    assert_eq!(error("", false), "✗ ");
    assert_eq!(muted("m", false), "m");
    assert_eq!(header("Proto Update", false), "◆ Proto Update");
    assert_eq!(failure("no", true), "\u{1b}[91m✗\u{1b}[0m \u{1b}[91mno\u{1b}[0m");
}

#[test]
fn layout_helpers() {
    assert_eq!(label_value("OS", "Arch", false), "            OS: Arch");
    assert_eq!(divider(false), "─".repeat(40));
    assert_eq!(section("Système", false), format!("\n{}\n{}\n", "Système", "─".repeat("Système".len())));
    let banner = proto_banner(false);
    assert_eq!(banner.lines().count(), 7);
    assert!(banner.starts_with("    ⣀⡀\n"));
}

#[test]
fn package_manager_detection() {
    assert_eq!(package_manager_candidates().len(), 7);
    let found = detect_package_managers(&vec![true, false, true, false, false, false, false]);
    assert_eq!(found, vec![PackageManager::Pacman, PackageManager::Paru]);
    assert_eq!(default_package_manager(&found), PackageManager::Paru);
    let none = detect_package_managers(&vec![false; 7]);
    assert_eq!(none, vec![PackageManager::Unknown]);
    assert_eq!(default_package_manager(&none), PackageManager::Unknown);
    let apt = detect_package_managers(&vec![false, false, false, true, true]);
    assert_eq!(default_package_manager(&apt), PackageManager::Apt);
    assert_eq!(default_package_manager(&vec![]), PackageManager::Unknown);
    assert_eq!(PackageManager::Zypper.name(), "zypper");
    assert!(PackageManager::Yay.is_aur_helper());
    assert!(!PackageManager::Pacman.is_aur_helper());
}

#[test]
fn package_counts() {
    assert_eq!(package_count_command(PackageManager::Yay), Some(("pacman".to_string(), strings(&["-Q"]))));
    assert_eq!(package_count_command(PackageManager::Unknown), None);
    assert_eq!(get_package_count(Some("a 1\nb 2".to_string())), Some(2));
    assert_eq!(get_package_count(None), None);
    assert_eq!(count_lines("x\ny\n"), 2);
}

#[test]
fn uptime_text() {
    assert_eq!(get_uptime(Some(0)), "just now");
    assert_eq!(get_uptime(Some(59)), "just now");
    assert_eq!(get_uptime(Some(3 * 86400 + 2 * 3600 + 5 * 60 + 7)), "3d 2h 5m");
    assert_eq!(get_uptime(Some(86400 + 60)), "1d 1m");
    assert_eq!(get_uptime(None), "Unknown");
}

#[test]
fn system_descriptions() {
    let os = "NAME=\"Arch\"\nPRETTY_NAME=\"Arch Linux\"\nID=arch\n";
    assert_eq!(distro_name(Some(os.to_string())), "Arch Linux");
    assert_eq!(distro_name(Some("ID=x\n".to_string())), "Unknown");
    assert_eq!(distro_name(None), "Unknown");
    assert_eq!(get_shell(Some("/usr/bin/zsh".to_string())), "zsh");
    assert_eq!(get_shell(None), "Unknown");
    assert_eq!(get_shell(Some("/bin/".to_string())), "");
    assert_eq!(get_de_wm(&vec![None, Some(String::new()), Some("KDE".to_string())]), "kde");
    assert_eq!(get_de_wm(&vec![None, None, None]), "tty");
    assert_eq!(get_terminal(None), "Unknown");
    assert_eq!(get_kernel(Some("6.1.0".to_string())), "6.1.0");
    assert_eq!(get_arch(None), "Unknown");
}

#[test]
fn configuration_locations_and_defaults() {
    assert_eq!(config_dir(Some("/home/u/.config".to_string())), "/home/u/.config/proto");
    assert_eq!(config_dir(None), "~/.config/proto");
    assert_eq!(config_file("/c/proto"), "/c/proto/config.toml");
    assert_eq!(join_path("/c/", "bin"), "/c/bin");
    assert_eq!(join_path("", "bin"), "bin");
    assert_eq!(join_path("/c", "/usr/bin"), "/usr/bin");
    let c = ProtoConfig::default();
    assert_eq!(c.color, Some(true));
    assert_eq!(c.completions_installed, Some(false));
    assert!(c.default_pm.is_none() && c.install_dir.is_none() && c.custom_repos.is_none());
}

#[test]
fn output_switches() {
    let f = flags_from_args(&strings(&["proto", "git", "-q"]));
    assert!(f.is_quiet());
    assert!(!f.is_json());
    let f = flags_from_args(&strings(&["proto", "--json"]));
    assert!(!f.quiet && f.json);
    let mut g = Flags::new();
    g.set_quiet(true);
    g.set_json(true);
    assert!(g.is_quiet() && g.is_json());
    assert!(no_color_requested(&strings(&["proto", "--no-color"])));
    assert!(!no_color_requested(&strings(&["proto"])));
}

#[test]
fn package_section() {
    let pms = vec![PackageManager::Pacman, PackageManager::Yay];
    assert_eq!(
        package_lines(&pms, &vec![Some(812), None], false),
        vec!["   pacman pkgs: 812".to_string()]
    );
    assert_eq!(
        package_lines(&vec![PackageManager::Unknown], &vec![None], false),
        vec!["      Packages: Could not detect package manager".to_string()]
    );
}
