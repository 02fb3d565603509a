use proto::cli::{route, version_lines, Cli, Commands, Route};
use proto::commands::alias::{
    alias_block, alias_line, appended_content, current_shell, remove_alias, scan_aliases, session_alias_command,
    valid_alias_name, AliasShell,
};
use proto::commands::git::{branch_listing, repo_stats, RepoFacts, count_changed_files, git_log_args, git_save_args, is_current_branch_line, status_text};
use proto::commands::help::{
    command_entry, command_help, general_help, help_candidates, help_topic, plugin_entries, plugins_serving, unknown_command, HelpAction,
    HelpTopic,
};
use proto::commands::manage::{
    check_checksum, checksum_url, detect_target, expected_checksum, release_asset_name,
    release_download_url, sha256_hex, to_hex_lower, trim_end_matches_str, ChecksumCheck,
};
use proto::commands::pkg::{
    build_install_args, build_list_args, build_remove_args, build_search_args, build_update_args,
    exit_error_message, PkgAction,
};
use proto::commands::plugins::{add_repo, plugin_listing};
use proto::commands::setup::{
    completion_plan, generate_bash_completion, generate_fish_completion, generate_zsh_completion, record_setup,
    CompletionDir, SetupAnswers, BASH_COMPLETION,
};
use proto::completions::{completion_files, completion_install_lines, parse_shell, unsupported_shell_message, Shell};
use proto::plugins::InstalledPlugin;
use proto::utils::{PackageManager, ProtoConfig};

fn strings(v: &[&str]) -> Vec<String> {
    v.iter().map(|s| s.to_string()).collect()
}

#[test]
fn package_manager_command_lines() {
    let pkgs = strings(&["vim", "git"]);
    assert_eq!(build_install_args(PackageManager::Pacman, &pkgs), strings(&["-S", "--noconfirm", "vim", "git"]));
    assert_eq!(build_install_args(PackageManager::Apt, &pkgs), strings(&["install", "-y", "vim", "git"]));
    assert_eq!(build_install_args(PackageManager::Apk, &pkgs), strings(&["add", "vim", "git"]));
    assert_eq!(build_install_args(PackageManager::Unknown, &pkgs), Vec::<String>::new());
    assert_eq!(build_remove_args(PackageManager::Paru, &pkgs), strings(&["-R", "--noconfirm", "vim", "git"]));
    assert_eq!(build_remove_args(PackageManager::Apk, &pkgs), strings(&["del", "vim", "git"]));
    assert_eq!(build_remove_args(PackageManager::Dnf, &pkgs), strings(&["remove", "-y", "vim", "git"]));
    assert_eq!(build_search_args(PackageManager::Yay, "foo"), strings(&["-Ss", "foo"]));
    assert_eq!(build_search_args(PackageManager::Zypper, "foo"), strings(&["search", "foo"]));
    assert_eq!(build_search_args(PackageManager::Unknown, "foo"), Vec::<String>::new());
    assert_eq!(build_update_args(PackageManager::Apt, Some("vim")), ("apt".to_string(), strings(&["install", "--only-upgrade", "-y", "vim"])));
    assert_eq!(build_update_args(PackageManager::Apt, None), ("apt".to_string(), strings(&["upgrade", "-y"])));
    assert_eq!(build_update_args(PackageManager::Yay, None), ("yay".to_string(), strings(&["-Syu", "--noconfirm"])));
    assert_eq!(build_update_args(PackageManager::Apk, Some("x")), ("apk".to_string(), strings(&["upgrade", "x"])));
    assert_eq!(build_update_args(PackageManager::Unknown, None), ("echo".to_string(), strings(&["No package manager"])));
    assert_eq!(build_list_args(PackageManager::Apt), ("dpkg-query".to_string(), strings(&["-W", "-f", "${Package} ${Version}\n"])));
    assert_eq!(build_list_args(PackageManager::Zypper), ("rpm".to_string(), strings(&["-qa"])));
    assert_eq!(exit_error_message("dnf"), "dnf exited with error");
}

#[test]
fn alias_lines_per_shell() {
    assert_eq!(alias_line(AliasShell::Bash, "ll", "ls -l", ""), "alias ll='ls -l'");
    assert_eq!(alias_line(AliasShell::Zsh, "ll", "ls -l", "long"), "alias ll='ls -l' # long");
    assert_eq!(alias_line(AliasShell::Fish, "ll", "ls -l", "long"), "alias ll 'ls -l' --description 'long'");
    assert_eq!(alias_line(AliasShell::Fish, "ll", "ls -l", ""), "alias ll='ls -l'");
    assert_eq!(session_alias_command("fish", "ll", "ls"), "alias ll 'ls'");
    assert_eq!(session_alias_command("bash", "ll", "ls"), "alias ll='ls'");
    assert_eq!(current_shell("/usr/bin/zsh"), "zsh");
    assert_eq!(current_shell("/bin/fish/"), "fish");
    assert_eq!(current_shell(""), "");
    assert_eq!(alias_block("alias a='b'"), "\n# proto alias\nalias a='b'\n");
    assert!(valid_alias_name("ll"));
    assert!(!valid_alias_name("l l"));
    assert!(!valid_alias_name(""));
    assert_eq!(AliasShell::Fish.config_file(), ".config/fish/config.fish");
}

#[test]
fn appending_an_alias_twice_writes_it_once() {
    let block = alias_block("alias ll='ls -l'");
    let first = appended_content("export X=1\n", &block).unwrap();
    assert_eq!(first, "export X=1\n\n# proto alias\nalias ll='ls -l'\n");
    assert_eq!(appended_content(&first, &block), None);
}

#[test]
fn listing_finds_aliases_after_markers() {
    let content = "x\n# proto alias\nalias ll='ls -l'\n# proto alias\n  abbr g git\nalias no=1\n";
    let (found, aliases) = scan_aliases(content);
    assert!(found);
    assert_eq!(aliases, strings(&["alias ll='ls -l'", "alias no=1"]));
    let (found, aliases) = scan_aliases("# proto alias\nabbr g git");
    assert!(found);
    assert_eq!(aliases, strings(&["abbr g git"]));
    let (found, aliases) = scan_aliases("alias x=y\n");
    assert!(!found);
    assert!(aliases.is_empty());
}

#[test]
fn removal_drops_the_marker_and_the_alias() {
    let content = "export X=1\n\n# proto alias\nalias ll='ls -la'\n";
    let (new, n) = remove_alias(content, "ll");
    assert_eq!(n, 1);
    assert_eq!(new, "export X=1\n");
    let content = "# proto alias\nalias ll='ls -l'\n# proto alias\nalias gs='git status'\n";
    let (new, n) = remove_alias(content, "gs");
    assert_eq!(n, 1);
    assert_eq!(new, "# proto alias\nalias ll='ls -l'\n");
    let fish = "# proto alias\nalias ll 'ls -l' --description 'long'\n";
    assert_eq!(remove_alias(fish, "ll"), ("\n".to_string(), 1));
    let (new, n) = remove_alias("# proto alias\nalias lll='ls'\n", "ll");
    assert_eq!(n, 0);
    assert_eq!(new, "# proto alias\nalias lll='ls'\n");
    let (new, n) = remove_alias("a\nb\n", "zz");
    assert_eq!(n, 0);
    assert_eq!(new, "a\nb\n");
    let (new, n) = remove_alias("a\nb\n# proto alias", "zz");
    assert_eq!(n, 0);
    assert_eq!(new, "a\nb\n# proto alias\n");
}

#[test]
fn removing_a_created_alias_restores_the_file() {
    let line = alias_line(AliasShell::Bash, "ll", "ls -la", "");
    for existing in ["export X=1\n", "a\n\nb\n"] {
        let content = format!("{}{}", existing, alias_block(&line));
        assert_eq!(remove_alias(&content, "ll"), (existing.to_string(), 1));
    }
}

#[test]
fn git_helpers() {
    let facts = RepoFacts {
        branch: Some("main".into()),
        remote: None,
        commits: Some("12".into()),
        shortlog: Some("  3\tAna\n  1\tBo".into()),
        files: Some("a\nb\nc".into()),
        porcelain: Some(" M a\n".into()),
    };
    assert_eq!(
        repo_stats(&facts, false),
        vec![
            "        Branch: main".to_string(),
            "       Commits: 12".to_string(),
            "  Contributors: 2".to_string(),
            " Tracked files: 3".to_string(),
            "        Status: \u{1b}[93m1 files\u{1b}[0m".to_string(),
        ]
    );
    let listing = branch_listing("* main 1a2b fix\n  dev  3c4d wip\n\n", "main");
    assert_eq!(
        listing,
        vec![
            "\u{1b}[36;1m▶\u{1b}[0m \u{1b}[36;1m* main 1a2b fix\u{1b}[0m".to_string(),
            "  \u{1b}[2mdev  3c4d wip\u{1b}[0m".to_string(),
        ]
    );
    assert_eq!(
        git_log_args(10),
        strings(&["log", "--graph", "--color=always", "-n10", "--format=format:%h %<(20,trunc)%an %s %C(auto)%d"])
    );
    assert_eq!(git_save_args("wip"), strings(&["commit", "-m", "wip"]));
    assert_eq!(count_changed_files(" M a\n?? b\n\n"), 2);
    assert_eq!(count_changed_files(""), 0);
    assert_eq!(status_text(0, false), "clean");
    assert_eq!(status_text(3, false), "3 files");
    assert_eq!(status_text(3, true), "\u{1b}[93m3 files\u{1b}[0m");
    assert!(is_current_branch_line("* main 123 msg", "main"));
    assert!(is_current_branch_line("dev 1 x", "dev"));
    assert!(!is_current_branch_line("dev 1 x", "main"));
    assert!(is_current_branch_line("dev 1 x", ""));
}

#[test]
fn help_topics_and_entries() {
    assert_eq!(help_topic("GIT"), HelpTopic::Git);
    assert_eq!(help_topic("plugins"), HelpTopic::Plugins);
    assert_eq!(help_topic("mc"), HelpTopic::Other);
    let e = command_entry("pkg", "<action>", "Wrapper", false);
    assert_eq!(e, format!("{:40}{}", "  pkg <action>", "Wrapper"));
    let e = command_entry("system", "", "Info", false);
    assert_eq!(e, format!("{:40}{}", "  system          ", "Info"));
    let colored = command_entry("git", "", "G", true);
    assert_eq!(colored, format!("{:40}{}", "  \u{1b}[36;1mgit\u{1b}[0m          ", "\u{1b}[2mG\u{1b}[0m"));
    let plugins = vec![
        InstalledPlugin { name: "mc".into(), scope: "proto".into(), version: "1".into(), installed: true, commands: strings(&["mc", "mcs"]), last_checked: "0".into() },
        InstalledPlugin { name: "off".into(), scope: "me".into(), version: "1".into(), installed: false, commands: strings(&["x"]), last_checked: "0".into() },
    ];
    assert_eq!(plugin_entries(&plugins), vec![("mc".to_string(), "@proto/mc".to_string()), ("mcs".to_string(), "@proto/mc".to_string())]);
    assert_eq!(plugins_serving(&plugins, "mcs"), vec![0]);
    assert_eq!(plugins_serving(&plugins, "x"), Vec::<usize>::new());
    assert_eq!(help_candidates(&plugins, "MCS"), vec![0]);
}

#[test]
fn help_pages() {
    let git = command_help(HelpTopic::Git);
    assert_eq!(git.len(), 8);
    assert_eq!(git[0], "\u{1b}[94;1mproto git\u{1b}[0m");
    assert_eq!(git[1], "  Git workflow enhancements.\n");
    assert_eq!(git[2], "\u{1b}[94;1mUSAGE:\u{1b}[0m");
    assert_eq!(command_help(HelpTopic::Pkg)[9], "  pacman, yay, paru, apt, dnf, zypper, apk");
    assert!(command_help(HelpTopic::Other).is_empty());

    let plain = general_help(&Vec::new(), false);
    assert_eq!(plain.len(), 19);
    assert_eq!(plain[0], proto::style::proto_banner(false));
    assert_eq!(plain[1], "\u{1b}[1m\u{1b}[94;1mProto CLI\u{1b}[0m\u{1b}[0m\n");
    assert_eq!(plain[6], command_entry("help", "[command]", "Show this help or help for a specific command", true));
    assert_eq!(plain[14], "\n\u{1b}[2mRun 'proto plugins list' to see available plugins.\u{1b}[0m");

    let plugins = vec![InstalledPlugin {
        name: "mc".into(),
        scope: "proto".into(),
        version: "1".into(),
        installed: true,
        commands: strings(&["mc"]),
        last_checked: "0".into(),
    }];
    let with_plugin = general_help(&plugins, true);
    assert_eq!(with_plugin.len(), 21);
    assert_eq!(with_plugin[14], "\n\u{1b}[94;1mPLUGINS:\u{1b}[0m");
    assert_eq!(with_plugin[15], command_entry("mc", "", "@proto/mc", true));

    assert_eq!(
        unknown_command("FOO", false),
        vec![
            "✗  Unknown command: '\u{1b}[36;1mfoo\u{1b}[0m'".to_string(),
            "Run \u{1b}[36;1mproto help\u{1b}[0m to see all available commands.".to_string(),
        ]
    );
}

#[test]
fn self_update_helpers() {
    assert_eq!(detect_target("x86_64", "linux"), "x86_64-unknown-linux-gnu");
    assert_eq!(detect_target("aarch64", "windows"), "aarch64-pc-windows-msvc.exe");
    assert_eq!(detect_target("riscv64", "linux"), "");
    assert_eq!(release_asset_name("x86_64-pc-windows-msvc.exe", true), "proto-x86_64-pc-windows-msvc.exe");
    assert_eq!(release_asset_name("x86_64-apple-darwin", false), "proto-x86_64-apple-darwin");
    assert_eq!(trim_end_matches_str("a.exe.exe", ".exe"), "a");
    let url = release_download_url("v1.0.0", "proto-x");
    assert_eq!(url, "https://github.com/proto-cli/proto-cli/releases/download/v1.0.0/proto-x");
    assert_eq!(checksum_url(&url), format!("{}.sha256", url));
    assert_eq!(expected_checksum("  ABCdef  proto-x\n"), "abcdef");
    assert_eq!(expected_checksum("   "), "");
    assert_eq!(to_hex_lower(&[0x00, 0xab, 0x0f]), "00ab0f");
    assert_eq!(sha256_hex(b"abc"), "ba7816bf8f01cfea414140de5dae2223b00361a396177a9cb410ff61f20015ad");
    assert_eq!(check_checksum("", "x"), ChecksumCheck::Unparsable);
    assert_eq!(check_checksum("ab", "ab"), ChecksumCheck::Verified);
    assert_eq!(check_checksum("ab", "cd"), ChecksumCheck::Mismatch);
}

#[test]
fn setup_and_configuration() {
    let (dir, file, script) = completion_plan("zsh").unwrap();
    assert_eq!(dir, CompletionDir::Config);
    assert_eq!(file, "_proto");
    assert!(script.starts_with("#compdef proto"));
    let (dir, file, _) = completion_plan("fish").unwrap();
    assert_eq!(dir, CompletionDir::FishCompletions);
    assert_eq!(file, "proto.fish");
    assert_eq!(completion_plan("bash").unwrap().2, BASH_COMPLETION);
    assert!(completion_plan("nu").is_none());
    let mut c = ProtoConfig::default();
    record_setup(&mut c, SetupAnswers { color: false, default_pm: Some("apt".into()), completions_installed: false, install_dir: String::new() });
    assert_eq!(c.color, Some(false));
    assert_eq!(c.default_pm.as_deref(), Some("apt"));
    assert_eq!(c.completions_installed, Some(false));
    assert_eq!(c.install_dir, None);
    assert!(add_repo(&mut c, "https://github.com/me/p"));
    assert!(!add_repo(&mut c, "https://github.com/me/p"));
    assert_eq!(c.custom_repos, Some(strings(&["https://github.com/me/p"])));
    assert_eq!(parse_shell("fish"), Some(Shell::Fish));
    assert_eq!(parse_shell("pwsh"), None);
    assert_eq!(unsupported_shell_message("pwsh"), "Unsupported shell: pwsh");
}

fn cli(command: Option<Commands>) -> Cli {
    Cli { command, help_flag: false, version_flag: false, no_color: false, quiet: false, json: false }
}

#[test]
fn command_line_routing() {
    let mut c = cli(None);
    c.version_flag = true;
    c.help_flag = true;
    assert!(matches!(route(c), Route::Version));
    assert!(matches!(route(cli(None)), Route::Help(HelpAction::All)));
    match route(cli(Some(Commands::Help { command: Some("git".into()) }))) {
        Route::Help(HelpAction::For { command }) => assert_eq!(command, "git"),
        _ => panic!("expected help for git"),
    }
    match route(cli(Some(Commands::Pkg { action: PkgAction::Search { query: "q".into() } }))) {
        Route::Pkg(PkgAction::Search { query }) => assert_eq!(query, "q"),
        _ => panic!("expected pkg search"),
    }
    match route(cli(Some(Commands::External(strings(&["@me/tool", "--x", "y"]))))) {
        Route::Plugin { command, scope, name, args } => {
            assert_eq!(command, "@me/tool");
            assert_eq!(scope, "me");
            assert_eq!(name, "tool");
            assert_eq!(args, strings(&["--x", "y"]));
        },
        _ => panic!("expected a plugin"),
    }
    assert!(matches!(route(cli(Some(Commands::External(vec![])))), Route::Nothing));
    assert!(matches!(route(cli(Some(Commands::Completions { shell: "zsh".into(), install: true }))), Route::InstallCompletions));
}

#[test]
fn version_screen() {
    assert_eq!(
        version_lines("1.2.3", false),
        vec![
            proto::style::proto_banner(false),
            "\u{1b}[1m\u{1b}[94;1mproto\u{1b}[0m\u{1b}[0m \u{1b}[2m1.2.3\u{1b}[0m".to_string(),
            "\u{1b}[2mYour friendly protogen CLI companion\u{1b}[0m".to_string(),
        ]
    );
}

#[test]
fn installed_plugin_listing() {
    let empty = plugin_listing(&Vec::new());
    assert_eq!(empty.len(), 9);
    assert_eq!(empty[0], "\u{1b}[1m\u{1b}[94;1mInstalled Plugins:\u{1b}[0m\u{1b}[0m");
    assert_eq!(empty[1], "");
    assert_eq!(empty[2], "  \u{1b}[2mNo plugins installed.\u{1b}[0m");
    let info = proto::plugins::PluginInfo {
        name: "mc".into(),
        scope: "proto".into(),
        version: "1.0.0".into(),
        description: "Minecraft".into(),
        author: String::new(),
        repository: String::new(),
        commands: vec![("mc".into(), "bin/mc".into()), ("mcs".into(), "bin/mc".into())],
    };
    let listing = plugin_listing(&vec![info]);
    assert_eq!(listing.len(), 10);
    assert_eq!(
        listing[2],
        "  \u{1b}[36;1m@proto/\u{1b}[0m \u{1b}[1m\u{1b}[94;1mmc\u{1b}[0m\u{1b}[0m \u{1b}[2mv1.0.0\u{1b}[0m"
    );
    assert_eq!(listing[3], "    \u{1b}[2mCommands:\u{1b}[0m \u{1b}[92mmc, mcs\u{1b}[0m");
    assert_eq!(listing[4], "    \u{1b}[2mMinecraft\u{1b}[0m");
    assert_eq!(listing[5], "");
}

#[test]
fn completion_install_locations() {
    let files = completion_files("/c/proto");
    assert_eq!(files.dir, "/c/proto/completions");
    assert_eq!(files.bash, "/c/proto/completions/proto.bash");
    assert_eq!(files.zsh, "/c/proto/completions/proto.zsh");
    assert_eq!(files.fish_dir, "/c/proto/completions/fish");
    assert_eq!(files.fish, "/c/proto/completions/fish/proto.fish");
    let lines = completion_install_lines(&files);
    assert_eq!(lines.len(), 12);
    assert_eq!(lines[2], "  \u{1b}[2mBash:\u{1b}[0m /c/proto/completions/proto.bash");
    assert_eq!(lines[3], "    \u{1b}[36;1msource /c/proto/completions/proto.bash\u{1b}[0m");
    assert_eq!(lines[6], "    \u{1b}[36;1mfpath=(/c/proto/completions $fpath)\u{1b}[0m");
    assert_eq!(lines[11], "    \u{1b}[36;1mcp /c/proto/completions/fish/proto.fish ~/.config/fish/completions/proto.fish\u{1b}[0m");
}

#[test]
fn listing_shows_a_created_alias() {
    let line = alias_line(AliasShell::Zsh, "gs", "git status", "status");
    for existing in ["", "export X=1", "export X=1\n", "# proto alias\r\n"] {
        let content = format!("{}{}", existing, alias_block(&line));
        let (found, aliases) = scan_aliases(&content);
        assert!(found);
        assert_eq!(aliases.last().map(|a| a.as_str()), Some("alias gs='git status' # status"));
    }
}

#[test]
fn completions_offer_every_built_in_command() {
    let bash = generate_bash_completion();
    let list = bash.lines().find(|l| l.trim_start().starts_with("local commands=")).unwrap();
    let words: Vec<&str> = list.trim().trim_start_matches("local commands=").trim_matches('"').split(' ').collect();
    let zsh = generate_zsh_completion();
    let fish = generate_fish_completion();
    for cmd in ["help", "system", "pkg", "git", "setup", "alias", "manage", "plugins"] {
        assert!(words.contains(&cmd), "bash lacks {}", cmd);
        assert!(zsh.contains(&format!("'{}:", cmd)), "zsh lacks {}", cmd);
        assert!(fish.contains(&format!("__fish_use_subcommand\" -a {} ", cmd)), "fish lacks {}", cmd);
    }
}

#[test]
fn shell_names_follow_path_file_names() {
    let samples = [
        "/usr/bin/zsh", "/bin/fish/", "zsh", "", "/", "//", ".", "..", "./", "a/.", "a/..", "a/./b", "a//b//",
        "./bash", "/usr/bin/.", "...", "a/...", ".hidden", "x/y/.z", "/usr/bin/../bash", "a/b/./",
    ];
    for s in samples {
        let expected = std::path::Path::new(s).file_name().map(|n| n.to_string_lossy().into_owned()).unwrap_or_default();
        assert_eq!(current_shell(s), expected, "path {:?}", s);
    }
}
