use moon_nix::config::NixToolchainConfig;
use moon_nix::env::EnvFiles;
use moon_nix::markers::{no_markers, record_marker, Marker};
use moon_nix::paths::{project_id_from_target, task_project_root};
use moon_nix::toolchain::{extend_task_command, initialize_toolchain, register_toolchain};

fn config(use_flake: bool, use_shell_nix: bool, use_flox: bool, use_devenv: bool) -> NixToolchainConfig {
    NixToolchainConfig {
        use_flake,
        use_shell_nix,
        use_flox,
        use_devenv,
        flox_environment: None,
        version: None,
    }
}

fn dir_with(markers: &[Marker]) -> EnvFiles {
    let mut files = no_markers();
    for marker in markers {
        record_marker(&mut files, *marker, true);
    }
    files
}

fn args(list: &[&str]) -> Vec<String> {
    list.iter().map(|s| s.to_string()).collect()
}

#[test]
fn registration_lists() {
    let reg = register_toolchain("1.2.3");
    assert_eq!(reg.name, "Nix");
    assert_eq!(reg.plugin_version, "1.2.3");
    assert_eq!(
        reg.config_file_globs,
        args(&[
            "flake.nix",
            "flake.lock",
            "shell.nix",
            "default.nix",
            ".envrc",
            "devenv.nix",
            "devenv.lock",
            "devenv.yaml",
            ".flox/env.json",
            ".flox/env.toml",
        ])
    );
    assert_eq!(reg.exe_names, args(&["nix", "nix-shell", "devenv", "flox"]));
    assert_eq!(reg.lock_file_names, args(&["flake.lock", "devenv.lock"]));
    assert_eq!(
        reg.manifest_file_names,
        args(&["flake.nix", "shell.nix", "devenv.nix", "devenv.yaml"])
    );
    assert_eq!(reg.vendor_dir_name.as_deref(), Some(".devenv/profile/bin"));
}

#[test]
fn initialization_prompts() {
    let prompts = initialize_toolchain();
    let seen: Vec<(&str, &str, bool)> = prompts
        .iter()
        .map(|p| (p.setting.as_str(), p.question.as_str(), p.default))
        .collect();
    assert_eq!(
        seen,
        vec![
            ("useFlake", "Enable automatic detection and usage of <file>flake.nix</file>?", true),
            ("useShellNix", "Enable automatic detection and usage of <file>shell.nix</file>?", false),
            ("useFlox", "Enable automatic detection and usage of Flox environments?", false),
            ("useDevenv", "Enable automatic detection and usage of devenv?", false),
        ]
    );
}

#[test]
fn extend_with_flake() {
    let ext = extend_task_command(
        &config(true, true, true, true),
        &dir_with(&[Marker::FlakeNix, Marker::ShellNix]),
        "cargo".into(),
        args(&["build", "--release"]),
    );
    assert_eq!(ext.command.as_deref(), Some("nix"));
    assert_eq!(
        ext.prepend_args,
        Some(args(&["develop", "--command", "cargo", "build", "--release"]))
    );
}

#[test]
fn extend_prefers_devenv_over_flake() {
    let ext = extend_task_command(
        &config(true, true, true, true),
        &dir_with(&[Marker::FlakeNix, Marker::DevenvNix]),
        "cargo".into(),
        args(&["build"]),
    );
    assert_eq!(ext.command.as_deref(), Some("devenv"));
    assert_eq!(ext.prepend_args, Some(args(&["shell", "--", "cargo", "build"])));
}

#[test]
fn extend_with_devenv() {
    let ext = extend_task_command(
        &config(false, true, true, true),
        &dir_with(&[Marker::FlakeNix, Marker::DevenvYaml]),
        "npm".into(),
        args(&["test"]),
    );
    assert_eq!(ext.command.as_deref(), Some("devenv"));
    assert_eq!(ext.prepend_args, Some(args(&["shell", "--", "npm", "test"])));
}

#[test]
fn extend_with_flox() {
    let ext = extend_task_command(
        &config(true, true, true, true),
        &dir_with(&[Marker::FloxDir]),
        "make".into(),
        vec![],
    );
    assert_eq!(ext.command.as_deref(), Some("flox"));
    assert_eq!(ext.prepend_args, Some(args(&["activate", "--", "make"])));
}

#[test]
fn extend_with_shell_nix() {
    let ext = extend_task_command(
        &config(true, true, true, true),
        &dir_with(&[Marker::ShellNix]),
        "make".into(),
        args(&["all"]),
    );
    assert_eq!(ext.command.as_deref(), Some("nix-shell"));
    assert_eq!(ext.prepend_args, Some(args(&["nix-shell", "--run", "make", "all"])));
}

#[test]
fn extend_without_env_leaves_command() {
    let ext = extend_task_command(
        &config(false, false, false, false),
        &dir_with(&[Marker::FlakeNix, Marker::ShellNix]),
        "make".into(),
        args(&["all"]),
    );
    assert!(ext.command.is_none());
    assert!(ext.prepend_args.is_none());
}

#[test]
fn project_id_examples() {
    assert_eq!(project_id_from_target("app:build"), "app");
    assert_eq!(project_id_from_target("a:b:c"), "a");
    assert_eq!(project_id_from_target("noproject"), "noproject");
    assert_eq!(project_id_from_target(":build"), "");
    assert_eq!(project_id_from_target(""), "");
    assert_eq!(project_id_from_target("é:x"), "é");
}

#[test]
fn task_root_joins_project_id() {
    assert_eq!(task_project_root("/ws", "app:build"), "/ws/app");
    assert_eq!(task_project_root("/ws", "libs/core:test"), "/ws/libs/core");
    assert_eq!(task_project_root("/ws/", "app:build"), "/ws/app");
    assert_eq!(task_project_root("/ws", ":build"), "/ws/");
}

#[test]
fn located_root_iff_task_wrapped_examples() {
    let cfg = config(true, false, false, true);
    for files in [
        dir_with(&[]),
        dir_with(&[Marker::FlakeNix]),
        dir_with(&[Marker::DevenvNix]),
        dir_with(&[Marker::ShellNix]),
        dir_with(&[Marker::FlakeNix, Marker::DevenvYaml]),
    ] {
        let located = moon_nix::toolchain::locate_dependencies_root("/ws", &cfg, &files);
        let ext = extend_task_command(&cfg, &files, "x".into(), vec![]);
        assert_eq!(located.root.is_some(), ext.command.is_some());
    }
}
