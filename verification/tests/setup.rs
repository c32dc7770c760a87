use moon_nix::config::NixToolchainConfig;
use moon_nix::env::{detect_setup_env, detect_task_env, EnvFiles, NixEnv};
use moon_nix::markers::{all_markers, marker_file_name, no_markers, record_marker, Marker};
use moon_nix::paths::setup_project_root;
use moon_nix::toolchain::setup_environment;

fn config_all() -> NixToolchainConfig {
    NixToolchainConfig {
        use_flake: true,
        use_shell_nix: true,
        use_flox: true,
        use_devenv: true,
        flox_environment: None,
        version: None,
    }
}

fn dir_with(markers: &[Marker]) -> EnvFiles {
    let mut files = no_markers();
    for marker in markers {
        record_marker(&mut files, *marker, true);
    }
    files
}

#[test]
fn marker_names() {
    let names: Vec<String> = all_markers().into_iter().map(marker_file_name).collect();
    assert_eq!(
        names,
        vec!["devenv.nix", "devenv.yaml", "flake.nix", "flake.lock", ".flox", "shell.nix"]
    );
}

#[test]
fn record_marker_sets_only_its_flag() {
    let mut files = no_markers();
    record_marker(&mut files, Marker::FloxDir, true);
    assert_eq!(
        files,
        EnvFiles {
            devenv_nix: false,
            devenv_yaml: false,
            flake_nix: false,
            flake_lock: false,
            flox_dir: true,
            shell_nix: false,
        }
    );
    record_marker(&mut files, Marker::FloxDir, false);
    assert_eq!(files, no_markers());
}

#[test]
fn setup_detection_prefers_devenv() {
    let files = dir_with(&[Marker::DevenvYaml, Marker::FlakeNix, Marker::ShellNix]);
    assert_eq!(detect_setup_env(&config_all(), &files), NixEnv::Devenv);
    assert_eq!(detect_task_env(&config_all(), &files), NixEnv::Devenv);
}

#[test]
fn detection_falls_through_in_order() {
    let files = dir_with(&[Marker::FloxDir, Marker::ShellNix]);
    assert_eq!(detect_setup_env(&config_all(), &files), NixEnv::Flox);
    assert_eq!(detect_task_env(&config_all(), &files), NixEnv::Flox);
    let files = dir_with(&[Marker::ShellNix]);
    assert_eq!(detect_setup_env(&config_all(), &files), NixEnv::NixShell);
    assert_eq!(detect_setup_env(&config_all(), &no_markers()), NixEnv::NotFound);
    assert_eq!(detect_task_env(&config_all(), &no_markers()), NixEnv::NotFound);
}

#[test]
fn setup_unlocked_flake_locks_it() {
    let cmds = setup_environment("/ws/app", &config_all(), &dir_with(&[Marker::FlakeNix]));
    assert_eq!(cmds.len(), 1);
    assert_eq!(cmds[0].command, "nix");
    assert_eq!(cmds[0].args, vec!["develop", "--command", "pwd"]);
    assert_eq!(cmds[0].cwd, "/ws/app");
    assert_eq!(cmds[0].label, "Lock Nix flake");
}

#[test]
fn setup_locked_flake_does_nothing() {
    let files = dir_with(&[Marker::FlakeNix, Marker::FlakeLock]);
    assert!(setup_environment("/ws/app", &config_all(), &files).is_empty());
}

#[test]
fn setup_devenv() {
    let cmds = setup_environment("/ws", &config_all(), &dir_with(&[Marker::DevenvNix]));
    assert_eq!(cmds.len(), 1);
    assert_eq!(cmds[0].command, "devenv");
    assert_eq!(cmds[0].args, vec!["shell", "pwd"]);
    assert_eq!(cmds[0].cwd, "/ws");
    assert_eq!(cmds[0].label, "Install devenv dependencies");
}

#[test]
fn setup_flox() {
    let cmds = setup_environment("/ws", &config_all(), &dir_with(&[Marker::FloxDir]));
    assert_eq!(cmds.len(), 1);
    assert_eq!(cmds[0].command, "flox");
    assert_eq!(cmds[0].args, vec!["activate", "--", "pwd"]);
    assert_eq!(cmds[0].label, "Initialize Flox environment");
}

#[test]
fn setup_shell_nix() {
    let cmds = setup_environment("/ws", &config_all(), &dir_with(&[Marker::ShellNix]));
    assert_eq!(cmds.len(), 1);
    assert_eq!(cmds[0].command, "nix-shell");
    assert_eq!(cmds[0].args, vec!["--run", "pwd"]);
    assert_eq!(cmds[0].label, "Run Nix shell");
}

#[test]
fn setup_nothing_found() {
    assert!(setup_environment("/ws", &config_all(), &no_markers()).is_empty());
}

#[test]
fn setup_devenv_wins_over_locked_flake() {
    // devenv comes first during setup, so the flake's lock state does not matter
    let files = dir_with(&[Marker::DevenvNix, Marker::FlakeNix, Marker::FlakeLock]);
    let cmds = setup_environment("/ws", &config_all(), &files);
    assert_eq!(cmds.len(), 1);
    assert_eq!(cmds[0].command, "devenv");
}

#[test]
fn setup_root_defaults_to_workspace() {
    assert_eq!(setup_project_root("/ws", None), "/ws");
}

#[test]
fn setup_root_joins_project_source() {
    assert_eq!(setup_project_root("/ws", Some("apps/web")), "/ws/apps/web");
}

#[test]
fn setup_root_after_trailing_slash() {
    assert_eq!(setup_project_root("/ws/", Some("apps/web")), "/ws/apps/web");
}
