use vstd::prelude::*;

use crate::config::NixToolchainConfig;

verus! {

/// The kind of Nix environment found in a directory.
#[derive(Clone, Copy, Debug, PartialEq, Eq, Structural)]
pub enum NixEnv {
    Devenv,
    Flox,
    NixFlake,
    NixShell,
    NotFound,
}

/// Which of the files that mark a Nix environment exist in a directory.
#[derive(Clone, Copy, Debug, PartialEq, Eq, Structural)]
pub struct EnvFiles {
    /// `devenv.nix`
    pub devenv_nix: bool,
    /// `devenv.yaml`
    pub devenv_yaml: bool,
    /// `flake.nix`
    pub flake_nix: bool,
    /// `flake.lock`
    pub flake_lock: bool,
    /// the `.flox` directory
    pub flox_dir: bool,
    /// `shell.nix`
    pub shell_nix: bool,
}

/// devenv is in use: enabled, and `devenv.nix` or `devenv.yaml` exists.
pub open spec fn devenv_active(config: NixToolchainConfig, files: EnvFiles) -> bool {
    config.use_devenv && (files.devenv_nix || files.devenv_yaml)
}

/// A Nix flake is in use: enabled, and `flake.nix` exists.
pub open spec fn flake_active(config: NixToolchainConfig, files: EnvFiles) -> bool {
    config.use_flake && files.flake_nix
}

/// Flox is in use: enabled, and the `.flox` directory exists.
pub open spec fn flox_active(config: NixToolchainConfig, files: EnvFiles) -> bool {
    config.use_flox && files.flox_dir
}

/// `shell.nix` is in use: enabled, and `shell.nix` exists.
pub open spec fn shell_nix_active(config: NixToolchainConfig, files: EnvFiles) -> bool {
    config.use_shell_nix && files.shell_nix
}

/// The environment chosen when locating roots and setting up:
/// devenv first, then a flake, then Flox, then `shell.nix`.
pub open spec fn setup_env_spec(config: NixToolchainConfig, files: EnvFiles) -> NixEnv {
    if devenv_active(config, files) {
        NixEnv::Devenv
    } else if flake_active(config, files) {
        NixEnv::NixFlake
    } else if flox_active(config, files) {
        NixEnv::Flox
    } else if shell_nix_active(config, files) {
        NixEnv::NixShell
    } else {
        NixEnv::NotFound
    }
}

/// The environment chosen when wrapping a task's command: the same as for
/// root location and setup.
pub open spec fn task_env_spec(config: NixToolchainConfig, files: EnvFiles) -> NixEnv {
    setup_env_spec(config, files)
}

/// Detects the environment of a directory for root location and setup.
pub fn detect_setup_env(config: &NixToolchainConfig, files: &EnvFiles) -> (env: NixEnv)
    ensures
        env == setup_env_spec(*config, *files),
{
    if config.use_devenv && (files.devenv_nix || files.devenv_yaml) {
        NixEnv::Devenv
    } else if config.use_flake && files.flake_nix {
        NixEnv::NixFlake
    } else if config.use_flox && files.flox_dir {
        NixEnv::Flox
    } else if config.use_shell_nix && files.shell_nix {
        NixEnv::NixShell
    } else {
        NixEnv::NotFound
    }
}

/// Detects the environment of a project for wrapping a task's command.
pub fn detect_task_env(config: &NixToolchainConfig, files: &EnvFiles) -> (env: NixEnv)
    ensures
        env == task_env_spec(*config, *files),
{
    detect_setup_env(config, files)
}

} // verus!
