use vstd::prelude::*;

use crate::config::NixToolchainConfig;
use crate::env::{
    devenv_active, flake_active, flox_active, setup_env_spec, shell_nix_active, task_env_spec,
    EnvFiles, NixEnv,
};
use crate::paths::{is_project_id_of, join_outcome};
use crate::toolchain::{setup_command_spec, task_wrapper_spec};

verus! {

/// An environment is chosen only when the configuration enables its kind and
/// its marker files exist, whether for setup or for a task.
pub proof fn env_requires_enabled_marker(config: NixToolchainConfig, files: EnvFiles)
    ensures
        setup_env_spec(config, files) == NixEnv::Devenv ==> devenv_active(config, files),
        setup_env_spec(config, files) == NixEnv::NixFlake ==> flake_active(config, files),
        setup_env_spec(config, files) == NixEnv::Flox ==> flox_active(config, files),
        setup_env_spec(config, files) == NixEnv::NixShell ==> shell_nix_active(config, files),
        task_env_spec(config, files) == NixEnv::Devenv ==> devenv_active(config, files),
        task_env_spec(config, files) == NixEnv::NixFlake ==> flake_active(config, files),
        task_env_spec(config, files) == NixEnv::Flox ==> flox_active(config, files),
        task_env_spec(config, files) == NixEnv::NixShell ==> shell_nix_active(config, files),
{
}

/// With every kind of environment disabled, none is ever found, whatever
/// files exist.
pub proof fn disabled_config_finds_nothing(config: NixToolchainConfig, files: EnvFiles)
    requires
        !config.use_flake,
        !config.use_shell_nix,
        !config.use_flox,
        !config.use_devenv,
    ensures
        setup_env_spec(config, files) == NixEnv::NotFound,
        task_env_spec(config, files) == NixEnv::NotFound,
{
}

/// Every use of detection prefers devenv over a flake, a flake over Flox, and
/// Flox over `shell.nix`.
pub proof fn detection_precedence(config: NixToolchainConfig, files: EnvFiles)
    ensures
        devenv_active(config, files) ==> setup_env_spec(config, files) == NixEnv::Devenv,
        !devenv_active(config, files) && flake_active(config, files) ==> setup_env_spec(
            config,
            files,
        ) == NixEnv::NixFlake,
        !devenv_active(config, files) && !flake_active(config, files) && flox_active(config, files)
            ==> setup_env_spec(config, files) == NixEnv::Flox,
        devenv_active(config, files) ==> task_env_spec(config, files) == NixEnv::Devenv,
        !devenv_active(config, files) && flake_active(config, files) ==> task_env_spec(
            config,
            files,
        ) == NixEnv::NixFlake,
{
}

/// A task is wrapped in the same environment that setup prepares and root
/// location finds.
pub proof fn task_and_setup_choose_same_env(config: NixToolchainConfig, files: EnvFiles)
    ensures
        task_env_spec(config, files) == setup_env_spec(config, files),
{
}

/// Enabling more kinds of environment never loses an environment that was
/// found, whether for setup or for a task.
pub proof fn enabling_more_keeps_env(
    smaller: NixToolchainConfig,
    larger: NixToolchainConfig,
    files: EnvFiles,
)
    requires
        smaller.use_flake ==> larger.use_flake,
        smaller.use_shell_nix ==> larger.use_shell_nix,
        smaller.use_flox ==> larger.use_flox,
        smaller.use_devenv ==> larger.use_devenv,
    ensures
        setup_env_spec(smaller, files) != NixEnv::NotFound ==> setup_env_spec(larger, files)
            != NixEnv::NotFound,
        task_env_spec(smaller, files) != NixEnv::NotFound ==> task_env_spec(larger, files)
            != NixEnv::NotFound,
{
}

/// A directory has a dependencies root exactly when a task of a project rooted
/// there gets its command wrapped.
pub proof fn root_located_iff_task_wrapped(config: NixToolchainConfig, files: EnvFiles)
    ensures
        (setup_env_spec(config, files) != NixEnv::NotFound) <==> task_wrapper_spec(
            task_env_spec(config, files),
        ) is Some,
{
}

/// Setup runs a command exactly when an environment is found, except for a
/// flake that is already locked.
pub proof fn setup_runs_unless_nothing_to_do(config: NixToolchainConfig, files: EnvFiles)
    ensures
        setup_command_spec(setup_env_spec(config, files), files) is Some <==> (setup_env_spec(
            config,
            files,
        ) != NixEnv::NotFound && !(setup_env_spec(config, files) == NixEnv::NixFlake
            && files.flake_lock)),
{
}

/// A wrapped task keeps its own command and arguments, in order, after the two
/// arguments that enter the environment.
pub proof fn wrapping_keeps_invocation(env: NixEnv, command: Seq<char>, args: Seq<Seq<char>>)
    ensures
        task_wrapper_spec(env) matches Some((program, lead)) ==> {
            &&& lead.len() == 2
            &&& (lead + seq![command] + args).skip(2) == seq![command] + args
        },
{
    if let Some((program, lead)) = task_wrapper_spec(env) {
        assert((lead + seq![command] + args).skip(2) =~= seq![command] + args);
    }
}

/// The project part of a task target is determined by the target: two
/// candidates that both meet its description are equal.
pub proof fn project_id_is_unique(target: Seq<char>, a: Seq<char>, b: Seq<char>)
    requires
        is_project_id_of(a, target),
        is_project_id_of(b, target),
    ensures
        a == b,
{
    if a.len() < b.len() {
        assert(b[a.len() as int] == target[a.len() as int]);
    } else if b.len() < a.len() {
        assert(a[b.len() as int] == target[b.len() as int]);
    }
    assert(a =~= b);
}

/// A target without `:` is its own project part.
pub proof fn project_id_without_colon(target: Seq<char>)
    requires
        forall|i: int| 0 <= i < target.len() ==> target[i] != ':',
    ensures
        is_project_id_of(target, target),
{
    assert(target.take(target.len() as int) =~= target);
}

/// The directory probed for a task depends on the target only through its
/// project part: what `task_project_root` promises of its result is what a
/// join of the workspace root with exactly that part gives.
pub proof fn task_root_from_project_part(
    workspace_root: Seq<char>,
    target: Seq<char>,
    root: Seq<char>,
    id: Seq<char>,
)
    requires
        exists|other: Seq<char>|
            is_project_id_of(other, target) && #[trigger] join_outcome(root, workspace_root, other),
        is_project_id_of(id, target),
    ensures
        join_outcome(root, workspace_root, id),
{
    let other = choose|other: Seq<char>|
        is_project_id_of(other, target) && #[trigger] join_outcome(root, workspace_root, other);
    project_id_is_unique(target, id, other);
}

/// Which environment is found, read off the configuration and the marker
/// files alone: the first enabled kind whose marker exists, in the order
/// devenv (`devenv.nix` or `devenv.yaml`), flake (`flake.nix`), Flox
/// (`.flox`), `shell.nix`; markers of other kinds change nothing. The same
/// holds for tasks.
pub proof fn env_found_from_markers(config: NixToolchainConfig, files: EnvFiles)
    ensures
        config.use_devenv && (files.devenv_nix || files.devenv_yaml) ==> setup_env_spec(
            config,
            files,
        ) == NixEnv::Devenv,
        !(config.use_devenv && (files.devenv_nix || files.devenv_yaml)) && config.use_flake
            && files.flake_nix ==> setup_env_spec(config, files) == NixEnv::NixFlake,
        !(config.use_devenv && (files.devenv_nix || files.devenv_yaml)) && !(config.use_flake
            && files.flake_nix) && config.use_flox && files.flox_dir ==> setup_env_spec(
            config,
            files,
        ) == NixEnv::Flox,
        !(config.use_devenv && (files.devenv_nix || files.devenv_yaml)) && !(config.use_flake
            && files.flake_nix) && !(config.use_flox && files.flox_dir) && config.use_shell_nix
            && files.shell_nix ==> setup_env_spec(config, files) == NixEnv::NixShell,
        (setup_env_spec(config, files) == NixEnv::NotFound) <==> !(config.use_devenv && (
        files.devenv_nix || files.devenv_yaml)) && !(config.use_flake && files.flake_nix) && !(
        config.use_flox && files.flox_dir) && !(config.use_shell_nix && files.shell_nix),
        task_env_spec(config, files) == setup_env_spec(config, files),
{
}

/// `shell.nix` is used whenever it is enabled and present and devenv, a
/// flake and Flox are each disabled or without their markers, whatever other
/// files (a disabled kind's `flake.nix`, for one) exist.
pub proof fn shell_nix_found_whenever_nothing_earlier(
    config: NixToolchainConfig,
    files: EnvFiles,
)
    requires
        !config.use_devenv || (!files.devenv_nix && !files.devenv_yaml),
        !config.use_flake || !files.flake_nix,
        !config.use_flox || !files.flox_dir,
        config.use_shell_nix,
        files.shell_nix,
    ensures
        setup_env_spec(config, files) == NixEnv::NixShell,
        task_env_spec(config, files) == NixEnv::NixShell,
{
}

/// The command that prepares each environment, as fixed text: devenv installs
/// its dependencies, an unlocked flake is locked, Flox is initialized, and the
/// Nix shell is run; a locked flake and no environment need nothing.
pub proof fn setup_command_of_each_env(files: EnvFiles)
    ensures
        setup_command_spec(NixEnv::Devenv, files) == Some(
            ("devenv"@, seq!["shell"@, "pwd"@], "Install devenv dependencies"@),
        ),
        !files.flake_lock ==> setup_command_spec(NixEnv::NixFlake, files) == Some(
            ("nix"@, seq!["develop"@, "--command"@, "pwd"@], "Lock Nix flake"@),
        ),
        files.flake_lock ==> setup_command_spec(NixEnv::NixFlake, files) is None,
        setup_command_spec(NixEnv::Flox, files) == Some(
            ("flox"@, seq!["activate"@, "--"@, "pwd"@], "Initialize Flox environment"@),
        ),
        setup_command_spec(NixEnv::NixShell, files) == Some(
            ("nix-shell"@, seq!["--run"@, "pwd"@], "Run Nix shell"@),
        ),
        setup_command_spec(NixEnv::NotFound, files) is None,
{
}

/// The setup command depends on the environment found and on whether
/// `flake.lock` exists, and on no other marker file.
pub proof fn setup_command_depends_only_on_env_and_lock(
    env: NixEnv,
    files: EnvFiles,
    other: EnvFiles,
)
    requires
        files.flake_lock == other.flake_lock,
    ensures
        setup_command_spec(env, files) == setup_command_spec(env, other),
{
}

/// The program and leading arguments that wrap a task in each environment, as
/// fixed text.
pub proof fn task_wrapper_of_each_env()
    ensures
        task_wrapper_spec(NixEnv::Devenv) == Some(("devenv"@, seq!["shell"@, "--"@])),
        task_wrapper_spec(NixEnv::NixFlake) == Some(("nix"@, seq!["develop"@, "--command"@])),
        task_wrapper_spec(NixEnv::Flox) == Some(("flox"@, seq!["activate"@, "--"@])),
        task_wrapper_spec(NixEnv::NixShell) == Some(("nix-shell"@, seq!["nix-shell"@, "--run"@])),
        task_wrapper_spec(NixEnv::NotFound) is None,
{
}

} // verus!
