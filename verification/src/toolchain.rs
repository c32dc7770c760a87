use vstd::prelude::*;

use crate::config::NixToolchainConfig;
use crate::env::{detect_setup_env, detect_task_env, setup_env_spec, task_env_spec, EnvFiles, NixEnv};

verus! {

/// What the toolchain tells moon about itself when it is registered.
pub struct ToolchainRegistration {
    pub name: String,
    pub plugin_version: String,
    /// Files (and globs) that mark a project as using the toolchain.
    pub config_file_globs: Vec<String>,
    /// Executables provided by the toolchain.
    pub exe_names: Vec<String>,
    /// Lock files of dependency installs.
    pub lock_file_names: Vec<String>,
    /// Manifests that describe a project's environment.
    pub manifest_file_names: Vec<String>,
    /// Directory holding the installed dependencies.
    pub vendor_dir_name: Option<String>,
}

pub open spec fn config_file_globs_spec() -> Seq<Seq<char>> {
    seq![
        "flake.nix"@,
        "flake.lock"@,
        "shell.nix"@,
        "default.nix"@,
        ".envrc"@,
        "devenv.nix"@,
        "devenv.lock"@,
        "devenv.yaml"@,
        ".flox/env.json"@,
        ".flox/env.toml"@,
    ]
}

pub open spec fn exe_names_spec() -> Seq<Seq<char>> {
    seq!["nix"@, "nix-shell"@, "devenv"@, "flox"@]
}

pub open spec fn lock_file_names_spec() -> Seq<Seq<char>> {
    seq!["flake.lock"@, "devenv.lock"@]
}

pub open spec fn manifest_file_names_spec() -> Seq<Seq<char>> {
    seq!["flake.nix"@, "shell.nix"@, "devenv.nix"@, "devenv.yaml"@]
}

/// The registration of the Nix toolchain, for a plugin of the given version.
pub fn register_toolchain(plugin_version: &str) -> (reg: ToolchainRegistration)
    ensures
        reg.name@ == "Nix"@,
        reg.plugin_version@ == plugin_version@,
        reg.config_file_globs.deep_view() == config_file_globs_spec(),
        reg.exe_names.deep_view() == exe_names_spec(),
        reg.lock_file_names.deep_view() == lock_file_names_spec(),
        reg.manifest_file_names.deep_view() == manifest_file_names_spec(),
        reg.vendor_dir_name matches Some(dir) && dir@ == ".devenv/profile/bin"@,
{
    let config_file_globs = vec![
        "flake.nix".to_owned(),
        "flake.lock".to_owned(),
        "shell.nix".to_owned(),
        "default.nix".to_owned(),
        ".envrc".to_owned(),
        "devenv.nix".to_owned(),
        "devenv.lock".to_owned(),
        "devenv.yaml".to_owned(),
        ".flox/env.json".to_owned(),
        ".flox/env.toml".to_owned(),
    ];
    let exe_names = vec![
        "nix".to_owned(),
        "nix-shell".to_owned(),
        "devenv".to_owned(),
        "flox".to_owned(),
    ];
    let lock_file_names = vec!["flake.lock".to_owned(), "devenv.lock".to_owned()];
    let manifest_file_names = vec![
        "flake.nix".to_owned(),
        "shell.nix".to_owned(),
        "devenv.nix".to_owned(),
        "devenv.yaml".to_owned(),
    ];
    assert(config_file_globs.deep_view() =~= config_file_globs_spec());
    assert(exe_names.deep_view() =~= exe_names_spec());
    assert(lock_file_names.deep_view() =~= lock_file_names_spec());
    assert(manifest_file_names.deep_view() =~= manifest_file_names_spec());
    ToolchainRegistration {
        name: "Nix".to_owned(),
        plugin_version: plugin_version.to_owned(),
        config_file_globs,
        exe_names,
        lock_file_names,
        manifest_file_names,
        vendor_dir_name: Some(".devenv/profile/bin".to_owned()),
    }
}


/// A yes/no question asked when the toolchain is added to a workspace; the
/// answer sets the named setting.
pub struct ConfirmPrompt {
    /// The setting that the answer sets.
    pub setting: String,
    /// The question shown.
    pub question: String,
    /// The answer preselected.
    pub default: bool,
}

pub open spec fn prompt_view(prompt: ConfirmPrompt) -> (Seq<char>, Seq<char>, bool) {
    (prompt.setting@, prompt.question@, prompt.default)
}

pub open spec fn prompts_spec() -> Seq<(Seq<char>, Seq<char>, bool)> {
    seq![
        ("useFlake"@, "Enable automatic detection and usage of <file>flake.nix</file>?"@, true),
        ("useShellNix"@, "Enable automatic detection and usage of <file>shell.nix</file>?"@, false),
        ("useFlox"@, "Enable automatic detection and usage of Flox environments?"@, false),
        ("useDevenv"@, "Enable automatic detection and usage of devenv?"@, false),
    ]
}

fn confirm_prompt(setting: &str, question: &str, default: bool) -> (prompt: ConfirmPrompt)
    ensures
        prompt_view(prompt) == (setting@, question@, default),
{
    ConfirmPrompt { setting: setting.to_owned(), question: question.to_owned(), default }
}

/// The questions asked when the toolchain is initialized: one per kind of
/// environment, with only flake detection preselected.
pub fn initialize_toolchain() -> (prompts: Vec<ConfirmPrompt>)
    ensures
        prompts@.map_values(|p: ConfirmPrompt| prompt_view(p)) == prompts_spec(),
{
    let prompts = vec![
        confirm_prompt(
            "useFlake",
            "Enable automatic detection and usage of <file>flake.nix</file>?",
            true,
        ),
        confirm_prompt(
            "useShellNix",
            "Enable automatic detection and usage of <file>shell.nix</file>?",
            false,
        ),
        confirm_prompt(
            "useFlox",
            "Enable automatic detection and usage of Flox environments?",
            false,
        ),
        confirm_prompt("useDevenv", "Enable automatic detection and usage of devenv?", false),
    ];
    assert(prompts@.map_values(|p: ConfirmPrompt| prompt_view(p)) =~= prompts_spec());
    prompts
}

/// Where the dependencies of a directory are rooted.
pub struct DependenciesRoot {
    /// The root, if the directory holds a Nix environment in use.
    pub root: Option<String>,
    /// Member globs of a dependencies workspace; never set by this toolchain.
    pub members: Option<Vec<String>>,
}

/// Locates the dependencies root from a starting directory, given which
/// marker files exist in it: the directory itself when it holds a Nix
/// environment that the configuration enables, and none otherwise.
pub fn locate_dependencies_root(
    starting_dir: &str,
    config: &NixToolchainConfig,
    files: &EnvFiles,
) -> (located: DependenciesRoot)
    ensures
        located.members is None,
        located.root is Some <==> setup_env_spec(*config, *files) != NixEnv::NotFound,
        located.root matches Some(root) ==> root@ == starting_dir@,
{
    match detect_setup_env(config, files) {
        NixEnv::NotFound => DependenciesRoot { root: None, members: None },
        _ => DependenciesRoot { root: Some(starting_dir.to_owned()), members: None },
    }
}

/// A command run in a project's directory to prepare its environment.
pub struct SetupCommand {
    pub command: String,
    pub args: Vec<String>,
    /// The directory the command runs in.
    pub cwd: String,
    /// The label shown while the command runs.
    pub label: String,
}

/// The command (program, arguments, label) that prepares an environment, if
/// any: a flake needs one only while it has no `flake.lock`.
pub open spec fn setup_command_spec(env: NixEnv, files: EnvFiles) -> Option<
    (Seq<char>, Seq<Seq<char>>, Seq<char>),
> {
    match env {
        NixEnv::NixFlake => if files.flake_lock {
            None
        } else {
            Some(("nix"@, seq!["develop"@, "--command"@, "pwd"@], "Lock Nix flake"@))
        },
        NixEnv::Devenv => Some(("devenv"@, seq!["shell"@, "pwd"@], "Install devenv dependencies"@)),
        NixEnv::Flox => Some(
            ("flox"@, seq!["activate"@, "--"@, "pwd"@], "Initialize Flox environment"@),
        ),
        NixEnv::NixShell => Some(("nix-shell"@, seq!["--run"@, "pwd"@], "Run Nix shell"@)),
        NixEnv::NotFound => None,
    }
}

/// The view of a setup command: program, arguments, directory and label.
pub open spec fn setup_command_view(cmd: SetupCommand) -> (
    Seq<char>,
    Seq<Seq<char>>,
    Seq<char>,
    Seq<char>,
) {
    (cmd.command@, cmd.args.deep_view(), cmd.cwd@, cmd.label@)
}

fn setup_command(command: &str, args: Vec<String>, cwd: &str, label: &str) -> (cmd: SetupCommand)
    ensures
        setup_command_view(cmd) == (command@, args.deep_view(), cwd@, label@),
{
    SetupCommand { command: command.to_owned(), args, cwd: cwd.to_owned(), label: label.to_owned() }
}

/// The commands that prepare the environment of a project rooted at
/// `project_root`, given which marker files exist there: at most one, run in
/// the project root.
pub fn setup_environment(
    project_root: &str,
    config: &NixToolchainConfig,
    files: &EnvFiles,
) -> (commands: Vec<SetupCommand>)
    ensures
        match setup_command_spec(setup_env_spec(*config, *files), *files) {
            None => commands.len() == 0,
            Some((command, args, label)) => commands.len() == 1 && setup_command_view(commands[0])
                == (command, args, project_root@, label),
        },
{
    let mut commands: Vec<SetupCommand> = Vec::new();
    match detect_setup_env(config, files) {
        NixEnv::NixFlake => {
            if !files.flake_lock {
                let args = vec!["develop".to_owned(), "--command".to_owned(), "pwd".to_owned()];
                assert(args.deep_view() =~= seq!["develop"@, "--command"@, "pwd"@]);
                commands.push(setup_command("nix", args, project_root, "Lock Nix flake"));
            }
        },
        NixEnv::Devenv => {
            let args = vec!["shell".to_owned(), "pwd".to_owned()];
            assert(args.deep_view() =~= seq!["shell"@, "pwd"@]);
            commands.push(setup_command("devenv", args, project_root, "Install devenv dependencies"));
        },
        NixEnv::Flox => {
            let args = vec!["activate".to_owned(), "--".to_owned(), "pwd".to_owned()];
            assert(args.deep_view() =~= seq!["activate"@, "--"@, "pwd"@]);
            commands.push(setup_command("flox", args, project_root, "Initialize Flox environment"));
        },
        NixEnv::NixShell => {
            let args = vec!["--run".to_owned(), "pwd".to_owned()];
            assert(args.deep_view() =~= seq!["--run"@, "pwd"@]);
            commands.push(setup_command("nix-shell", args, project_root, "Run Nix shell"));
        },
        NixEnv::NotFound => {},
    }
    commands
}

/// How a task's command is changed: the program that replaces it, and the
/// arguments put in front of the task's arguments.
pub struct CommandExtension {
    pub command: Option<String>,
    pub prepend_args: Option<Vec<String>>,
}

/// The program that runs a task inside an environment, and the arguments that
/// come before the task's own command, if the environment wraps tasks.
pub open spec fn task_wrapper_spec(env: NixEnv) -> Option<(Seq<char>, Seq<Seq<char>>)> {
    match env {
        NixEnv::Devenv => Some(("devenv"@, seq!["shell"@, "--"@])),
        NixEnv::NixFlake => Some(("nix"@, seq!["develop"@, "--command"@])),
        NixEnv::Flox => Some(("flox"@, seq!["activate"@, "--"@])),
        NixEnv::NixShell => Some(("nix-shell"@, seq!["nix-shell"@, "--run"@])),
        NixEnv::NotFound => None,
    }
}

fn wrapped_args(first: &str, second: &str, command: String, args: Vec<String>) -> (wrapped: Vec<String>)
    ensures
        wrapped.deep_view() == seq![first@, second@, command@] + args.deep_view(),
{
    let mut wrapped = vec![first.to_owned(), second.to_owned(), command];
    let mut rest = args;
    let ghost rest_view = rest.deep_view();
    let ghost head = wrapped.deep_view();
    wrapped.append(&mut rest);
    assert(wrapped.deep_view() =~= head + rest_view);
    wrapped
}

/// Wraps a task's command to run inside the Nix environment of the task's
/// project, given which marker files exist in the project root.
pub fn extend_task_command(
    config: &NixToolchainConfig,
    files: &EnvFiles,
    command: String,
    args: Vec<String>,
) -> (ext: CommandExtension)
    ensures
        match task_wrapper_spec(task_env_spec(*config, *files)) {
            None => ext.command is None && ext.prepend_args is None,
            Some((program, lead)) => {
                &&& ext.command matches Some(c) && c@ == program
                &&& ext.prepend_args matches Some(a) && a.deep_view() == lead + seq![command@]
                    + args.deep_view()
            },
        },
{
    let ghost cmd = command@;
    let ghost rest = args.deep_view();
    match detect_task_env(config, files) {
        NixEnv::Devenv => {
            let a = wrapped_args("shell", "--", command, args);
            assert(a.deep_view() =~= seq!["shell"@, "--"@] + seq![cmd] + rest);
            CommandExtension { command: Some("devenv".to_owned()), prepend_args: Some(a) }
        },
        NixEnv::NixFlake => {
            let a = wrapped_args("develop", "--command", command, args);
            assert(a.deep_view() =~= seq!["develop"@, "--command"@] + seq![cmd] + rest);
            CommandExtension { command: Some("nix".to_owned()), prepend_args: Some(a) }
        },
        NixEnv::Flox => {
            let a = wrapped_args("activate", "--", command, args);
            assert(a.deep_view() =~= seq!["activate"@, "--"@] + seq![cmd] + rest);
            CommandExtension { command: Some("flox".to_owned()), prepend_args: Some(a) }
        },
        NixEnv::NixShell => {
            let a = wrapped_args("nix-shell", "--run", command, args);
            assert(a.deep_view() =~= seq!["nix-shell"@, "--run"@] + seq![cmd] + rest);
            CommandExtension { command: Some("nix-shell".to_owned()), prepend_args: Some(a) }
        },
        NixEnv::NotFound => CommandExtension { command: None, prepend_args: None },
    }
}

} // verus!
