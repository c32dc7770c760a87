use vstd::prelude::*;

verus! {

/// Settings of the Nix toolchain, as configured in the moon workspace.
pub struct NixToolchainConfig {
    /// Detect and use `flake.nix`.
    pub use_flake: bool,
    /// Detect and use `shell.nix`.
    pub use_shell_nix: bool,
    /// Detect and use Flox environments (a `.flox` directory).
    pub use_flox: bool,
    /// Detect and use devenv (`devenv.nix` or `devenv.yaml`).
    pub use_devenv: bool,
    /// Name of the Flox environment to activate, if any.
    pub flox_environment: Option<String>,
    /// Requested Nix version, if any.
    pub version: Option<String>,
}

} // verus!
