//! Decision logic of a moon toolchain plugin for Nix-based environments
//! (Nix flakes, `shell.nix`, Flox and devenv).

pub mod config;
pub mod env;
pub mod laws;
pub mod markers;
pub mod paths;
pub mod toolchain;
