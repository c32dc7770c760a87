use vstd::prelude::*;

use crate::env::EnvFiles;

verus! {

/// A file or directory whose presence marks a Nix environment.
#[derive(Clone, Copy, Debug, PartialEq, Eq, Structural)]
pub enum Marker {
    DevenvNix,
    DevenvYaml,
    FlakeNix,
    FlakeLock,
    FloxDir,
    ShellNix,
}

/// The name, relative to the directory probed, of each marker.
pub open spec fn marker_name(marker: Marker) -> Seq<char> {
    match marker {
        Marker::DevenvNix => "devenv.nix"@,
        Marker::DevenvYaml => "devenv.yaml"@,
        Marker::FlakeNix => "flake.nix"@,
        Marker::FlakeLock => "flake.lock"@,
        Marker::FloxDir => ".flox"@,
        Marker::ShellNix => "shell.nix"@,
    }
}

/// Whether the marker is present according to a probe of a directory.
pub open spec fn marker_present(files: EnvFiles, marker: Marker) -> bool {
    match marker {
        Marker::DevenvNix => files.devenv_nix,
        Marker::DevenvYaml => files.devenv_yaml,
        Marker::FlakeNix => files.flake_nix,
        Marker::FlakeLock => files.flake_lock,
        Marker::FloxDir => files.flox_dir,
        Marker::ShellNix => files.shell_nix,
    }
}

/// The name of the file or directory to look for in a directory.
pub fn marker_file_name(marker: Marker) -> (name: String)
    ensures
        name@ == marker_name(marker),
{
    match marker {
        Marker::DevenvNix => "devenv.nix".to_owned(),
        Marker::DevenvYaml => "devenv.yaml".to_owned(),
        Marker::FlakeNix => "flake.nix".to_owned(),
        Marker::FlakeLock => "flake.lock".to_owned(),
        Marker::FloxDir => ".flox".to_owned(),
        Marker::ShellNix => "shell.nix".to_owned(),
    }
}

/// All markers, in the order in which a directory is probed.
pub fn all_markers() -> (markers: Vec<Marker>)
    ensures
        markers@ == seq![
            Marker::DevenvNix,
            Marker::DevenvYaml,
            Marker::FlakeNix,
            Marker::FlakeLock,
            Marker::FloxDir,
            Marker::ShellNix,
        ],
{
    let mut markers = Vec::new();
    markers.push(Marker::DevenvNix);
    markers.push(Marker::DevenvYaml);
    markers.push(Marker::FlakeNix);
    markers.push(Marker::FlakeLock);
    markers.push(Marker::FloxDir);
    markers.push(Marker::ShellNix);
    markers
}

/// Records the answer of a probe for one marker.
pub fn record_marker(files: &mut EnvFiles, marker: Marker, present: bool)
    ensures
        marker_present(*final(files), marker) == present,
        forall|other: Marker|
            other != marker ==> marker_present(*final(files), other) == marker_present(
                *old(files),
                other,
            ),
{
    match marker {
        Marker::DevenvNix => files.devenv_nix = present,
        Marker::DevenvYaml => files.devenv_yaml = present,
        Marker::FlakeNix => files.flake_nix = present,
        Marker::FlakeLock => files.flake_lock = present,
        Marker::FloxDir => files.flox_dir = present,
        Marker::ShellNix => files.shell_nix = present,
    }
}

/// A probe result in which no marker is present.
pub fn no_markers() -> (files: EnvFiles)
    ensures
        forall|marker: Marker| !marker_present(files, marker),
{
    EnvFiles {
        devenv_nix: false,
        devenv_yaml: false,
        flake_nix: false,
        flake_lock: false,
        flox_dir: false,
        shell_nix: false,
    }
}

} // verus!
