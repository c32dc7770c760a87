# moon_nix

A moon toolchain plugin for Nix-based development environments: Nix flakes,
`shell.nix`, Flox and devenv.

- `src/` is the verified library (Verus): which environment a directory uses
  (`env`, `markers`), project roots and task targets (`paths`), what the plugin
  answers to moon (`toolchain`), and the properties that relate these (`laws`).
- `app/` holds the plugin entry points: it reads the host's input and the
  toolchain configuration, probes the file system for marker files, and converts
  the library's answers into moon's types.
- `tests/` runs the library on concrete inputs.
