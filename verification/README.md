# cargo-uwp

A custom Cargo command that creates Cargo packages for the Universal Windows Platform,
written as a verified library with a thin program around it.

- `src/` is the library, verified with Verus:
  - `cli`: the adapter that presents the command line to an argument parser as the
    arguments of a program called `cargo uwp`;
  - `os`: operating-system strings (arguments, path components) held as code units;
  - `text`: placeholder substitution in templates;
  - `manifest`: adding the `bindings` and `windows` dependencies to `Cargo.toml`,
    with the TOML work done by `toml_edit`;
  - `cargo`: the arguments of `cargo new` and how its exit is judged;
  - `ops`: `cargo uwp new` as a state machine that names each file-system action
    and takes back its outcome;
  - `data`: the names and text the generated package is made of.
- `app/` is the program: command line parsing with `structopt`, running `cargo`,
  reading and writing files, and reporting errors. It embeds the template files the
  tool ships with from a `data` directory next to `app/`.
- `tests/` exercise the library on concrete values.
