# add_cli

One `add` command for every package manager. `add` looks at a project, works
out whether it is a JavaScript or a Python project and which package manager
it uses (npm, pnpm, yarn, bun, pip, uv, poetry, pipenv), and runs that
manager's install command with normalised flags (`-D`, `-g`, `-E`).

## Layout

- `src/` — the verified library (Verus):
  - `flags.rs`: the managers, their names, and reading a name in any ASCII case;
  - `backends/`: one backend per manager, building the install command;
    `Resolved::display` shows a command line;
  - `detect.rs`: detection from a directory upwards (the `packageManager`
    field of `package.json`, lockfiles, project markers);
  - `json.rs`: the two `serde_json` calls that detection makes;
  - `config.rs`: global defaults, the `.addrc.toml` pin and where it is found;
  - `dispatch.rs`: choosing the manager (`--pm`, pin, detection, default),
    the `add` command's plan, and the messages;
  - `exec.rs`: what is printed before a command runs;
  - `text.rs`: string helpers.
- `app/` — the `add` program: command line, disk, TOML files, running commands.
- `tests/` — tests of the library.

Directories are given to the library as `DirListing`s: for the starting
directory and each of its ancestors, the probed file names that are regular
files there and the text of `package.json`.
