# uplate

`uplate` clones a boilerplate repository as a detached project, records
which template commit the project started from in `.uplate.jsonc`, and
later upgrades the project by simulating a three-way merge (old template,
project, new template) in a temporary repository.

## Layout

- `src/` — the verified library (Verus).
  - `source.rs`: parsing of template sources (`owner/repo[/path]`,
    `github:…`, GitHub `/tree/<ref>/<path>` URLs, other hosts' URLs with an
    optional `/-/tree/<ref>/<path>`), with laws on remotes, template paths,
    whitespace and the `github:` prefix.
  - `git.rs`: every git conversation as a protocol — given the outcomes of
    the commands run so far, an operation names the next command or its
    result — with laws on termination and on the work-tree checks.
  - `commands.rs`: the decisions of `create`, `adopt`, `status` and
    `upgrade`, the simulated merge as a fourteen-step git plan, and the
    laws that a dry run changes nothing and that the metadata is only
    updated after a clean merge.
  - `snapshot.rs`: which files are copied or removed (never `.git`), which
    template paths are accepted, and whether a project looks related to a
    template.
  - `config.rs`, `cli.rs`: the metadata and command-line types.
  - `text.rs`: character-level text operations stated over `Seq<char>`.
- `app/` — the command-line program: argument parsing, prompts, files,
  processes and JSON, calling the library for every decision.
- `tests/` — tests of the library on concrete values.
