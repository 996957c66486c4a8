# snowtracks

A minimalistic task tracker. Tasks have a name, a triage level, a status, a
size and a short hash; they live in JSON task databases, and a TOML
configuration lists the databases.

- `src/` is the library, verified with Verus: the task levels (`task`), task
  databases (`database`), the configuration (`config`), derived paths and
  defaults (`paths`), task hashes (`hash`) and text helpers (`text`).
- `app/` is the `snow` command line program: argument parsing, prompts,
  files, and the stored (serde) forms of the library's types.
- `tests/` exercises the library on concrete values.
