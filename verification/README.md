# slacli

A Slack command-line client with an embedded skill bundle manager, whose logic is written
and proved in Verus.

## Layout

- `src/` — the verified library.
  - Skill bundles: `skill` (splitting SKILL.md into frontmatter and body), `validate`,
    `discover`, `copy` (what install, update and reinstall do with each skill, and the
    record of it), `versions`, `resolve` (installation directories), `smith`, `commands`
    (what each `skills` subcommand prints).
  - Slack client: `config` (profiles, tokens and channel aliases), `init`, `cli`, `slack`
    (API replies and profile fields), `state` and `logs` (local logs), `app_error`.
  - Shared: `text` (character-level string helpers), `json` (the `serde_json` calls),
    `str_map` (an insertion-ordered string map).
- `tests/` — tests of the library.
- `app/` — the `slacli` program: argument parsing, files, HTTP, prompts and printing.

Contracts are stated over `Seq<char>` views of strings and over `Map` views of the
string maps. Public proof functions named `law_*` state properties that relate several
calls or hold for every input.
