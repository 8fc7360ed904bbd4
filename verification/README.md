# merge_tools

Starts external tools to resolve conflicts and to edit diffs in a repository. The rules are a Verus
library; each of its functions is proved to meet its contract.

- `src/settings.rs`, `src/tool.rs`, `src/command.rs`: which tool the settings ask for.
- `src/interpolate.rs`: `$left`, `$right`, `$base` and `$output` in the arguments of a tool.
- `src/run_mergetool.rs`, `src/edit_diff.rs`: the two tasks, stage by stage. A stage says what is to
  be done outside of the library, and takes what came of it.
- `src/readonly.rs`: the walk that makes files read-only.
- `src/read_config.rs`: where the settings come from, and in which order. That later sources win is up
  to the config crate, which merges them.
- `src/errors.rs`: what can go wrong, and how it is reported.
- `app/`: the part that touches files, processes, the environment and the repository.

Laws that relate several functions are the public proof functions whose names start with `law_`.
What is not proved is what the library takes from other crates: the functions marked
`external_body`, each with a contract that says what it relies on, and the contract of
`String::push`.
