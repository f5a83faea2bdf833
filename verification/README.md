# git-vmr

A Git front end that treats several repositories as one virtual monorepo
(VMR): a directory holding a `.gitvmr` marker and the child repositories.
Each command runs the matching `git` command in every child repository (or
in those that own the paths it was given) and reports the results as one.

## Layout

- `src/` — the library, verified with Verus: what every command runs in each
  child repository, how git's output is read (porcelain status, branch and
  tag listings, heads), how a push is classified before anything is sent,
  how diffs are rewritten to VMR-relative paths, how outcomes are
  aggregated and rendered, path routing, configuration and analytics
  decisions. `src/cli/` holds the parts that read the child repositories
  directly: the cross-repository `mv`, which the program uses, and a
  whole-VMR status report and a merge summary, which are library functions
  that the program does not call (its `status` and `merge` commands go
  through `src/commands/`).
- `tests/` — tests of the library on concrete values.
- `app/` — the program: argument parsing, processes, files, terminal output.
