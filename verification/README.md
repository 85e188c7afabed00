# codemigrator

Migrates the files that changed on a branch of one git repository onto a fresh
branch of another repository.

- `src/` is the verified library: which files changed between two branches
  (read through `gix`), which of them are migrated (`.java`, `.properties`,
  `.json`), what is written or removed in the destination, the `git` runs that
  update, branch and commit the destination, and the prompts' answers.
- `app/` is the command-line program around it: argument parsing, prompts,
  running `git`, and reading and writing the files.
- `tests/` exercises the library, building throwaway repositories with `gix`.
