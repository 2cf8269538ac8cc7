# phrase_explorer

Finds the commits of a git repository whose changes to one file hold a given
phrase, and describes the changes a commit makes.

- `src/` is the verified library: the change model (`change`, `change_type`,
  `delta_file_ref`, `changes`), commits and signatures (`commit`), times
  (`time`, on top of `chrono`), text handling (`text`), the phrase search and
  its report (`search`), and the command-line settings (`parser`).
- `app/` is the program around it: it reads the repository with `git2`, walks
  the commits in parallel with `rayon`, parses the command line with `clap`,
  and prints what the library computes.
- `tests/` runs the library on concrete values.
