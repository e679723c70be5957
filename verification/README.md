# cmddeck

A terminal launcher for saved shell commands (`cm`), with its core verified
by Verus.

- `src/` is the verified library: the command entries (`model`), the
  fuzzy-search ranking shown in the list (`ranking`, `fuzzy`), list
  selection (`selection`), the add/edit form and the launcher state
  (`app`), the decisions taken on each terminal event (`events`), row
  labels (`view`), white-space trimming (`text`), text inputs (`input`) and
  popup placement (`layout`).
- `app/` is the program around it: command-line parsing, the commands file
  (`~/.config/cmddeck/commands.toml`), colour themes, the terminal session,
  drawing, and running a chosen command in the user's shell.
- `tests/` exercises the library on concrete values.
