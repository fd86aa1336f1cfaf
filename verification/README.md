# workon

A verified library for Workon, the CLI and compact TUI that creates
agent-ready context workspaces (`wo`), and the program around it.

- `src/` is the library, written in Verus: command-line parsing, output
  rendering, the Work store's metadata and slugs, shell integration
  scripts, and the whole interactive view as a state machine (Work queue,
  filter, command leader, create/archive forms, intent list, repository
  context with its catalog, loader, batches and workspace dialog). Every
  public function carries a contract over mathematical models; laws that
  relate several functions are public proof functions (`law_*`).
- `tests/` runs the library on concrete values.
- `app/` is the program: environment, files, terminal drawing with
  `ratatui` and the event loop, which performs the steps the library
  decides.

The program serves the commands that need only the Work store and the
shell files: listing, opening and creating Works, and installing the shell
integration. The archive, intent and repository commands answer with an
error, and every repository source of the interactive view reports itself
unavailable: they need the Workon application services (GitHub, git and
the archive store), which this program does not hold. The library still
decides everything those commands and sources feed into.
