# proto

`proto` is a command-line companion for Linux and macOS users: a
cross-distribution package-manager wrapper, git shortcuts, a shell alias
builder, system information, self-update, shell completions and a plugin
system with a registry of installed plugins.

The crate is written in Verus.

- `src/` is the verified library: command-line routing, the commands built
  for each package manager, plugin references, the plugin registry and its
  laws (lookup after add/remove, idempotent add, distinct names), release
  and asset selection, the install and update steps of plugins as state
  machines, alias file editing (an appended alias is listed back), version
  comparison, the once-a-day update check, checksum handling, the help
  pages and listings, and terminal styling. Every
  public function states its result in `ensures` over mathematical models
  (`Seq<char>` for text, views of the records).
- `app/` is the program around it: argument parsing with clap, terminal
  prompts, files, processes, HTTP requests and the system probe. It hands
  the library plain values and prints what comes back.
- `tests/` runs the library on concrete values.

The few calls that the library makes into outside code (appending a
character to a `String`, Unicode lower-casing,
owo-colors' ANSI styling and SHA-256) stand behind small trusted wrappers
whose contracts are documented where they are declared.
