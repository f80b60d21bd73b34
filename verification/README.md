# dhara_tool

Operator tooling for the Dhara Storage workspace, written in Verus.

The library in `src/` holds the tool's decisions with their contracts proved:

- `cli`, `args`, `commands`: the global options and each command's options;
- `command`, `registry`: the command model and the registry of sections and commands;
- `repo_config`, `manifest`, `csproj`, `drift`, `activation`: the repository
  configuration, the version fields of the manifests, the package project's
  metadata, configuration drift and what start-up does about it;
- `logging`, `trid`, `rank`, `runner`, `workspace`: audit log names and lines,
  the bookkeeping of the TrID reduction and the ranking of its survivors,
  command reports, the definitions package snapshot;
- `release`, `quality`, `native_rids`, `defs`, `paths`: release and check
  plans, runtime identifiers, default paths;
- `tui`, `gui`: the terminal interface's decisions and the desktop
  interface's message handling.

`app/` is the program around it: file and process access, the console and
the audit log file.
