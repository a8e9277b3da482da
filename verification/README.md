# mono-injector-core

The planning layer of a tool that injects managed .NET assemblies into
processes hosting Mono (Unity games in particular), with its behaviour stated
and proved with Verus.

- `src/` is the verified library: target resolution and process listings,
  profiles, remembered injections and the record guard for ejection,
  injection and ejection planning, the step function that drives an
  injection (Steam launch, waiting for the target and its readiness module,
  the settle delay, the remote call), namespace inference from .NET
  metadata, and the state machines of the command-line and graphical
  frontends.
- `tests/` exercises the library on concrete values.
- `app/` is the `mono-injector` command-line program: argument handling,
  files, the process snapshot, sleeping and terminal output around the
  library; it performs each step that the library decides.

The remote Mono calls themselves are made by a separate low-level crate that
is not part of this repository; `app/` reports them as unavailable.
