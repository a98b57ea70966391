# esolang_ide

The core of a small IDE for esoteric programming languages, verified with
Verus, and the desktop program around it.

- `src/` is the verified library: the interpreters' configuration
  (`config`), run requests and the interpreter interface (`interpreter`),
  the worker's message handling (`worker`), the collection of an interpreter
  process's output (`collector`), debugging sessions (`debug`), the terminal,
  editor and breakpoint state (`terminal_*`, `editor`, `breakpoint`), the
  user interface's decisions (`controller`), text utilities (`text`) and
  output decoding (`encoding`).
- `app/` is the program: configuration loading, the worker thread, the
  interpreter processes and the egui user interface.
- `tests/` exercises the library.
