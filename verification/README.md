# clean_runner

The host side of a runner for compiled Clean Language programs. Such a program
is a WebAssembly module; it calls its host for console output, strings, lists,
arrays and memory.

- `src/` holds the library. Every function states what it does in its contract,
  and Verus proves it. The calls into `wasmtime` stand behind a few declared
  functions in `guest.rs` and `launch.rs`.
- `app/` is the program: it reads a module, links the functions of
  `src/abi.rs` to it, runs it, prints what the library hands over and does the
  floating-point arithmetic.
- `tests/` runs the library, with real modules where it needs a guest.

| module | subject |
| --- | --- |
| `word` | pointers, rounding, little-endian words |
| `frame` | strings behind their length |
| `text` | decimal numbers, trimming, splitting, replacing, patterns |
| `arena` | the host's allocator and its scopes |
| `host` | shared state: allocator, console, faults |
| `guest` | the guest's memory and heap pointer; storing a string |
| `list` | storing a list of strings |
| `strings`, `arrays`, `output`, `scalar` | the host functions |
| `abi` | the table of host functions, by module and name, and their types |
| `bridge` | the answer to each call of the guest |
| `launch` | the command line, loading a module and the function to start with |
