# marlin-verilator

A runtime that turns (System)Verilog modules into Rust objects: it generates C bindings for a
module, has Verilator and a C++ compiler build them into a shared library, loads the library and
reads and writes the module's ports.

- `src/` is the library. It holds everything that decides something: the generated C++ code, the
  command lines, when a library has to be built, in which order the steps of a build come, which
  requests are refused, under which key a library is found again, and which values fit which ports.
  All of it is written in Verus and proved against its contracts. The few calls into `camino`,
  `boxcar` and the standard library that are believed rather than proved say so where they stand.
- `app/` runs programs, reads and writes files, loads libraries and calls into them. It asks the
  library what to do and tells it what came of it.
- `tests/` runs the library on concrete values.

The modules of the library:

| module | |
| --- | --- |
| `text`, `types`, `path` | decimal numbers and searching in text, C types, joining paths |
| `config`, `version` | what a user configures, and which versions of Verilator are accepted |
| `port`, `wide`, `value`, `dynamic` | ports, wide values, and models whose ports are known at run time |
| `ffi_names`, `ffi`, `dpi` | the generated C++ code |
| `build_library` | the steps of a build |
| `fingerprint`, `registry`, `request`, `runtime` | requests for libraries, and the libraries that are loaded |
