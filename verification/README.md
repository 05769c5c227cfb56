# leaf

The verified core of leaf, a small WebAssembly serverless platform: a command
line that creates, builds and serves wasm projects, a runner that serves them,
and the bindings that components use to talk to the host.

- `src/` is the library, verified with Verus: project manifests and the build
  targets they determine, the commands' decisions, query strings, the admin
  routes, the component ABI layouts (return areas, header records, UTF-8
  texts, the blocks given back after a call), the host fetch's decisions and
  the choice of a WIT world.
- `tests/` runs the library on concrete values.
- `app/` is the program around it: the command line, file and network I/O,
  the HTTP servers and the wasm workers.
