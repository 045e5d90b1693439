# rsbind

Binds the traits of a Rust crate to Java (Android, JAR) and Swift (iOS):
it reads the contract traits and structs of a host crate, maps their types
onto each language, plans the generated Rust bridge code and the Java and
Swift wrappers, and plans the build steps of the bridge and artifact
projects.

- `src/` is the library, written in Verus and verified: the contract
  parser (`ast`), the settings (`config`), the code generators (`gen`) and
  the build plans (`process`). Every public function states what it returns
  in its contract; the laws that span functions are public proof functions.
- `app/` is the command line tool around the library: reading settings and
  sources, rendering the planned code with `rstgen` and `proc-macro2`, and
  running the build steps.
- `tests/` exercises the library on concrete inputs.

Usage: `rsbind <project dir> android|ios|jar|all ast|bridge|artifact|header|build|all [--templates <dir>]`.
