# rjava

Java interop for Rust, with the decisions verified by Verus.

The crate has two parts.

- `src/` is the library. It converts values, reads and writes descriptors, resolves
  overloads, answers calls on proxies, follows Java futures, builds beans, and parses and
  expands the macros `native!`, `native_inst!`, `async_native!`, `bind!` and `interface!`.
  Every item is verified. It holds no reference to a virtual machine: objects are numbers,
  and an operation that needs answers from the machine is a small state machine with a
  contract for each step.
- `app/` performs what the library decides. It attaches threads, makes the JNI calls, keeps
  the Java objects alive behind the numbers, runs the workers, carries beans through serde,
  and turns the compiler's tokens into the library's. Programs depend on it under the name
  `rjava`, which the expansions of the macros use.

What the library takes on trust from other crates is written at each place: `jni` for the
grammar of signatures and for UTF-16 code units. Of what `syn` and
`proc-macro2` answer about Rust source text, only the answers about plain texts are taken on
trust: words, paths, literals without escapes, simple types. The library says which pieces
it asks about, and verified functions take the answers as arguments.

Class files of the proxy shell, and the trampolines of synchronous native methods, come
from the program that embeds `app/`.

`tests/` runs the library, with the outside crates linked.
