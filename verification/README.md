# winch_stack

The value stack that a single-pass WebAssembly compiler keeps while it
translates a function body, written in Verus and proved against its
contracts, with the small decisions around it: turning WebAssembly text into
a binary module, and checking the settings the compiler is built with.

- `src/` is the verified library (see the module list in `src/lib.rs`).
- `tests/` runs it on concrete values.
- `app/` holds the C entry point for text-to-binary conversion and the file
  handling of the module explorer.

Not here: the compiler builder's forwarding (target, named flags, settings,
description and the final build) to the instruction-set lookup and the
optimizing compiler's builder, and the explorer's page generation. They live
in the engine's own crates, which this project does not depend on; the app
takes the page generator as an argument.
