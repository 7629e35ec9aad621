# qasm_harness

The harness that drives an OpenQASM-to-Q# front end in tests, with its
decisions proved in Verus.

- `src/` — the verified library: compiler configurations for each kind of
  run (`config`), the errors passed around (`diagnostics`), acceptance of a
  parse (`semantic`), the compiler state a compilation starts from
  (`compiler`), refusal of a failed compilation and choice of what goes on to
  code generation (`unit`), in-memory sources (`io`), the text a snapshot is
  checked against (`check`), and the model of the Q# syntax tree with its
  span-erasing visitor and the laws about it (`span`, `ast`).
- `app/` — ordinary Rust around it: rendering errors as `miette` reports,
  printing and failing tests, snapshot checks with `expect-test`, text diffs
  with `difference`, and the runs themselves over a front end supplied
  through the `QasmFrontEnd` trait.
- `tests/` — tests of the library on concrete values.
