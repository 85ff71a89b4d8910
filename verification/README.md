# spindle_macros

The logic behind the spindle procedural macros (`init`, `map`, `spin`), which
lift plain Rust functions to GPU kernels: which functions are accepted, how
macro inputs are read, what the generated items are called, where the
generated crate lives and how it is built.

Layout:

- `src/` — the library, verified with Verus. Macro inputs arrive as plain
  values: a flat token sequence (`tokens::Tok`) or a model of a function item
  (`syntax::ItemFnModel`). Every accepted input and every rejection is stated
  in the functions' contracts, over spec functions of the grammar and of the
  rules; the laws (`law_*` proof functions) state what holds across calls,
  such as that each parser reads back the input it is written with.
- `tests/` — tests on concrete values.
- `app/` — the front end over `proc_macro2` and `syn`: converting token
  streams and syntax trees into the library's values, emitting the generated
  code with `quote`, and the file and process work of building the generated
  crate.
