# swc_css_codegen

A CSS code generator, verified with Verus. It walks a CSS syntax tree and
records the writer calls that print it (spaces, line breaks, raw text,
punctuation, strings, indentation), in a plain or a minified form. Text
calls carry the source position of the node they print, where it has one.

- `src/ast.rs`: the syntax tree.
- `src/ops.rs`: the writer calls that the generator records.
- `src/spec.rs`: what each node is printed as, stated as spec functions, and
  the invariants of the output: minified output holds no line break, and
  every indentation step is undone.
- `src/context.rs`: values never read the printing context, so it changes
  a declaration only by the `;` at its end.
- `src/codegen.rs`: the generator; each `emit_*` method appends exactly what
  `spec.rs` says for its node.
- `src/text.rs`: minified hex colors and numbers.
- `src/decimal.rs`: the value of a number text, and the proof that
  minifying a number keeps its value.
- `app/`: makes the recorded calls on a writer.
