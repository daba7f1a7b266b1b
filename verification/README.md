# Sans front end, verified

The lexer, parser and type checker of the Sans language, with the mapping
of checked types to IR types, written in Verus.  Every executable function
is proved against a specification written as spec functions over the
mathematical views of its inputs.

## Layout

- `text.rs` – UTF-8 facts and the few string operations of std used.
- `token.rs`, `lexer.rs` – tokens and the lexer; `lex` is proved equal to
  `spec_lex`.
- `ast.rs`, `parser_spec.rs`, `parser.rs` – the syntax tree, the grammar as
  spec functions, and `parse`, proved equal to `parse_source`.
- `types.rs`, `ir.rs` – checked types and their IR types.
- `typeck_spec.rs` – what checking an expression or a statement gives
  (`tc_expr`, `tc_stmt`), with the built-in functions and methods.
- `builtins.rs`, `plans.rs`, `calls.rs`, `checker.rs` – the checks of
  expressions and statements, proved against `tc_expr` and `tc_stmt`.
- `program_spec.rs`, `program.rs`, `typeck.rs` – registries built from the
  declarations, the checks of all bodies, and `check` / `check_module`,
  proved against `check_program`.
- `filled.rs` – whether a program may be given to `check` (methods have
  `self`, array literals have elements); `parse` only gives back such
  programs.
- `captures.rs` – the variables of the enclosing scope that a lambda body
  captures, once each, in the order of first use.
- `lower.rs` – the IR (instructions, functions, modules) and the lowering of
  programs to it: `lower`, `lower_with_extra_structs`, `lower_function_named`
  and the builder's `lower_expr` / `lower_stmt`, each proved against a spec
  function (`lower_program_s`, `lower_function_s`, `lower_expr_s`,
  `lower_stmt_s`). Forms it leaves out give `None`.
- `laws.rs` – properties of the checker as a whole, as proof functions.

Registries are association lists (`Vec` of pairs): a name is found at its
first entry and recording it again replaces that entry's value.
