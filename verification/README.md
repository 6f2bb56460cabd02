# wasm_instrumenter

Sanitizer passes for WebAssembly modules, verified with Verus. Each pass rewrites
function bodies so that an undefined behaviour (null store, integer overflow, lossy
truncation or demotion, bad shift, division by zero, missing return, clobbered
stack or heap canary) ends the program at run time through WASI `proc_exit`, which
the pass imports where missing, with the exit status of its sanitizer:

| status | sanitizer |
|---|---|
| 11 | null_reference |
| 12 | implicit_signed_integer_truncation |
| 13 | implicit_unsigned_integer_truncation |
| 14 | float_cast_overflow |
| 15 | non_return |
| 16 | implicit_integer_sign_change |
| 17 | shift |
| 18 | unsigned_integer_overflow |
| 19 | signed_integer_overflow |
| 20 | float_divide_by_zero |
| 21 | heap_canary |
| 22 | stack_canary |

- `src/ir.rs`: the module model (functions, locals, globals, instructions) and its views.
- `src/rules.rs`, `src/emit.rs`, `src/rewrite.rs`: the patterns each pass looks for,
  the checks it emits, and the body rewriting, with the laws it keeps.
- `src/passes.rs`, `src/linking.rs`: the passes over a module; linking of the
  overflow-checking helper functions and of the WASI `proc_exit` import.
- `src/canary.rs`, `src/heap.rs`: stack and heap canaries.
- `src/semantics.rs`: a small evaluator for the emitted checks, and laws on when each
  check ends the program, and on the heap and stack canary round trips.
- `app/`: the command line (`test INPUT OUTPUT FUNC`), reading and writing binaries
  with the `wasm` crate and converting them to and from the model.
