use wasm_instrumenter::canary::{check_stack_canary_ready, closes_own_scope};
use wasm_instrumenter::heap::check_heap_ready;
use wasm_instrumenter::ir::{BlockType, Code, Function, Global, Import, Instr, LocalOp, Module, NumericOp, Val, ValType};
use wasm_instrumenter::linking::check_signed_overflow_ready;
use wasm_instrumenter::passes::{null_reference, shift, unreserved_selection};
use wasm_instrumenter::rewrite::check_ready;
use wasm_instrumenter::rules::Sanitizer;

fn get(x: usize) -> Instr {
    Instr::Local(LocalOp::Get, x)
}
fn c32(v: i32) -> Instr {
    Instr::Const(Val::I32(v))
}

fn function(name: &str, params: usize, body: Vec<Instr>) -> Function {
    Function {
        name: Some(name.to_string()),
        params: vec![ValType::I32; params],
        results: vec![],
        import: None,
        code: Some(Code { locals: vec![], body }),
    }
}

fn imported(name: &str) -> Function {
    Function {
        name: Some(name.to_string()),
        params: vec![ValType::I32, ValType::I32],
        results: vec![ValType::I32],
        import: Some(Import { module: "env".to_string(), name: name.to_string() }),
        code: None,
    }
}

fn stack_pointer() -> Global {
    Global { ty: ValType::I32, mutable: true, init: vec![c32(65536), Instr::End] }
}

#[test]
fn scope_closing_is_detected() {
    assert!(closes_own_scope(&vec![Instr::End]));
    assert!(closes_own_scope(&vec![Instr::Block(BlockType(None)), Instr::Return, Instr::End, Instr::End]));
    assert!(!closes_own_scope(&vec![]));
    assert!(!closes_own_scope(&vec![Instr::Block(BlockType(None)), Instr::End]));
    assert!(!closes_own_scope(&vec![Instr::End, Instr::End]));
}

#[test]
fn stack_canary_needs_a_stack_pointer_and_closed_bodies() {
    let good = Module {
        functions: vec![function("f", 0, vec![Instr::Opaque(1), Instr::End])],
        globals: vec![stack_pointer()],
    };
    assert!(check_stack_canary_ready(&good));
    let no_globals = Module { functions: vec![], globals: vec![] };
    assert!(!check_stack_canary_ready(&no_globals));
    let open_body = Module {
        functions: vec![function("f", 0, vec![Instr::Block(BlockType(None)), Instr::Opaque(1), Instr::End])],
        globals: vec![stack_pointer()],
    };
    assert!(!check_stack_canary_ready(&open_body));
    // a one-instruction body needs no canary, so its shape does not matter
    let tiny = Module { functions: vec![function("f", 0, vec![Instr::Opaque(1)])], globals: vec![stack_pointer()] };
    assert!(check_stack_canary_ready(&tiny));
}

#[test]
fn heap_canary_needs_malloc_and_free() {
    let both = Module {
        functions: vec![
            function("dlmalloc", 1, vec![Instr::Opaque(1), Instr::End]),
            function("dlfree", 1, vec![Instr::Opaque(2), Instr::End]),
        ],
        globals: vec![],
    };
    assert!(check_heap_ready(&both));
    let no_free = Module { functions: vec![function("dlmalloc", 1, vec![Instr::End])], globals: vec![] };
    assert!(!check_heap_ready(&no_free));
    let no_malloc = Module { functions: vec![function("dlfree", 1, vec![Instr::End])], globals: vec![] };
    assert!(!check_heap_ready(&no_malloc));
    let open_realloc = Module {
        functions: vec![
            function("dlmalloc", 1, vec![Instr::End]),
            function("dlfree", 1, vec![Instr::End]),
            function("realloc", 2, vec![Instr::Block(BlockType(None)), Instr::End]),
        ],
        globals: vec![],
    };
    assert!(!check_heap_ready(&open_realloc));
}

#[test]
fn signed_overflow_needs_helpers_with_code() {
    let helper = |name: &str| function(name, 2, vec![Instr::Opaque(9), Instr::End]);
    let add_sub = Module {
        functions: vec![
            helper("is_i32_sign_add_overflow"),
            helper("is_i64_sign_add_overflow"),
            helper("is_i32_sign_sub_overflow"),
            helper("is_i64_sign_sub_overflow"),
        ],
        globals: vec![],
    };
    let mul = Module { functions: vec![helper("i32_is_mul_overflow"), helper("i64_is_mul_overflow")], globals: vec![] };
    let target = Module { functions: vec![function("main", 2, vec![Instr::End])], globals: vec![] };
    assert!(check_signed_overflow_ready(&target, &add_sub, &mul));
    let mul_imported = Module {
        functions: vec![helper("i32_is_mul_overflow"), imported("i64_is_mul_overflow")],
        globals: vec![],
    };
    assert!(!check_signed_overflow_ready(&target, &add_sub, &mul_imported));
    let empty = Module { functions: vec![], globals: vec![] };
    assert!(!check_signed_overflow_ready(&target, &empty, &mul));
}

#[test]
fn truncation_refuses_trailing_wrap() {
    let body = vec![get(0), Instr::Local(LocalOp::Put, 1), Instr::Numeric(NumericOp::I32WrapI64)];
    let m = Module { functions: vec![function("f", 2, body)], globals: vec![] };
    assert!(!check_ready(&m, Sanitizer::Truncation { signed: true }, unreserved_selection()));
    assert!(check_ready(&m, Sanitizer::Shift, unreserved_selection()));
}

#[test]
fn passes_without_sites_change_nothing() {
    let body = vec![get(0), get(1), Instr::Numeric(NumericOp::I32Add), Instr::Opaque(3), Instr::End];
    let mut m = Module { functions: vec![function("f", 2, body.clone())], globals: vec![stack_pointer()] };
    null_reference(&mut m);
    shift(&mut m);
    assert_eq!(m.functions[0].code.as_ref().unwrap().body, body);
    assert!(m.functions[0].code.as_ref().unwrap().locals.is_empty());
    assert_eq!(m.globals.len(), 1);
}
