use wasm_instrumenter::ir::{
    add_fresh_local, BlockType, Code, Function, Instr, LocalOp, Module, NumericOp, StoreOp, Memarg, Val,
    ValType,
};
use wasm_instrumenter::names::{is_string_in_ini_funcs, str_eq, str_starts_with};

fn get(x: usize) -> Instr {
    Instr::Local(LocalOp::Get, x)
}

fn put(x: usize) -> Instr {
    Instr::Local(LocalOp::Put, x)
}

fn function(name: Option<&str>, params: usize, body: Vec<Instr>) -> Function {
    Function {
        name: name.map(|s| s.to_string()),
        params: vec![ValType::I32; params],
        results: vec![],
        import: None,
        code: Some(Code { locals: vec![], body }),
    }
}

#[test]
fn ini_funcs_are_recognised() {
    assert!(is_string_in_ini_funcs(&Some("_start".to_string())));
    assert!(is_string_in_ini_funcs(&Some("__memcpy".to_string())));
    assert!(is_string_in_ini_funcs(&Some("__addtf3".to_string())));
    assert!(!is_string_in_ini_funcs(&Some("main".to_string())));
    assert!(!is_string_in_ini_funcs(&Some("_start2".to_string())));
    assert!(!is_string_in_ini_funcs(&None));
}

#[test]
fn string_helpers_compare_bytes() {
    assert!(str_eq("abc", "abc"));
    assert!(!str_eq("abc", "abd"));
    assert!(!str_eq("abc", "ab"));
    assert!(str_starts_with("__foo", "__"));
    assert!(!str_starts_with("_foo", "__"));
    assert!(str_starts_with("std::vec", "std::"));
    assert!(!str_starts_with("", "__"));
    assert!(str_starts_with("x", ""));
}

#[test]
fn add_fresh_local_numbers_after_params() {
    let mut locals = vec![ValType::I64];
    let idx = add_fresh_local(&mut locals, 3, ValType::I32);
    assert_eq!(idx, 4);
    assert_eq!(locals, vec![ValType::I64, ValType::I32]);
    let idx2 = add_fresh_local(&mut locals, 3, ValType::F64);
    assert_eq!(idx2, 5);
}

#[test]
fn null_reference_checks_store_address() {
    let store = Instr::Store(StoreOp::I32Store, Memarg { alignment_exp: 2, offset: 0 });
    let body = vec![get(0), get(1), store, Instr::End];
    let mut m = Module { functions: vec![function(Some("f"), 2, body)], globals: vec![] };
    wasm_instrumenter::passes::null_reference(&mut m);
    let code = m.functions[0].code.as_ref().unwrap();
    assert_eq!(code.locals, vec![ValType::I32]);
    assert_eq!(
        code.body,
        vec![
            get(0), get(1), store,
            get(0), Instr::Const(Val::I32(0)), Instr::Numeric(NumericOp::I32Ne), put(2),
            Instr::Block(BlockType(None)), get(2), Instr::BrIf(0),
            Instr::Const(Val::I32(11)), Instr::Call(1), Instr::Unreachable, Instr::End,
            Instr::End,
        ]
    );
    // the checks call the proc_exit import that the pass added
    assert_eq!(m.functions.len(), 2);
    let imp = m.functions[1].import.as_ref().unwrap();
    assert_eq!((imp.module.as_str(), imp.name.as_str()), ("wasi_snapshot_preview1", "proc_exit"));
}

#[test]
fn null_reference_skips_reserved_and_unnamed() {
    let store = Instr::Store(StoreOp::I32Store, Memarg { alignment_exp: 2, offset: 0 });
    let body = vec![get(0), get(1), store, Instr::End];
    let mut m = Module {
        functions: vec![
            function(Some("__internal"), 2, body.clone()),
            function(None, 2, body.clone()),
            function(Some("is_i32_sign_add_overflow"), 2, body.clone()),
        ],
        globals: vec![],
    };
    wasm_instrumenter::passes::null_reference(&mut m);
    assert_eq!(m.functions.len(), 4);
    for f in &m.functions[..3] {
        assert_eq!(f.code.as_ref().unwrap().body, body);
        assert!(f.code.as_ref().unwrap().locals.is_empty());
    }
}
