use wasm_instrumenter::canary::{
    instrument_function_with_stack_canary, instrument_with_stack_canary_check, requires_canary_check,
};
use wasm_instrumenter::heap::instrument_with_heap_canary_check;
use wasm_instrumenter::ir::{
    BlockType, Code, Function, Global, GlobalOp, Instr, LoadOp, LocalOp, Memarg, Module, NumericOp,
    StoreOp, Val, ValType,
};

fn get(x: usize) -> Instr {
    Instr::Local(LocalOp::Get, x)
}
fn c32(v: i32) -> Instr {
    Instr::Const(Val::I32(v))
}
fn c64(v: i64) -> Instr {
    Instr::Const(Val::I64(v))
}
fn gget(g: usize) -> Instr {
    Instr::Global(GlobalOp::Get, g)
}
fn gput(g: usize) -> Instr {
    Instr::Global(GlobalOp::Put, g)
}
fn mem(offset: u32) -> Memarg {
    Memarg { alignment_exp: 0, offset }
}

fn function(name: &str, params: usize, results: Vec<ValType>, body: Vec<Instr>) -> Function {
    Function {
        name: Some(name.to_string()),
        params: vec![ValType::I32; params],
        results,
        import: None,
        code: Some(Code { locals: vec![], body }),
    }
}

fn stack_pointer() -> Global {
    Global { ty: ValType::I32, mutable: true, init: vec![c32(65536), Instr::End] }
}

#[test]
fn stack_canary_wraps_body_and_turns_returns_into_branches() {
    let mut f = function(
        "f",
        1,
        vec![ValType::I32],
        vec![Instr::Block(BlockType(None)), c32(1), Instr::Return, Instr::End, c32(2), Instr::Return, Instr::End],
    );
    instrument_function_with_stack_canary(&mut f, 0, 42, 5);
    let body = f.code.unwrap().body;
    assert_eq!(
        body,
        vec![
            gget(0), c32(16), Instr::Numeric(NumericOp::I32Sub), gput(0), gget(0), c64(42),
            Instr::Store(StoreOp::I64Store, mem(0)),
            Instr::Block(BlockType(Some(ValType::I32))),
            Instr::Block(BlockType(None)), c32(1), Instr::Br(1), Instr::End, c32(2), Instr::Br(0), Instr::End,
            Instr::Block(BlockType(None)), gget(0), Instr::Load(LoadOp::I64Load, mem(0)), c64(42),
            Instr::Numeric(NumericOp::I64Eq), Instr::BrIf(0), c32(22), Instr::Call(5), Instr::Unreachable,
            Instr::End, gget(0), c32(16), Instr::Numeric(NumericOp::I32Add), gput(0),
            Instr::End,
        ]
    );
}

#[test]
fn stack_canary_check_uses_zero_canary() {
    let stack_alloc = vec![
        gget(0), get(0), Instr::Numeric(NumericOp::I32Sub), c32(-16), Instr::Numeric(NumericOp::I32And),
        Instr::Local(LocalOp::Tee, 1), gput(0), get(1), Instr::End,
    ];
    let stack_restore = vec![get(0), gput(0), Instr::End];
    let mut m = Module {
        functions: vec![
            function("work", 0, vec![], vec![Instr::Opaque(5), Instr::End]),
            function("stackAlloc", 1, vec![ValType::I32], stack_alloc.clone()),
            function("stackRestore", 1, vec![], stack_restore.clone()),
            function("empty", 0, vec![], vec![Instr::End]),
        ],
        globals: vec![stack_pointer()],
    };
    instrument_with_stack_canary_check(&mut m);
    // the proc_exit import is added after the four functions
    assert_eq!(m.functions.len(), 5);
    assert!(m.functions[4].code.is_none());
    let work = m.functions[0].code.as_ref().unwrap().body.clone();
    assert_eq!(work.len(), 7 + 1 + 2 + 14 + 1);
    assert_eq!(work[5], c64(0));
    assert_eq!(work[13], c64(0));
    assert_eq!(work[16..19].to_vec(), vec![c32(22), Instr::Call(4), Instr::Unreachable]);
    assert_eq!(m.functions[1].code.as_ref().unwrap().body, stack_alloc);
    assert_eq!(m.functions[2].code.as_ref().unwrap().body, stack_restore);
    assert_eq!(m.functions[3].code.as_ref().unwrap().body, vec![Instr::End]);
}

fn allocator_module() -> Module {
    Module {
        functions: vec![
            function("dlmalloc", 1, vec![ValType::I32], vec![Instr::Opaque(1), Instr::End]),
            function("dlfree", 1, vec![], vec![Instr::Opaque(2), Instr::End]),
        ],
        globals: vec![stack_pointer()],
    }
}

#[test]
fn heap_canary_instruments_malloc_and_free() {
    let mut m = allocator_module();
    let found = instrument_with_heap_canary_check(&mut m);
    assert_eq!(found, (false, false));
    assert_eq!(m.globals.len(), 3);
    assert_eq!(m.globals[1].init, vec![c32(0), Instr::End]);
    assert!(m.globals[2].mutable);

    let malloc = m.functions[0].code.as_ref().unwrap();
    assert_eq!(malloc.locals, vec![ValType::I32, ValType::I32]);
    // prefix: enlarge the request unless insertion is switched off (global 2)
    assert_eq!(
        malloc.body[..11].to_vec(),
        vec![
            Instr::Block(BlockType(None)), gget(2), c32(1), Instr::Numeric(NumericOp::I32Eq), Instr::BrIf(0),
            get(0), c32(20), Instr::Numeric(NumericOp::I32Add), Instr::Local(LocalOp::Tee, 1),
            Instr::Local(LocalOp::Put, 0), Instr::End,
        ]
    );
    assert_eq!(malloc.body[11], Instr::Opaque(1));
    assert_eq!(malloc.body[12], Instr::Local(LocalOp::Put, 2));
    assert_eq!(*malloc.body.last().unwrap(), Instr::End);

    let free = m.functions[1].code.as_ref().unwrap();
    assert_eq!(free.body[..5].to_vec(), vec![Instr::Block(BlockType(None)), gget(1), c32(1), Instr::Numeric(NumericOp::I32Eq), Instr::BrIf(0)]);
    assert_eq!(free.body.len(), 40 + 2);
    // both canary checks exit with status 21 through the proc_exit import (function 2)
    let exits = free.body.windows(3).filter(|w| *w == [c32(21), Instr::Call(2), Instr::Unreachable]).count();
    assert_eq!(exits, 2);
    assert_eq!(m.functions.len(), 3);
}

#[test]
fn heap_canary_reports_realloc_and_calloc() {
    let mut m = allocator_module();
    m.functions.push(function("realloc", 2, vec![ValType::I32], vec![Instr::Opaque(3), Instr::Return, Instr::End]));
    m.functions.push(function("dlcalloc", 2, vec![ValType::I32], vec![Instr::Opaque(4), Instr::End]));
    let found = instrument_with_heap_canary_check(&mut m);
    assert_eq!(found, (true, true));
    let realloc = m.functions[2].code.as_ref().unwrap();
    assert_eq!(realloc.locals, vec![ValType::I32, ValType::I32]);
    assert!(!realloc.body.contains(&Instr::Return));
    // the body is wrapped: the return became a branch out of the wrapping block
    assert!(realloc.body.contains(&Instr::Br(0)));
    let calloc = m.functions[3].code.as_ref().unwrap();
    assert_eq!(calloc.locals, vec![ValType::I32, ValType::I32, ValType::I32]);
    assert_eq!(calloc.body[0], c32(1));
    assert_eq!(calloc.body[1], gput(2));
    let n = calloc.body.len();
    assert_eq!(calloc.body[n - 3..].to_vec(), vec![c32(0), gput(2), Instr::End]);
}

#[test]
fn canary_selection_skips_short_and_stack_routines() {
    let stack_restore = function("stackRestore", 1, vec![], vec![get(0), gput(0), Instr::End]);
    assert!(!requires_canary_check(&stack_restore, 0));
    // the same shape on another global is an ordinary function
    let other_global = function("g", 1, vec![], vec![get(0), gput(1), Instr::End]);
    assert!(requires_canary_check(&other_global, 0));
    let tiny = function("t", 0, vec![], vec![Instr::End]);
    assert!(!requires_canary_check(&tiny, 0));
    let work = function("w", 0, vec![], vec![Instr::Opaque(1), Instr::End]);
    assert!(requires_canary_check(&work, 0));
}
