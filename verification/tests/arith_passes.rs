use wasm_instrumenter::ir::{
    BlockType, Code, Function, Import, Instr, LoadOp, LocalOp, Memarg, Module, NumericOp, StoreOp, Val,
    ValType,
};
use wasm_instrumenter::linking::{add_proc_exit, copy_function, signed_integer_overflow};
use wasm_instrumenter::passes::{
    float_cast_overflow, float_divide_by_zero, implicit_integer_sign_change,
    implicit_signed_integer_truncation, implicit_unsigned_integer_truncation, non_return, shift,
    unsigned_integer_overflow,
};

fn get(x: usize) -> Instr {
    Instr::Local(LocalOp::Get, x)
}
fn put(x: usize) -> Instr {
    Instr::Local(LocalOp::Put, x)
}
fn tee(x: usize) -> Instr {
    Instr::Local(LocalOp::Tee, x)
}
fn n(op: NumericOp) -> Instr {
    Instr::Numeric(op)
}
fn c32(v: i32) -> Instr {
    Instr::Const(Val::I32(v))
}
fn c64(v: i64) -> Instr {
    Instr::Const(Val::I64(v))
}
fn blk() -> Instr {
    Instr::Block(BlockType(None))
}
fn mem() -> Memarg {
    Memarg { alignment_exp: 0, offset: 0 }
}

fn function(name: Option<&str>, params: usize, results: usize, body: Vec<Instr>) -> Function {
    Function {
        name: name.map(|s| s.to_string()),
        params: vec![ValType::I32; params],
        results: vec![ValType::I32; results],
        import: None,
        code: Some(Code { locals: vec![], body }),
    }
}

fn single(name: &str, params: usize, body: Vec<Instr>) -> Module {
    Module { functions: vec![function(Some(name), params, 0, body)], globals: vec![] }
}

fn body_of(m: &Module, i: usize) -> Vec<Instr> {
    m.functions[i].code.as_ref().unwrap().body.clone()
}

/// `i32.const code; call pe; unreachable`
fn trap(code: i32, pe: usize) -> Vec<Instr> {
    vec![c32(code), Instr::Call(pe), Instr::Unreachable]
}

fn cat(parts: Vec<Vec<Instr>>) -> Vec<Instr> {
    parts.concat()
}

fn locals_of(m: &Module, i: usize) -> Vec<ValType> {
    m.functions[i].code.as_ref().unwrap().locals.clone()
}

#[test]
fn signed_truncation_check_uses_two_fresh_locals() {
    let body = vec![Instr::Opaque(7), Instr::Opaque(8), get(1), n(NumericOp::I32WrapI64), put(2), Instr::End];
    let mut m = single("f", 3, body);
    implicit_signed_integer_truncation(&mut m);
    assert_eq!(locals_of(&m, 0), vec![ValType::I32, ValType::I64]);
    // the check reads `local 2` after the wrapped value was stored in it
    assert_eq!(
        body_of(&m, 0),
        cat(vec![
            vec![
                Instr::Opaque(7), Instr::Opaque(8), get(1), n(NumericOp::I32WrapI64), put(2),
                blk(), get(2), put(3), get(3), n(NumericOp::I64ExtendI32S), put(4), get(4), get(1),
                n(NumericOp::I64Eq), Instr::BrIf(0),
            ],
            trap(12, 1),
            vec![Instr::End, Instr::End],
        ])
    );
}

#[test]
fn unsigned_truncation_check_zero_extends() {
    let body = vec![Instr::Opaque(7), Instr::Opaque(8), get(1), n(NumericOp::I32WrapI64), put(2), Instr::End];
    let mut m = single("f", 3, body);
    implicit_unsigned_integer_truncation(&mut m);
    let b = body_of(&m, 0);
    assert_eq!(b.len(), 6 + 14);
    assert_eq!(b[9], n(NumericOp::I64ExtendI32U));
    assert_eq!(b[15..18].to_vec(), trap(13, 1));
}

#[test]
fn truncation_needs_wrap_between_locals() {
    // too early in the body: positions 0 and 1 are never sites
    let body = vec![get(1), n(NumericOp::I32WrapI64), put(2), Instr::End];
    let mut m = single("f", 3, body.clone());
    implicit_signed_integer_truncation(&mut m);
    assert_eq!(body_of(&m, 0), body);
    assert!(locals_of(&m, 0).is_empty());
}

#[test]
fn float_cast_checks_demotion_and_saturation() {
    let body = vec![
        Instr::Opaque(1), get(0), n(NumericOp::F32DemoteF64), put(1),
        n(NumericOp::I32TruncF64S), Instr::End, c32(-2147483648), Instr::End,
    ];
    let mut m = single("g", 2, body);
    float_cast_overflow(&mut m);
    assert_eq!(locals_of(&m, 0), vec![ValType::I32]);
    assert_eq!(
        body_of(&m, 0),
        cat(vec![
            vec![
                Instr::Opaque(1), get(0), n(NumericOp::F32DemoteF64), put(1),
                get(1), n(NumericOp::F64PromoteF32), get(0), n(NumericOp::F64Eq), put(2),
                blk(), get(2), Instr::BrIf(0),
            ],
            trap(14, 1),
            vec![Instr::End, n(NumericOp::I32TruncF64S), Instr::End, c32(-2147483648)],
            trap(14, 1),
            vec![Instr::End],
        ])
    );
}

#[test]
fn float_cast_saturation_needs_a_conversion_first() {
    let body = vec![Instr::Opaque(1), Instr::Opaque(2), Instr::End, c32(-2147483648), Instr::End];
    let mut m = single("g", 0, body.clone());
    float_cast_overflow(&mut m);
    assert_eq!(body_of(&m, 0), body);
}

#[test]
fn non_return_traps_after_fallthrough() {
    let mut m = Module {
        functions: vec![
            function(None, 0, 1, vec![c32(1), Instr::End]),
            function(None, 0, 1, vec![c32(1), Instr::Return, Instr::End]),
            function(None, 0, 0, vec![Instr::Opaque(1), Instr::End]),
            function(None, 0, 1, vec![Instr::Unreachable, Instr::End]),
        ],
        globals: vec![],
    };
    non_return(&mut m);
    // the exit comes before the closing `end`, inside the function
    assert_eq!(body_of(&m, 0), cat(vec![vec![c32(1)], trap(15, 4), vec![Instr::End]]));
    assert_eq!(body_of(&m, 1), vec![c32(1), Instr::Return, Instr::End]);
    assert_eq!(body_of(&m, 2), vec![Instr::Opaque(1), Instr::End]);
    assert_eq!(body_of(&m, 3), vec![Instr::Unreachable, Instr::End]);
    assert_eq!(m.functions.len(), 5);
}

#[test]
fn sign_change_after_zero_extending_loads() {
    let body = vec![
        Instr::Load(LoadOp::I32Load8U, mem()), put(1),
        Instr::Load(LoadOp::I64Load32U, mem()), put(2),
        Instr::Load(LoadOp::I32Load, mem()), put(3), Instr::End,
    ];
    let mut m = single("h", 1, body);
    implicit_integer_sign_change(&mut m);
    assert_eq!(
        body_of(&m, 0),
        cat(vec![
            vec![
                Instr::Load(LoadOp::I32Load8U, mem()), put(1),
                blk(), get(1), c32(24), n(NumericOp::I32Shl), c32(24), n(NumericOp::I32ShrS), c32(0),
                n(NumericOp::I32GeS), Instr::BrIf(0),
            ],
            trap(16, 1),
            vec![
                Instr::End,
                Instr::Load(LoadOp::I64Load32U, mem()), put(2),
                blk(), get(2), c64(32), n(NumericOp::I64Shl), c64(32), n(NumericOp::I64ShrS), c64(0),
                n(NumericOp::I64GeS), Instr::BrIf(0),
            ],
            trap(16, 1),
            vec![Instr::End, Instr::Load(LoadOp::I32Load, mem()), put(3), Instr::End],
        ])
    );
}

#[test]
fn sign_change_guards_allocator_and_copies() {
    let mut m = Module {
        functions: vec![
            function(Some("dlmalloc"), 1, 1, vec![Instr::End]),
            function(Some("memmove"), 3, 1, vec![Instr::End]),
            function(Some("_start"), 0, 0, vec![Instr::Load(LoadOp::I32Load8U, mem()), put(0), Instr::End]),
        ],
        globals: vec![],
    };
    implicit_integer_sign_change(&mut m);
    assert_eq!(
        body_of(&m, 0),
        cat(vec![
            vec![blk(), get(0), c32(0), n(NumericOp::I32GtS), Instr::BrIf(0)],
            trap(16, 3),
            vec![Instr::End, Instr::End],
        ])
    );
    assert_eq!(
        body_of(&m, 1),
        cat(vec![
            vec![blk(), get(2), c32(0), n(NumericOp::I32GeS), Instr::BrIf(0)],
            trap(16, 3),
            vec![Instr::End, Instr::End],
        ])
    );
    // runtime functions are not instrumented
    assert_eq!(body_of(&m, 2), vec![Instr::Load(LoadOp::I32Load8U, mem()), put(0), Instr::End]);
}

#[test]
fn shift_checks_operands() {
    let body = vec![get(0), get(1), n(NumericOp::I64Shl), Instr::End];
    let mut m = single("s", 2, body);
    shift(&mut m);
    assert_eq!(
        body_of(&m, 0),
        cat(vec![
            vec![
                get(0), get(1), n(NumericOp::I64Shl),
                blk(), blk(),
                get(0), c64(0), n(NumericOp::I64LtS), Instr::BrIf(0),
                get(1), c64(64), n(NumericOp::I64GeS), Instr::BrIf(0),
                get(1), c64(0), n(NumericOp::I64LtS), Instr::BrIf(0),
                Instr::Br(1), Instr::End,
            ],
            trap(17, 1),
            vec![Instr::End, Instr::End],
        ])
    );
}

#[test]
fn unsigned_overflow_checks_add_and_mul() {
    let body = vec![
        get(0), get(1), n(NumericOp::I32Add), put(2),
        get(0), get(1), n(NumericOp::I32Sub), put(2),
        get(0), get(1), n(NumericOp::I32Mul), put(3), Instr::End,
    ];
    let mut m = single("u", 4, body);
    unsigned_integer_overflow(&mut m);
    assert_eq!(
        body_of(&m, 0),
        cat(vec![
            vec![
                get(0), get(1), n(NumericOp::I32Add),
                tee(2), blk(), get(2), get(0), n(NumericOp::I32GeU), Instr::BrIf(0),
            ],
            trap(18, 1),
            vec![
                Instr::End,
                put(2),
                get(0), get(1), n(NumericOp::I32Sub), put(2),
                get(0), get(1), n(NumericOp::I32Mul),
                tee(3), blk(), get(0), n(NumericOp::I64ExtendI32U), get(1), n(NumericOp::I64ExtendI32U),
                n(NumericOp::I64Mul), get(3), n(NumericOp::I64ExtendI32U), n(NumericOp::I64Eq),
                Instr::BrIf(0),
            ],
            trap(18, 1),
            vec![Instr::End, put(3), Instr::End],
        ])
    );
}

#[test]
fn unsigned_overflow_checks_i64_sub() {
    let body = vec![get(0), get(1), n(NumericOp::I64Sub), put(2), Instr::End];
    let mut m = single("u", 3, body);
    unsigned_integer_overflow(&mut m);
    assert_eq!(
        body_of(&m, 0),
        cat(vec![
            vec![get(0), get(1), n(NumericOp::I64Sub), blk(), get(0), get(1), n(NumericOp::I64GeU), Instr::BrIf(0)],
            trap(18, 1),
            vec![Instr::End, put(2), Instr::End],
        ])
    );
}

#[test]
fn float_divide_checks_divisor() {
    let body = vec![Instr::Opaque(3), get(0), get(1), n(NumericOp::F32Div), Instr::End];
    let mut m = single("d", 2, body);
    float_divide_by_zero(&mut m);
    assert_eq!(
        body_of(&m, 0),
        cat(vec![
            vec![
                Instr::Opaque(3), get(0), get(1),
                Instr::Const(Val::F32(0)), get(1), n(NumericOp::F32Ne), put(2),
                blk(), get(2), Instr::BrIf(0),
            ],
            trap(20, 1),
            vec![Instr::End, n(NumericOp::F32Div), Instr::End],
        ])
    );
    assert_eq!(0.0f32.to_bits(), 0);
}

fn helper(name: &str) -> Function {
    function(Some(name), 2, 1, vec![Instr::Opaque(99), Instr::End])
}

fn helper_modules() -> (Module, Module) {
    let add_sub = Module {
        functions: vec![
            helper("is_i32_sign_add_overflow"),
            helper("is_i64_sign_add_overflow"),
            helper("is_i32_sign_sub_overflow"),
            helper("is_i64_sign_sub_overflow"),
        ],
        globals: vec![],
    };
    let mul = Module { functions: vec![helper("i32_is_mul_overflow"), helper("i64_is_mul_overflow")], globals: vec![] };
    (add_sub, mul)
}

#[test]
fn signed_overflow_calls_linked_helpers() {
    let body = vec![get(0), get(1), n(NumericOp::I64Mul), put(2), Instr::End];
    let mut m = single("main", 3, body);
    let (add_sub, mul) = helper_modules();
    signed_integer_overflow(&mut m, &add_sub, &mul);
    // main, the proc_exit import, then the six helpers
    assert_eq!(m.functions.len(), 8);
    assert_eq!(m.functions[1].import.as_ref().unwrap().name, "proc_exit");
    assert_eq!(m.functions[7].name.as_deref(), Some("i64_is_mul_overflow"));
    assert_eq!(body_of(&m, 7), vec![Instr::Opaque(99), Instr::End]);
    assert_eq!(
        body_of(&m, 0),
        cat(vec![
            vec![
                get(0), get(1), n(NumericOp::I64Mul),
                blk(), get(0), get(1), Instr::Call(7), n(NumericOp::I32Eqz), Instr::BrIf(0),
            ],
            trap(19, 1),
            vec![Instr::End, put(2), Instr::End],
        ])
    );
}

#[test]
fn signed_overflow_checks_narrow_sum() {
    let mut body = vec![Instr::Opaque(0); 12];
    body.push(get(0));
    body.push(n(NumericOp::I32Add));
    body.push(put(2));
    body.push(get(3));
    body.push(get(2));
    body.push(Instr::Store(StoreOp::I32Store8, mem()));
    body.push(Instr::End);
    let mut m = single("std_like", 4, body);
    let (add_sub, mul) = helper_modules();
    signed_integer_overflow(&mut m, &add_sub, &mul);
    let b = body_of(&m, 0);
    assert_eq!(locals_of(&m, 0), vec![ValType::I32, ValType::I32]);
    assert_eq!(
        b[14..35].to_vec(),
        cat(vec![
            vec![
                tee(4), get(4), c32(24), n(NumericOp::I32Shl), c32(24), n(NumericOp::I32ShrS), c32(127),
                n(NumericOp::I32GtS), get(4), c32(-128), n(NumericOp::I32LtS), n(NumericOp::I32Or),
                n(NumericOp::I32Eqz), put(5), blk(), get(5), Instr::BrIf(0),
            ],
            trap(19, 1),
            vec![Instr::End],
        ])
    );
}

#[test]
fn signed_overflow_skips_std_namespace() {
    let body = vec![get(0), get(1), n(NumericOp::I32Add), put(2), Instr::End];
    let mut m = single("std::ops::add", 3, body.clone());
    let (add_sub, mul) = helper_modules();
    signed_integer_overflow(&mut m, &add_sub, &mul);
    assert_eq!(body_of(&m, 0), body);
}

#[test]
fn copy_function_reports_imports() {
    let source = Module {
        functions: vec![Function {
            name: Some("imported".to_string()),
            params: vec![],
            results: vec![],
            import: Some(Import { module: "env".to_string(), name: "x".to_string() }),
            code: None,
        }],
        globals: vec![],
    };
    let mut target = Module { functions: vec![], globals: vec![] };
    assert_eq!(copy_function("imported", &mut target, &source), Err(()));
    assert!(target.functions.is_empty());
}

#[test]
fn copy_function_appends_copy() {
    let (add_sub, _) = helper_modules();
    let mut target = single("main", 0, vec![Instr::End]);
    assert_eq!(copy_function("is_i32_sign_sub_overflow", &mut target, &add_sub), Ok(1));
    assert_eq!(target.functions[1].name.as_deref(), Some("is_i32_sign_sub_overflow"));
    assert_eq!(target.functions[1].params.len(), 2);
}

#[test]
fn proc_exit_is_found_or_added() {
    let mut m = single("main", 0, vec![Instr::End]);
    assert_eq!(add_proc_exit(&mut m), 1);
    assert_eq!(m.functions.len(), 2);
    let imp = m.functions[1].import.as_ref().unwrap();
    assert_eq!(imp.module, "wasi_snapshot_preview1");
    assert_eq!(imp.name, "proc_exit");
    assert_eq!(m.functions[1].name.as_deref(), Some("__wasi_proc_exit"));
    // a second call finds it
    assert_eq!(add_proc_exit(&mut m), 1);
    assert_eq!(m.functions.len(), 2);
}
