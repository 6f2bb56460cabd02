//! Heap canaries around the chunks of a dlmalloc-style allocator.
//!
//! `malloc` (and `realloc`, `calloc`) ask for 20 more bytes, store the requested
//! size in the first 4 bytes of the chunk, an 8-byte zero canary after it and
//! another at the chunk's end, and hand out the pointer just past the first canary.
//! `free` and `realloc` exit with status 21 when either canary is no longer zero.
//! Two new globals switch the checks off inside `realloc` and the canary insertion
//! off inside the `malloc` that `calloc` calls.

use vstd::prelude::*;
use crate::canary::{at, balanced, closes_own_scope, gget, gput, returns_to_outer_block_jmp, wrap_returns};
use crate::ir::{
    find_func_by_name, first_named, lemma_first_named_bounds, lemma_first_named_push, lemma_first_named_same_names, same_names, next_local, with_local, with_postfix,
    with_prefix, BlockType, Function, FunctionView, GlobalOp, GlobalView, Instr, LoadOp, LocalOp,
    Memarg, Module, NumericOp, StoreOp, Val, ValType,
};
use crate::emit::exit_trap_exec;
use crate::linking::{add_proc_exit, lemma_with_proc_exit, proc_exit_import, proc_exit_index, with_proc_exit};
use crate::rules::{block, c32, c64, exit_trap, lget, lput, ltee, num, HEAP_CANARY_EXIT};

verus! {

/// A mutable i32 global starting at 0: a switch that is off.
pub open spec fn switch_global() -> GlobalView {
    GlobalView { ty: ValType::I32, mutable: true, init: seq![c32(0), Instr::End] }
}

/// Unless canary insertion is switched off by global `off`, asks for 20 more bytes
/// and keeps the enlarged size in local `size`.
pub open spec fn malloc_prefix(off: usize, size: usize) -> Seq<Instr> {
    seq![
        block(), gget(off), c32(1), num(NumericOp::I32Eq), Instr::BrIf(0),
        lget(0), c32(20), num(NumericOp::I32Add), ltee(size), lput(0), Instr::End,
    ]
}

/// Leaves the chunk untouched when global `off` is set.
pub open spec fn switch_skip(off: usize) -> Seq<Instr> {
    seq![gget(off), c32(1), num(NumericOp::I32Eq), Instr::BrIf(0)]
}

/// Leaves the chunk untouched when local `flag` is set.
pub open spec fn flag_skip(flag: usize) -> Seq<Instr> {
    seq![lget(flag), c32(1), num(NumericOp::I32Eq), Instr::BrIf(0)]
}

/// Takes the returned chunk into local `tmp`; unless it is null or `skip` branches
/// out, stores the size from local `size` and the two canaries, and yields the
/// pointer 12 bytes into the chunk.
pub open spec fn chunk_postfix(tmp: usize, size: usize, skip: Seq<Instr>) -> Seq<Instr> {
    seq![
        lput(tmp), Instr::Block(BlockType(Some(ValType::I32))),
        lget(tmp), lget(tmp), num(NumericOp::I32Eqz), Instr::BrIf(0),
    ] + skip + seq![
        lget(size), Instr::Store(StoreOp::I32Store, at(0)),
        lget(tmp), c64(0), Instr::Store(StoreOp::I64Store, at(4)),
        lget(size), lget(tmp), num(NumericOp::I32Add), c32(8), num(NumericOp::I32Sub),
        c64(0), Instr::Store(StoreOp::I64Store, at(0)),
        lget(tmp), c32(12), num(NumericOp::I32Add), Instr::End,
    ]
}

/// Unless checks are switched off by global `off` or the pointer in local `ptr` is
/// null, moves `ptr` back to the chunk start and, when either canary is not zero,
/// exits with status 21 through function `proc_exit`.
pub open spec fn canary_check_block(ptr: usize, off: usize, proc_exit: usize) -> Seq<Instr> {
    let t = exit_trap(HEAP_CANARY_EXIT, proc_exit);
    seq![
        block(), gget(off), c32(1), num(NumericOp::I32Eq), Instr::BrIf(0),
        block(), lget(ptr), num(NumericOp::I32Eqz), Instr::BrIf(0),
        block(), lget(ptr), c32(12), num(NumericOp::I32Sub), lput(ptr),
        lget(ptr), c32(4), num(NumericOp::I32Add), Instr::Load(LoadOp::I64Load, at(0)),
        num(NumericOp::I64Eqz), Instr::BrIf(0),
    ] + t + seq![
        Instr::End,
        block(), lget(ptr), Instr::Load(LoadOp::I32Load, at(0)), lget(ptr), num(NumericOp::I32Add),
        c32(8), num(NumericOp::I32Sub), Instr::Load(LoadOp::I64Load, at(0)),
        num(NumericOp::I64Eqz), Instr::BrIf(0),
    ] + t + seq![Instr::End, Instr::End, Instr::End]
}

/// Asks `realloc` for 20 more bytes, keeps the size in local `size`, and switches
/// the checks off by global `off` while `realloc` runs.
pub open spec fn realloc_tail(size: usize, off: usize) -> Seq<Instr> {
    seq![
        lget(1), c32(20), num(NumericOp::I32Add), ltee(size), lput(1), c32(1), gput(off),
    ]
}

/// Switches canary insertion in `malloc` off by global `off`, records in local
/// `overflow` whether `nitems * size` overflows 32 bits, and if not asks for one item
/// of the whole size plus 20 bytes, keeping that in local `size`.
pub open spec fn calloc_prefix(off: usize, size: usize, overflow: usize) -> Seq<Instr> {
    seq![
        c32(1), gput(off),
        lget(0), num(NumericOp::I64ExtendI32U), lget(1), num(NumericOp::I64ExtendI32U),
        num(NumericOp::I64Mul), c64(0xFFFFFFFF), num(NumericOp::I64GeU),
        Instr::If(BlockType(None)), c32(1), lput(overflow),
        Instr::Else, c32(0), lput(overflow),
        lget(0), lget(1), num(NumericOp::I32Mul), lput(1), c32(1), lput(0),
        lget(1), c32(20), num(NumericOp::I32Add), ltee(size), lput(1),
        Instr::End,
    ]
}

/// Sets global `off` back to 0.
pub open spec fn switch_back(off: usize) -> Seq<Instr> {
    seq![c32(0), gput(off)]
}

pub open spec fn malloc_guarded(f: FunctionView, off: usize) -> FunctionView {
    let size = next_local(f) as usize;
    let f1 = with_prefix(with_local(f, ValType::I32), malloc_prefix(off, size));
    let tmp = next_local(f1) as usize;
    with_postfix(with_local(f1, ValType::I32), chunk_postfix(tmp, size, switch_skip(off)))
}

pub open spec fn free_guarded(f: FunctionView, off: usize, proc_exit: usize) -> FunctionView {
    with_prefix(f, canary_check_block(0, off, proc_exit))
}

pub open spec fn realloc_guarded(f: FunctionView, off: usize, proc_exit: usize) -> FunctionView {
    let size = next_local(f) as usize;
    let f1 = with_prefix(
        wrap_returns(with_local(f, ValType::I32)),
        canary_check_block(0, off, proc_exit) + realloc_tail(size, off),
    );
    let tmp = next_local(f1) as usize;
    with_postfix(with_local(f1, ValType::I32), chunk_postfix(tmp, size, seq![]) + switch_back(off))
}

pub open spec fn calloc_guarded(f: FunctionView, off: usize) -> FunctionView {
    let size = next_local(f) as usize;
    let overflow = (size + 1) as usize;
    let f1 = with_prefix(
        wrap_returns(with_local(with_local(f, ValType::I32), ValType::I32)),
        calloc_prefix(off, size, overflow),
    );
    let tmp = next_local(f1) as usize;
    with_postfix(
        with_local(f1, ValType::I32),
        chunk_postfix(tmp, size, flag_skip(overflow)) + switch_back(off),
    )
}

/// The first function named `a`, or else the first named `b`.
pub open spec fn first_named_either(fs: Seq<FunctionView>, a: Seq<char>, b: Seq<char>) -> Option<int> {
    match first_named(fs, a) {
        Some(i) => Some(i),
        None => first_named(fs, b),
    }
}

pub open spec fn realloc_index(fs: Seq<FunctionView>) -> Option<int> {
    first_named_either(fs, "dlrealloc"@, "realloc"@)
}

pub open spec fn calloc_index(fs: Seq<FunctionView>) -> Option<int> {
    first_named_either(fs, "dlcalloc"@, "calloc"@)
}

/// The functions after the heap canary pass, with the checks switched by global
/// `checks_off`, the insertion by global `insertion_off`, and failed checks calling
/// function `proc_exit`.
pub open spec fn heap_guarded(
    fs: Seq<FunctionView>,
    checks_off: usize,
    insertion_off: usize,
    proc_exit: usize,
) -> Seq<FunctionView> {
    let m = first_named(fs, "dlmalloc"@)->0;
    let fs1 = fs.update(m, malloc_guarded(fs[m], insertion_off));
    let fr = first_named(fs1, "dlfree"@)->0;
    let fs2 = fs1.update(fr, free_guarded(fs1[fr], checks_off, proc_exit));
    let fs3 = match realloc_index(fs2) {
        Some(r) => fs2.update(r, realloc_guarded(fs2[r], checks_off, proc_exit)),
        None => fs2,
    };
    match calloc_index(fs3) {
        Some(c) => fs3.update(c, calloc_guarded(fs3[c], insertion_off)),
        None => fs3,
    }
}

/// A function whose returns can be made branches and that has room for `extra`
/// fresh locals.
pub open spec fn guardable(f: FunctionView, extra: nat) -> bool {
    match f.code {
        Some(c) => balanced(c.body) && c.body.len() < i32::MAX && next_local(f) + extra
            <= usize::MAX,
        None => false,
    }
}

/// What the heap canary pass needs: `dlmalloc` (with code) and `dlfree`, and
/// `realloc` and `calloc` whose bodies close their own scope, where present.
pub open spec fn heap_ready(fs: Seq<FunctionView>) -> bool {
    &&& first_named(fs, "dlmalloc"@) matches Some(m) && fs[m].code is Some && next_local(fs[m]) + 2
        <= usize::MAX
    &&& first_named(fs, "dlfree"@) is Some
    &&& realloc_index(fs) matches Some(r) ==> guardable(fs[r], 2)
    &&& calloc_index(fs) matches Some(c) ==> guardable(fs[c], 3)
}

// ---------------------------------------------------------------- executable pieces

fn malloc_prefix_exec(off: usize, size: usize) -> (v: Vec<Instr>)
    ensures
        v@ == malloc_prefix(off, size),
{
    let v = vec![
        Instr::Block(BlockType(None)), Instr::Global(GlobalOp::Get, off), Instr::Const(Val::I32(1)),
        Instr::Numeric(NumericOp::I32Eq), Instr::BrIf(0), Instr::Local(LocalOp::Get, 0),
        Instr::Const(Val::I32(20)), Instr::Numeric(NumericOp::I32Add), Instr::Local(LocalOp::Tee, size),
        Instr::Local(LocalOp::Put, 0), Instr::End,
    ];
    assert(v@ =~= malloc_prefix(off, size));
    v
}

fn chunk_postfix_exec(tmp: usize, size: usize, skip: Vec<Instr>) -> (v: Vec<Instr>)
    ensures
        v@ == chunk_postfix(tmp, size, skip@),
{
    let mut v = vec![
        Instr::Local(LocalOp::Put, tmp), Instr::Block(BlockType(Some(ValType::I32))),
        Instr::Local(LocalOp::Get, tmp), Instr::Local(LocalOp::Get, tmp),
        Instr::Numeric(NumericOp::I32Eqz), Instr::BrIf(0),
    ];
    let ghost head = v@;
    let mut skip = skip;
    let ghost skip0 = skip@;
    v.append(&mut skip);
    let mut tail = vec![
        Instr::Local(LocalOp::Get, size), Instr::Store(StoreOp::I32Store, Memarg { alignment_exp: 0, offset: 0 }),
        Instr::Local(LocalOp::Get, tmp), Instr::Const(Val::I64(0)),
        Instr::Store(StoreOp::I64Store, Memarg { alignment_exp: 0, offset: 4 }),
        Instr::Local(LocalOp::Get, size), Instr::Local(LocalOp::Get, tmp),
        Instr::Numeric(NumericOp::I32Add), Instr::Const(Val::I32(8)), Instr::Numeric(NumericOp::I32Sub),
        Instr::Const(Val::I64(0)), Instr::Store(StoreOp::I64Store, Memarg { alignment_exp: 0, offset: 0 }),
        Instr::Local(LocalOp::Get, tmp), Instr::Const(Val::I32(12)), Instr::Numeric(NumericOp::I32Add),
        Instr::End,
    ];
    let ghost tail0 = tail@;
    v.append(&mut tail);
    assert(v@ =~= chunk_postfix(tmp, size, skip0));
    v
}

fn switch_skip_exec(off: usize) -> (v: Vec<Instr>)
    ensures
        v@ == switch_skip(off),
{
    let v = vec![
        Instr::Global(GlobalOp::Get, off), Instr::Const(Val::I32(1)), Instr::Numeric(NumericOp::I32Eq),
        Instr::BrIf(0),
    ];
    assert(v@ =~= switch_skip(off));
    v
}

fn flag_skip_exec(flag: usize) -> (v: Vec<Instr>)
    ensures
        v@ == flag_skip(flag),
{
    let v = vec![
        Instr::Local(LocalOp::Get, flag), Instr::Const(Val::I32(1)), Instr::Numeric(NumericOp::I32Eq),
        Instr::BrIf(0),
    ];
    assert(v@ =~= flag_skip(flag));
    v
}

fn canary_check_block_exec(ptr: usize, off: usize, proc_exit: usize) -> (v: Vec<Instr>)
    ensures
        v@ == canary_check_block(ptr, off, proc_exit),
{
    let mut v = vec![
        Instr::Block(BlockType(None)), Instr::Global(GlobalOp::Get, off), Instr::Const(Val::I32(1)),
        Instr::Numeric(NumericOp::I32Eq), Instr::BrIf(0),
        Instr::Block(BlockType(None)), Instr::Local(LocalOp::Get, ptr), Instr::Numeric(NumericOp::I32Eqz),
        Instr::BrIf(0),
        Instr::Block(BlockType(None)), Instr::Local(LocalOp::Get, ptr), Instr::Const(Val::I32(12)),
        Instr::Numeric(NumericOp::I32Sub), Instr::Local(LocalOp::Put, ptr),
        Instr::Local(LocalOp::Get, ptr), Instr::Const(Val::I32(4)), Instr::Numeric(NumericOp::I32Add),
        Instr::Load(LoadOp::I64Load, Memarg { alignment_exp: 0, offset: 0 }),
        Instr::Numeric(NumericOp::I64Eqz), Instr::BrIf(0),
    ];
    let mut t1 = exit_trap_exec(HEAP_CANARY_EXIT, proc_exit);
    v.append(&mut t1);
    let mut mid = vec![
        Instr::End,
        Instr::Block(BlockType(None)), Instr::Local(LocalOp::Get, ptr),
        Instr::Load(LoadOp::I32Load, Memarg { alignment_exp: 0, offset: 0 }),
        Instr::Local(LocalOp::Get, ptr), Instr::Numeric(NumericOp::I32Add), Instr::Const(Val::I32(8)),
        Instr::Numeric(NumericOp::I32Sub),
        Instr::Load(LoadOp::I64Load, Memarg { alignment_exp: 0, offset: 0 }),
        Instr::Numeric(NumericOp::I64Eqz), Instr::BrIf(0),
    ];
    v.append(&mut mid);
    let mut t2 = exit_trap_exec(HEAP_CANARY_EXIT, proc_exit);
    v.append(&mut t2);
    v.push(Instr::End);
    v.push(Instr::End);
    v.push(Instr::End);
    assert(v@ =~= canary_check_block(ptr, off, proc_exit));
    v
}

fn realloc_prefix_exec(size: usize, off: usize, proc_exit: usize) -> (v: Vec<Instr>)
    ensures
        v@ == canary_check_block(0, off, proc_exit) + realloc_tail(size, off),
{
    let mut v = canary_check_block_exec(0, off, proc_exit);
    let mut tail = vec![
        Instr::Local(LocalOp::Get, 1), Instr::Const(Val::I32(20)), Instr::Numeric(NumericOp::I32Add),
        Instr::Local(LocalOp::Tee, size), Instr::Local(LocalOp::Put, 1), Instr::Const(Val::I32(1)),
        Instr::Global(GlobalOp::Put, off),
    ];
    assert(tail@ =~= realloc_tail(size, off));
    v.append(&mut tail);
    v
}

fn calloc_prefix_exec(off: usize, size: usize, overflow: usize) -> (v: Vec<Instr>)
    ensures
        v@ == calloc_prefix(off, size, overflow),
{
    let v = vec![
        Instr::Const(Val::I32(1)), Instr::Global(GlobalOp::Put, off),
        Instr::Local(LocalOp::Get, 0), Instr::Numeric(NumericOp::I64ExtendI32U),
        Instr::Local(LocalOp::Get, 1), Instr::Numeric(NumericOp::I64ExtendI32U),
        Instr::Numeric(NumericOp::I64Mul), Instr::Const(Val::I64(0xFFFFFFFF)),
        Instr::Numeric(NumericOp::I64GeU),
        Instr::If(BlockType(None)), Instr::Const(Val::I32(1)), Instr::Local(LocalOp::Put, overflow),
        Instr::Else, Instr::Const(Val::I32(0)), Instr::Local(LocalOp::Put, overflow),
        Instr::Local(LocalOp::Get, 0), Instr::Local(LocalOp::Get, 1), Instr::Numeric(NumericOp::I32Mul),
        Instr::Local(LocalOp::Put, 1), Instr::Const(Val::I32(1)), Instr::Local(LocalOp::Put, 0),
        Instr::Local(LocalOp::Get, 1), Instr::Const(Val::I32(20)), Instr::Numeric(NumericOp::I32Add),
        Instr::Local(LocalOp::Tee, size), Instr::Local(LocalOp::Put, 1),
        Instr::End,
    ];
    assert(v@ =~= calloc_prefix(off, size, overflow));
    v
}

fn push_switch_back(v: &mut Vec<Instr>, off: usize)
    ensures
        final(v)@ == old(v)@ + switch_back(off),
{
    v.push(Instr::Const(Val::I32(0)));
    v.push(Instr::Global(GlobalOp::Put, off));
    assert(v@ =~= old(v)@ + switch_back(off));
}

fn guard_malloc(f: &mut Function, off: usize)
    requires
        old(f)@.code is Some,
        next_local(old(f)@) + 2 <= usize::MAX,
    ensures
        final(f)@ == malloc_guarded(old(f)@, off),
{
    let size = f.add_fresh_local(ValType::I32);
    f.insert_prefix(malloc_prefix_exec(off, size));
    let tmp = f.add_fresh_local(ValType::I32);
    f.insert_postfix(chunk_postfix_exec(tmp, size, switch_skip_exec(off)));
}

fn guard_realloc(f: &mut Function, off: usize, proc_exit: usize)
    requires
        guardable(old(f)@, 2),
    ensures
        final(f)@ == realloc_guarded(old(f)@, off, proc_exit),
{
    let size = f.add_fresh_local(ValType::I32);
    returns_to_outer_block_jmp(f);
    f.insert_prefix(realloc_prefix_exec(size, off, proc_exit));
    let tmp = f.add_fresh_local(ValType::I32);
    let mut post = chunk_postfix_exec(tmp, size, Vec::new());
    push_switch_back(&mut post, off);
    f.insert_postfix(post);
}

fn guard_calloc(f: &mut Function, off: usize)
    requires
        guardable(old(f)@, 3),
    ensures
        final(f)@ == calloc_guarded(old(f)@, off),
{
    let size = f.add_fresh_local(ValType::I32);
    let overflow = f.add_fresh_local(ValType::I32);
    returns_to_outer_block_jmp(f);
    f.insert_prefix(calloc_prefix_exec(off, size, overflow));
    let tmp = f.add_fresh_local(ValType::I32);
    let mut post = chunk_postfix_exec(tmp, size, flag_skip_exec(overflow));
    push_switch_back(&mut post, off);
    f.insert_postfix(post);
}

fn find_either(a: &str, b: &str, functions: &Vec<Function>) -> (r: Option<usize>)
    ensures
        r matches Some(i) ==> first_named_either(functions@.map_values(|f: Function| f@), a@, b@)
            == Some(i as int),
        r is None ==> first_named_either(functions@.map_values(|f: Function| f@), a@, b@) is None,
{
    match find_func_by_name(a, functions) {
        Some(i) => Some(i),
        None => find_func_by_name(b, functions),
    }
}

proof fn lemma_either_bounds(fs: Seq<FunctionView>, a: Seq<char>, b: Seq<char>)
    ensures
        first_named_either(fs, a, b) matches Some(i) ==> 0 <= i < fs.len() && (fs[i].name == Some(a)
            || fs[i].name == Some(b)),
{
    lemma_first_named_bounds(fs, a);
    lemma_first_named_bounds(fs, b);
}

proof fn lemma_either_same_names(fs: Seq<FunctionView>, gs: Seq<FunctionView>, a: Seq<char>, b: Seq<char>)
    requires
        same_names(fs, gs),
    ensures
        first_named_either(fs, a, b) == first_named_either(gs, a, b),
{
    lemma_first_named_same_names(fs, gs, a);
    lemma_first_named_same_names(fs, gs, b);
}

proof fn lemma_allocator_names_differ()
    ensures
        "dlmalloc"@ != "dlfree"@,
        "dlmalloc"@ != "dlrealloc"@,
        "dlmalloc"@ != "realloc"@,
        "dlfree"@ != "dlrealloc"@,
        "dlfree"@ != "realloc"@,
        "dlcalloc"@ != "dlmalloc"@,
        "dlcalloc"@ != "dlfree"@,
        "dlcalloc"@ != "dlrealloc"@,
        "dlcalloc"@ != "realloc"@,
        "calloc"@ != "dlmalloc"@,
        "calloc"@ != "dlfree"@,
        "calloc"@ != "dlrealloc"@,
        "calloc"@ != "realloc"@,
{
    reveal_strlit("dlmalloc");
    reveal_strlit("dlfree");
    reveal_strlit("dlrealloc");
    reveal_strlit("realloc");
    reveal_strlit("dlcalloc");
    reveal_strlit("calloc");
    assert("dlmalloc"@[2] != "dlrealloc"@[2]);
    assert("dlmalloc"@[2] != "dlfree"@[2]);
    assert("dlfree"@[2] != "dlrealloc"@[2]);
    assert("dlcalloc"@[2] != "dlmalloc"@[2]);
    assert("calloc"@[0] != "realloc"@[0]);
}

/// The `proc_exit` import is named apart from the allocator functions, so adding
/// it changes none of their lookups.
proof fn lemma_heap_lookups_with_proc_exit(fs: Seq<FunctionView>)
    ensures
        first_named(with_proc_exit(fs), "dlmalloc"@) == first_named(fs, "dlmalloc"@),
        first_named(with_proc_exit(fs), "dlfree"@) == first_named(fs, "dlfree"@),
        realloc_index(with_proc_exit(fs)) == realloc_index(fs),
        calloc_index(with_proc_exit(fs)) == calloc_index(fs),
{
    lemma_with_proc_exit(fs);
    if with_proc_exit(fs) != fs {
        let p = proc_exit_import();
        reveal_strlit("__wasi_proc_exit");
        reveal_strlit("dlmalloc");
        reveal_strlit("dlfree");
        reveal_strlit("dlrealloc");
        reveal_strlit("realloc");
        reveal_strlit("dlcalloc");
        reveal_strlit("calloc");
        assert("__wasi_proc_exit"@[0] != "dlmalloc"@[0]);
        assert("__wasi_proc_exit"@[0] != "dlfree"@[0]);
        assert("__wasi_proc_exit"@[0] != "dlrealloc"@[0]);
        assert("__wasi_proc_exit"@[0] != "realloc"@[0]);
        assert("__wasi_proc_exit"@[0] != "dlcalloc"@[0]);
        assert("__wasi_proc_exit"@[0] != "calloc"@[0]);
        lemma_first_named_push(fs, p, "dlmalloc"@);
        lemma_first_named_push(fs, p, "dlfree"@);
        lemma_first_named_push(fs, p, "dlrealloc"@);
        lemma_first_named_push(fs, p, "realloc"@);
        lemma_first_named_push(fs, p, "dlcalloc"@);
        lemma_first_named_push(fs, p, "calloc"@);
    }
}

/// Makes sure the module imports `proc_exit`, then puts canaries around heap chunks
/// (see the module documentation); a failed canary check exits with status 21.
/// Returns whether a `realloc` and a `calloc` were found and instrumented.
pub fn instrument_with_heap_canary_check(module: &mut Module) -> (found: (bool, bool))
    requires
        heap_ready(old(module)@.functions),
        old(module)@.globals.len() + 2 <= usize::MAX,
    ensures
        final(module)@.globals == old(module)@.globals.push(switch_global()).push(switch_global()),
        final(module)@.functions == heap_guarded(
            with_proc_exit(old(module)@.functions),
            old(module)@.globals.len() as usize,
            (old(module)@.globals.len() + 1) as usize,
            proc_exit_index(old(module)@.functions) as usize,
        ),
        found.0 == realloc_index(old(module)@.functions) is Some,
        found.1 == calloc_index(old(module)@.functions) is Some,
{
    let ghost fs = old(module)@.functions;
    proof {
        lemma_with_proc_exit(fs);
        lemma_heap_lookups_with_proc_exit(fs);
        lemma_first_named_bounds(fs, "dlmalloc"@);
        lemma_either_bounds(fs, "dlrealloc"@, "realloc"@);
        lemma_either_bounds(fs, "dlcalloc"@, "calloc"@);
    }
    let pe = add_proc_exit(module);
    guard_heap(module, pe)
}

fn guard_heap(module: &mut Module, proc_exit: usize) -> (found: (bool, bool))
    requires
        heap_ready(old(module)@.functions),
        old(module)@.globals.len() + 2 <= usize::MAX,
    ensures
        final(module)@.globals == old(module)@.globals.push(switch_global()).push(switch_global()),
        final(module)@.functions == heap_guarded(
            old(module)@.functions,
            old(module)@.globals.len() as usize,
            (old(module)@.globals.len() + 1) as usize,
            proc_exit,
        ),
        found.0 == realloc_index(old(module)@.functions) is Some,
        found.1 == calloc_index(old(module)@.functions) is Some,
{
    let ghost fs = module@.functions;
    proof {
        lemma_allocator_names_differ();
        lemma_first_named_bounds(fs, "dlmalloc"@);
        lemma_first_named_bounds(fs, "dlfree"@);
        lemma_either_bounds(fs, "dlrealloc"@, "realloc"@);
        lemma_either_bounds(fs, "dlcalloc"@, "calloc"@);
    }
    let init1 = vec![Instr::Const(Val::I32(0)), Instr::End];
    assert(init1@ =~= seq![c32(0), Instr::End]);
    let checks_off = module.add_global(ValType::I32, true, init1);
    let init2 = vec![Instr::Const(Val::I32(0)), Instr::End];
    assert(init2@ =~= seq![c32(0), Instr::End]);
    let insertion_off = module.add_global(ValType::I32, true, init2);

    // malloc
    let m = match find_func_by_name("dlmalloc", &module.functions) {
        Some(i) => i,
        None => {
            return (false, false);
        },
    };
    guard_malloc(&mut module.functions[m], insertion_off);
    let ghost fs1 = module@.functions;
    assert(fs1 =~= fs.update(m as int, malloc_guarded(fs[m as int], insertion_off)));
    assert(same_names(fs, fs1));

    // free
    proof {
        lemma_first_named_same_names(fs, fs1, "dlfree"@);
    }
    let fr = match find_func_by_name("dlfree", &module.functions) {
        Some(i) => i,
        None => {
            return (false, false);
        },
    };
    module.functions[fr].insert_prefix(canary_check_block_exec(0, checks_off, proc_exit));
    let ghost fs2 = module@.functions;
    assert(fs2 =~= fs1.update(fr as int, free_guarded(fs1[fr as int], checks_off, proc_exit)));
    assert(same_names(fs, fs2));

    // realloc
    proof {
        lemma_either_same_names(fs, fs2, "dlrealloc"@, "realloc"@);
    }
    let found_realloc = match find_either("dlrealloc", "realloc", &module.functions) {
        Some(r) => {
            assert(fs2[r as int] == fs[r as int]);
            guard_realloc(&mut module.functions[r], checks_off, proc_exit);
            assert(module@.functions =~= fs2.update(r as int, realloc_guarded(fs2[r as int], checks_off, proc_exit)));
            true
        },
        None => false,
    };
    let ghost fs3 = module@.functions;
    assert(same_names(fs, fs3));

    // calloc
    proof {
        lemma_either_same_names(fs, fs3, "dlcalloc"@, "calloc"@);
    }
    let found_calloc = match find_either("dlcalloc", "calloc", &module.functions) {
        Some(c) => {
            assert(fs3[c as int] == fs[c as int]);
            guard_calloc(&mut module.functions[c], insertion_off);
            assert(module@.functions =~= fs3.update(c as int, calloc_guarded(fs3[c as int], insertion_off)));
            true
        },
        None => false,
    };
    (found_realloc, found_calloc)
}

fn guardable_exec(f: &Function, extra: usize) -> (r: bool)
    ensures
        r == guardable(f@, extra as nat),
{
    match &f.code {
        Some(c) => closes_own_scope(&c.body) && match f.params.len().checked_add(c.locals.len()) {
            Some(k) => k.checked_add(extra).is_some(),
            None => false,
        },
        None => false,
    }
}

/// Whether `instrument_with_heap_canary_check` may run on these functions (see
/// `heap_ready`).
pub fn check_heap_ready(module: &Module) -> (r: bool)
    ensures
        r == heap_ready(module@.functions),
{
    let fs = &module.functions;
    proof {
        lemma_first_named_bounds(module@.functions, "dlmalloc"@);
        lemma_either_bounds(module@.functions, "dlrealloc"@, "realloc"@);
        lemma_either_bounds(module@.functions, "dlcalloc"@, "calloc"@);
    }
    let m = match find_func_by_name("dlmalloc", fs) {
        Some(i) => i,
        None => {
            return false;
        },
    };
    assert(module@.functions[m as int] == fs[m as int]@);
    let malloc_ok = match &fs[m].code {
        Some(c) => match fs[m].params.len().checked_add(c.locals.len()) {
            Some(k) => k.checked_add(2).is_some(),
            None => false,
        },
        None => false,
    };
    if !malloc_ok {
        return false;
    }
    if find_func_by_name("dlfree", fs).is_none() {
        return false;
    }
    if let Some(r) = find_either("dlrealloc", "realloc", fs) {
        assert(module@.functions[r as int] == fs[r as int]@);
        if !guardable_exec(&fs[r], 2) {
            return false;
        }
    }
    if let Some(c) = find_either("dlcalloc", "calloc", fs) {
        assert(module@.functions[c as int] == fs[c as int]@);
        if !guardable_exec(&fs[c], 3) {
            return false;
        }
    }
    true
}

} // verus!
