//! Canaries: an 8-byte value placed next to data at entry and checked at exit.
//!
//! The stack canary pass pushes an 8-byte all-zero value below the stack pointer at
//! function entry and, if it changed, exits with status 22 at function exit. To
//! have a single exit, the function body is wrapped in a block and every `return`
//! becomes a branch out of that block.

use vstd::prelude::*;
use crate::ir::{
    with_postfix, with_prefix, BlockType, CodeView, Function, FunctionView, GlobalOp, Instr,
    LoadOp, LocalOp, Memarg, Module, NumericOp, StoreOp, Val, ValType,
};
use crate::emit::exit_trap_exec;
use crate::linking::{add_proc_exit, lemma_with_proc_exit, proc_exit_import, proc_exit_index, with_proc_exit};
use crate::rules::{block, c32, c64, exit_trap, num, STACK_CANARY_EXIT};

verus! {

pub open spec fn gget(g: usize) -> Instr {
    Instr::Global(GlobalOp::Get, g)
}

pub open spec fn gput(g: usize) -> Instr {
    Instr::Global(GlobalOp::Put, g)
}

/// Unaligned memory access at `offset`.
pub open spec fn at(offset: u32) -> Memarg {
    Memarg { alignment_exp: 0, offset }
}

// ---------------------------------------------------------------- returns become branches

pub open spec fn nesting_delta(x: Instr) -> int {
    match x {
        Instr::Block(_) | Instr::If(_) | Instr::Loop(_) => 1,
        Instr::End => -1,
        _ => 0,
    }
}

/// The nesting depth at instruction `i`, 0 being the function body's own scope.
pub open spec fn depth_before(b: Seq<Instr>, i: int) -> int
    decreases i,
{
    if i <= 0 {
        0
    } else {
        depth_before(b, i - 1) + nesting_delta(b[i - 1])
    }
}

/// The body ends by closing the function's own scope.
pub open spec fn balanced(b: Seq<Instr>) -> bool {
    depth_before(b, b.len() as int) == -1
}

/// The value type a function returns, if any.
pub open spec fn return_type(f: FunctionView) -> Option<ValType> {
    if f.results.len() > 0 {
        Some(f.results[0])
    } else {
        None
    }
}

/// A `return` at depth `d` becomes `br d`, which leaves the block around the body.
pub open spec fn branch_for(b: Seq<Instr>, i: int) -> Instr {
    if b[i] == Instr::Return {
        Instr::Br(depth_before(b, i) as u32)
    } else {
        b[i]
    }
}

pub open spec fn returns_as_branches(b: Seq<Instr>) -> Seq<Instr> {
    Seq::new(b.len(), |i: int| branch_for(b, i))
}

/// The function with its body in a block of its return type, each `return` made a
/// branch out of that block.
pub open spec fn wrap_returns(f: FunctionView) -> FunctionView {
    match f.code {
        Some(c) => FunctionView {
            code: Some(
                CodeView {
                    locals: c.locals,
                    body: seq![Instr::Block(BlockType(return_type(f)))] + returns_as_branches(
                        c.body,
                    ) + seq![Instr::End],
                },
            ),
            ..f
        },
        None => f,
    }
}

/// Wrapping leaves no `return` in the body: the body becomes one block of the
/// function's return type, and every other instruction keeps its place inside it.
pub proof fn wrap_returns_leaves_no_return(f: FunctionView)
    requires
        f.code is Some,
    ensures
        wrap_returns(f).code matches Some(w) && {
            let b = f.code->0.body;
            &&& w.body.len() == b.len() + 2
            &&& w.body[0] == Instr::Block(BlockType(return_type(f)))
            &&& w.body[w.body.len() - 1] == Instr::End
            &&& forall|i: int| 0 <= i < w.body.len() ==> #[trigger] w.body[i] != Instr::Return
            &&& forall|i: int| 0 <= i < b.len() && b[i] != Instr::Return ==> w.body[i + 1] == #[trigger] b[i]
        },
{
    let b = f.code->0.body;
    let w = wrap_returns(f).code->0;
    assert forall|i: int| 0 <= i < w.body.len() implies #[trigger] w.body[i] != Instr::Return by {
        if 1 <= i <= b.len() {
            assert(w.body[i] == branch_for(b, i - 1));
        }
    }
    assert forall|i: int| 0 <= i < b.len() && b[i] != Instr::Return implies w.body[i + 1] == #[trigger] b[i] by {
        assert(w.body[i + 1] == branch_for(b, i));
    }
}

/// The positions and depths of the `return` instructions among the first `n`.
pub open spec fn return_locs(b: Seq<Instr>, n: int) -> Seq<(int, int)>
    decreases n,
{
    if n <= 0 {
        seq![]
    } else {
        return_locs(b, n - 1) + if b[n - 1] == Instr::Return {
            seq![(n - 1, depth_before(b, n - 1))]
        } else {
            seq![]
        }
    }
}

proof fn lemma_depth_bounds(b: Seq<Instr>, i: int)
    requires
        0 <= i,
    ensures
        -i <= depth_before(b, i) <= i,
    decreases i,
{
    if i > 0 {
        lemma_depth_bounds(b, i - 1);
    }
}

proof fn lemma_return_locs_prefix(b: Seq<Instr>, m: int, n: int)
    requires
        0 <= m <= n,
    ensures
        return_locs(b, m).len() <= return_locs(b, n).len(),
        return_locs(b, n).take(return_locs(b, m).len() as int) == return_locs(b, m),
    decreases n - m,
{
    if m < n {
        lemma_return_locs_prefix(b, m, n - 1);
        let k = return_locs(b, m).len() as int;
        assert(return_locs(b, n).take(k) =~= return_locs(b, n - 1).take(k));
    }
}

proof fn lemma_return_locs_entries(b: Seq<Instr>, n: int)
    requires
        0 <= n <= b.len(),
    ensures
        forall|t: int|
            0 <= t < return_locs(b, n).len() ==> {
                let (j, d) = #[trigger] return_locs(b, n)[t];
                &&& 0 <= j < n
                &&& b[j] == Instr::Return
                &&& d == depth_before(b, j)
                &&& return_locs(b, j).len() == t
            },
    decreases n,
{
    if n > 0 {
        lemma_return_locs_entries(b, n - 1);
        assert forall|t: int| 0 <= t < return_locs(b, n).len() implies {
            let (j, d) = #[trigger] return_locs(b, n)[t];
            &&& 0 <= j < n
            &&& b[j] == Instr::Return
            &&& d == depth_before(b, j)
            &&& return_locs(b, j).len() == t
        } by {
            if t < return_locs(b, n - 1).len() {
                assert(return_locs(b, n)[t] == return_locs(b, n - 1)[t]);
            }
        }
    }
}

/// Every `return` before position `n` is listed, after those before it.
proof fn lemma_return_listed(b: Seq<Instr>, j: int, n: int)
    requires
        0 <= j < n <= b.len(),
        b[j] == Instr::Return,
    ensures
        return_locs(b, j).len() < return_locs(b, n).len(),
        return_locs(b, n)[return_locs(b, j).len() as int] == (j, depth_before(b, j)),
{
    lemma_return_locs_prefix(b, j + 1, n);
    let k = return_locs(b, j).len() as int;
    assert(return_locs(b, j + 1)[k] == (j, depth_before(b, j)));
    assert(return_locs(b, n).take(return_locs(b, j + 1).len() as int)[k] == return_locs(b, n)[k]);
}

/// Two `return`s with as many `return`s before them are the same one.
proof fn lemma_return_count_unique(b: Seq<Instr>, j1: int, j2: int)
    requires
        0 <= j1 < j2 <= b.len(),
        b[j1] == Instr::Return,
    ensures
        return_locs(b, j1).len() < return_locs(b, j2).len(),
{
    lemma_return_locs_prefix(b, j1 + 1, j2);
}

struct ReturnInstrLoc {
    idx: usize,
    level: i32,
}

/// The position and depth of every `return` of the body, in order.
fn get_return_instr_locs(instrs: &Vec<Instr>) -> (locs: Vec<ReturnInstrLoc>)
    requires
        balanced(instrs@),
        instrs@.len() < i32::MAX,
    ensures
        locs@.len() == return_locs(instrs@, instrs@.len() as int).len(),
        forall|t: int|
            0 <= t < locs@.len() ==> (#[trigger] locs@[t].idx as int, locs@[t].level as int)
                == return_locs(instrs@, instrs@.len() as int)[t],
{
    let mut level: i32 = 0;
    let mut acc: Vec<ReturnInstrLoc> = Vec::new();
    let n = instrs.len();
    let mut i: usize = 0;
    while i < n
        invariant
            n == instrs@.len(),
            n < i32::MAX,
            i <= n,
            level == depth_before(instrs@, i as int),
            acc@.len() == return_locs(instrs@, i as int).len(),
            forall|t: int|
                0 <= t < acc@.len() ==> (#[trigger] acc@[t].idx as int, acc@[t].level as int)
                    == return_locs(instrs@, i as int)[t],
        decreases n - i,
    {
        proof {
            lemma_depth_bounds(instrs@, i as int);
        }
        let ghost acc0 = acc@;
        match instrs[i] {
            Instr::Return => acc.push(ReturnInstrLoc { level, idx: i }),
            Instr::Block(_) | Instr::If(_) | Instr::Loop(_) => level = level + 1,
            Instr::End => level = level - 1,
            _ => {},
        }
        proof {
            let rl = return_locs(instrs@, i + 1);
            assert forall|t: int| 0 <= t < acc@.len() implies (
            #[trigger] acc@[t].idx as int, acc@[t].level as int) == rl[t] by {
                if t < acc0.len() {
                    assert(acc@[t] == acc0[t]);
                }
            }
        }
        i = i + 1;
    }
    acc
}

/// The value type the function returns: its first result, as a function has at
/// most one.
fn get_return_type(f: &Function) -> (r: Option<ValType>)
    ensures
        r == return_type(f@),
{
    if f.results.len() > 0 {
        Some(f.results[0])
    } else {
        None
    }
}

/// Wraps the body in a block and turns every `return` into a branch out of it.
pub(crate) fn returns_to_outer_block_jmp(f: &mut Function)
    requires
        old(f)@.code matches Some(c) ==> balanced(c.body) && c.body.len() < i32::MAX,
    ensures
        final(f)@ == wrap_returns(old(f)@),
{
    let return_type = get_return_type(f);
    let ghost f0 = f@;
    if let Some(code) = &mut f.code {
        let ghost b = code.body@;
        let ghost l = code.locals@;
        let n = code.body.len();
        let locs = get_return_instr_locs(&code.body);
        proof {
            lemma_return_locs_entries(b, n as int);
        }
        let ghost rl = return_locs(b, n as int);
        let mut k: usize = 0;
        while k < locs.len()
            invariant
                n == b.len(),
                code.locals@ == l,
                locs@.len() == rl.len(),
                rl == return_locs(b, n as int),
                forall|t: int|
                    0 <= t < locs@.len() ==> (#[trigger] locs@[t].idx as int, locs@[t].level as int)
                        == rl[t],
                forall|t: int|
                    0 <= t < rl.len() ==> {
                        let (j, d) = #[trigger] rl[t];
                        &&& 0 <= j < n
                        &&& b[j] == Instr::Return
                        &&& d == depth_before(b, j)
                        &&& return_locs(b, j).len() == t
                    },
                k <= locs@.len(),
                code.body@ == Seq::new(
                    n as nat,
                    |j: int|
                        if b[j] == Instr::Return && return_locs(b, j).len() < k {
                            Instr::Br(depth_before(b, j) as u32)
                        } else {
                            b[j]
                        },
                ),
            decreases locs@.len() - k,
        {
            let idx = locs[k].idx;
            let level = locs[k].level;
            assert(rl[k as int] == (idx as int, level as int));
            let ghost before = code.body@;
            code.body[idx] = Instr::Br(level as u32);
            proof {
                assert forall|j: int| 0 <= j < n && j != idx && b[j] == Instr::Return implies
                    return_locs(b, j).len() != k by {
                    if j < idx {
                        lemma_return_count_unique(b, j, idx as int);
                    } else {
                        lemma_return_count_unique(b, idx as int, j);
                    }
                }
                assert(code.body@ =~= Seq::new(
                    n as nat,
                    |j: int|
                        if b[j] == Instr::Return && return_locs(b, j).len() < k + 1 {
                            Instr::Br(depth_before(b, j) as u32)
                        } else {
                            b[j]
                        },
                ));
            }
            k = k + 1;
        }
        proof {
            assert forall|j: int| 0 <= j < n && b[j] == Instr::Return implies return_locs(b, j).len()
                < rl.len() by {
                lemma_return_listed(b, j, n as int);
            }
            assert(code.body@ =~= returns_as_branches(b));
        }
        code.body.insert(0, Instr::Block(BlockType(return_type)));
        code.body.push(Instr::End);
        assert(code.body@ =~= seq![Instr::Block(BlockType(return_type))] + returns_as_branches(b)
            + seq![Instr::End]);
        assert(return_type == crate::canary::return_type(f0));
    }
}

// ---------------------------------------------------------------- stack canary

/// The instructions of a function; none for an imported one.
pub open spec fn instrs(f: FunctionView) -> Seq<Instr> {
    match f.code {
        Some(c) => c.body,
        None => seq![],
    }
}

/// emscripten's `stackAlloc`: `global.get sp; local.get _; i32.sub; i32.const -16;
/// i32.and; local.tee l; global.set sp; local.get l; end`.
pub open spec fn is_stack_alloc_shape(b: Seq<Instr>, sp: usize) -> bool {
    &&& b.len() == 9
    &&& b[0] == gget(sp)
    &&& b[1] matches Instr::Local(LocalOp::Get, _)
    &&& b[2] == num(NumericOp::I32Sub)
    &&& b[3] == c32(-16i32)
    &&& b[4] == num(NumericOp::I32And)
    &&& b[5] matches Instr::Local(LocalOp::Tee, l1)
    &&& b[6] == gput(sp)
    &&& b[7] == Instr::Local(LocalOp::Get, l1)
    &&& b[8] == Instr::End
}

/// emscripten's `stackRestore`: `local.get _; global.set sp; end`.
pub open spec fn is_stack_restore_shape(b: Seq<Instr>, sp: usize) -> bool {
    &&& b.len() == 3
    &&& b[0] matches Instr::Local(LocalOp::Get, _)
    &&& b[1] == gput(sp)
    &&& b[2] == Instr::End
}

/// A function gets a canary when it has more than its closing `end` and keeps the
/// stack pointer where it found it (which `stackAlloc` and `stackRestore` do not).
pub open spec fn needs_canary(f: FunctionView, sp: usize) -> bool {
    &&& instrs(f).len() > 1
    &&& !is_stack_alloc_shape(instrs(f), sp)
    &&& !is_stack_restore_shape(instrs(f), sp)
}

/// Reserves 16 bytes of stack and stores the canary at the new stack pointer.
pub open spec fn stack_prefix(sp: usize, canary: i64) -> Seq<Instr> {
    seq![
        gget(sp), c32(16), num(NumericOp::I32Sub), gput(sp),
        gget(sp), c64(canary), Instr::Store(StoreOp::I64Store, at(0)),
    ]
}

/// Exits with status 22 through function `proc_exit` unless the canary is intact,
/// then releases the 16 bytes.
pub open spec fn stack_postfix(sp: usize, canary: i64, proc_exit: usize) -> Seq<Instr> {
    seq![
        block(), gget(sp), Instr::Load(LoadOp::I64Load, at(0)), c64(canary), num(NumericOp::I64Eq),
        Instr::BrIf(0),
    ] + exit_trap(STACK_CANARY_EXIT, proc_exit) + seq![
        Instr::End, gget(sp), c32(16), num(NumericOp::I32Add), gput(sp),
    ]
}

/// The function guarded by `canary` on the stack whose pointer is global `sp`.
pub open spec fn stack_guarded(f: FunctionView, sp: usize, canary: i64, proc_exit: usize) -> FunctionView {
    with_postfix(
        with_prefix(wrap_returns(f), stack_prefix(sp, canary)),
        stack_postfix(sp, canary, proc_exit),
    )
}

/// A guarded body stores the canary, runs the original body as one block whose
/// returns leave the block, then checks the very same canary before the closing `end`.
pub proof fn stack_guard_layout(f: FunctionView, sp: usize, canary: i64, proc_exit: usize)
    requires
        f.code is Some,
    ensures
        stack_guarded(f, sp, canary, proc_exit).code matches Some(g) && g.body == stack_prefix(sp, canary)
            + seq![Instr::Block(BlockType(return_type(f)))] + returns_as_branches(f.code->0.body)
            + stack_postfix(sp, canary, proc_exit) + seq![Instr::End],
{
    let b = f.code->0.body;
    let w = seq![Instr::Block(BlockType(return_type(f)))] + returns_as_branches(b) + seq![Instr::End];
    let p = stack_prefix(sp, canary) + w;
    assert(p.drop_last() =~= stack_prefix(sp, canary) + seq![Instr::Block(BlockType(return_type(f)))]
        + returns_as_branches(b));
    assert(p.last() == Instr::End);
}

/// What guarding a function needs: a body that closes its own scope, and whose
/// depths fit in an `i32`.
pub open spec fn stack_canary_ready(f: FunctionView, sp: usize) -> bool {
    needs_canary(f, sp) ==> balanced(instrs(f)) && instrs(f).len() < i32::MAX
}

/// What the stack canary pass makes of a function: an all-zero canary where one is
/// needed, the function itself otherwise.
pub open spec fn stack_canary_result(f: FunctionView, proc_exit: usize) -> FunctionView {
    if needs_canary(f, 0) {
        stack_guarded(f, 0, 0, proc_exit)
    } else {
        f
    }
}

fn is_stack_alloc(f: &Function, stack_ptr: usize) -> (r: bool)
    ensures
        r == is_stack_alloc_shape(instrs(f@), stack_ptr),
{
    match &f.code {
        Some(code) => {
            let instrs = &code.body;
            if instrs.len() != 9 {
                return false;
            }
            match (instrs[0], instrs[1], instrs[2], instrs[3], instrs[4], instrs[5], instrs[6], instrs[7], instrs[8]) {
                (
                    Instr::Global(GlobalOp::Get, sp1),
                    Instr::Local(LocalOp::Get, _),
                    Instr::Numeric(NumericOp::I32Sub),
                    Instr::Const(Val::I32(-16)),
                    Instr::Numeric(NumericOp::I32And),
                    Instr::Local(LocalOp::Tee, l1),
                    Instr::Global(GlobalOp::Put, sp2),
                    Instr::Local(LocalOp::Get, l1_alt),
                    Instr::End,
                ) => sp1 == stack_ptr && sp2 == stack_ptr && l1 == l1_alt,
                _ => false,
            }
        },
        None => false,
    }
}

fn is_stack_restore(f: &Function, stack_ptr: usize) -> (r: bool)
    ensures
        r == is_stack_restore_shape(instrs(f@), stack_ptr),
{
    match &f.code {
        Some(code) => {
            let instrs = &code.body;
            if instrs.len() != 3 {
                return false;
            }
            match (instrs[0], instrs[1], instrs[2]) {
                (Instr::Local(LocalOp::Get, _), Instr::Global(GlobalOp::Put, sp), Instr::End) => sp
                    == stack_ptr,
                _ => false,
            }
        },
        None => false,
    }
}

/// Whether the function gets a stack canary: it has more than one instruction and is
/// neither the stack allocation nor the stack restore routine.
pub fn requires_canary_check(f: &Function, stack_ptr: usize) -> (r: bool)
    ensures
        r == needs_canary(f@, stack_ptr),
{
    let breaks_stack_invariant = is_stack_alloc(f, stack_ptr) || is_stack_restore(f, stack_ptr);
    let count = match &f.code {
        Some(code) => code.body.len(),
        None => 0,
    };
    count > 1 && !breaks_stack_invariant
}

/// The stack pointer is taken to be the first global.
fn find_stack_ptr(m: &Module) -> (sp: usize)
    requires
        m.globals@.len() > 0,
    ensures
        sp == 0,
{
    0
}

fn stack_prefix_exec(sp: usize, canary: i64) -> (v: Vec<Instr>)
    ensures
        v@ == stack_prefix(sp, canary),
{
    let v = vec![
        Instr::Global(GlobalOp::Get, sp), Instr::Const(Val::I32(16)), Instr::Numeric(NumericOp::I32Sub),
        Instr::Global(GlobalOp::Put, sp), Instr::Global(GlobalOp::Get, sp),
        Instr::Const(Val::I64(canary)),
        Instr::Store(StoreOp::I64Store, Memarg { alignment_exp: 0, offset: 0 }),
    ];
    assert(v@ =~= stack_prefix(sp, canary));
    v
}

fn stack_postfix_exec(sp: usize, canary: i64, proc_exit: usize) -> (v: Vec<Instr>)
    ensures
        v@ == stack_postfix(sp, canary, proc_exit),
{
    let mut v = vec![
        Instr::Block(BlockType(None)), Instr::Global(GlobalOp::Get, sp),
        Instr::Load(LoadOp::I64Load, Memarg { alignment_exp: 0, offset: 0 }),
        Instr::Const(Val::I64(canary)), Instr::Numeric(NumericOp::I64Eq), Instr::BrIf(0),
    ];
    let mut t = exit_trap_exec(STACK_CANARY_EXIT, proc_exit);
    v.append(&mut t);
    let mut tail = vec![
        Instr::End, Instr::Global(GlobalOp::Get, sp), Instr::Const(Val::I32(16)),
        Instr::Numeric(NumericOp::I32Add), Instr::Global(GlobalOp::Put, sp),
    ];
    v.append(&mut tail);
    assert(v@ =~= stack_postfix(sp, canary, proc_exit));
    v
}

/// Guards one function with the given canary value, a failed check calling function
/// `proc_exit`.
pub fn instrument_function_with_stack_canary(f: &mut Function, stack_ptr: usize, canary: i64, proc_exit: usize)
    requires
        old(f)@.code is Some,
        stack_canary_ready(old(f)@, stack_ptr),
        needs_canary(old(f)@, stack_ptr),
    ensures
        final(f)@ == stack_guarded(old(f)@, stack_ptr, canary, proc_exit),
{
    returns_to_outer_block_jmp(f);
    f.insert_prefix(stack_prefix_exec(stack_ptr, canary));
    f.insert_postfix(stack_postfix_exec(stack_ptr, canary, proc_exit));
}

/// Makes sure the module imports `proc_exit`, then pushes an 8-byte all-zero canary
/// at the entry of every function that needs one and checks it at the exit; a
/// changed canary exits with status 22. The stack pointer is the first global.
pub fn instrument_with_stack_canary_check(module: &mut Module)
    requires
        old(module)@.globals.len() > 0,
        forall|j: int|
            0 <= j < old(module)@.functions.len() ==> stack_canary_ready(
                #[trigger] old(module)@.functions[j],
                0,
            ),
    ensures
        final(module)@.globals == old(module)@.globals,
        final(module)@.functions == with_proc_exit(old(module)@.functions).map_values(
            |f: FunctionView| stack_canary_result(f, proc_exit_index(old(module)@.functions) as usize),
        ),
{
    let ghost fs0 = old(module)@.functions;
    proof {
        lemma_with_proc_exit(fs0);
    }
    let proc_exit = add_proc_exit(module);
    let stack_ptr_idx = find_stack_ptr(module);
    let ghost fs = module@.functions;
    assert forall|k: int| 0 <= k < fs.len() implies stack_canary_ready(#[trigger] fs[k], 0) by {
        if k < fs0.len() {
            assert(fs[k] == fs0[k]);
        } else {
            assert(fs[k] == proc_exit_import());
        }
    }
    let n = module.functions.len();
    let mut j: usize = 0;
    while j < n
        invariant
            n == fs.len(),
            stack_ptr_idx == 0,
            module.functions@.len() == n,
            module@.globals == old(module)@.globals,
            j <= n,
            forall|k: int| 0 <= k < n ==> stack_canary_ready(#[trigger] fs[k], 0),
            forall|k: int| 0 <= k < j ==> #[trigger] module.functions@[k]@ == stack_canary_result(fs[k], proc_exit),
            forall|k: int| j <= k < n ==> #[trigger] module.functions@[k]@ == fs[k],
        decreases n - j,
    {
        assert(module.functions@[j as int]@ == fs[j as int]);
        if requires_canary_check(&module.functions[j], stack_ptr_idx) {
            instrument_function_with_stack_canary(&mut module.functions[j], stack_ptr_idx, 0, proc_exit);
        }
        j = j + 1;
    }
    assert(module@.functions =~= fs.map_values(|f: FunctionView| stack_canary_result(f, proc_exit)));
}

/// Whether the body closes its own scope, with depths that fit in an `i32`.
pub fn closes_own_scope(body: &Vec<Instr>) -> (r: bool)
    ensures
        r == (balanced(body@) && body@.len() < i32::MAX),
{
    let n = body.len();
    if n >= 2147483647usize {
        return false;
    }
    let mut level: i32 = 0;
    let mut i: usize = 0;
    while i < n
        invariant
            n == body@.len(),
            n < i32::MAX,
            i <= n,
            level == depth_before(body@, i as int),
        decreases n - i,
    {
        proof {
            lemma_depth_bounds(body@, i as int);
        }
        match body[i] {
            Instr::Block(_) | Instr::If(_) | Instr::Loop(_) => level = level + 1,
            Instr::End => level = level - 1,
            _ => {},
        }
        i = i + 1;
    }
    level == -1
}

/// Whether `instrument_with_stack_canary_check` may run: the module has a first
/// global to serve as stack pointer, and every function that needs a canary has a
/// body that closes its own scope.
pub fn check_stack_canary_ready(module: &Module) -> (r: bool)
    ensures
        r == (module@.globals.len() > 0 && forall|j: int|
            0 <= j < module@.functions.len() ==> stack_canary_ready(#[trigger] module@.functions[j], 0)),
{
    if module.globals.len() == 0 {
        return false;
    }
    let n = module.functions.len();
    let mut j: usize = 0;
    while j < n
        invariant
            n == module@.functions.len(),
            j <= n,
            forall|k: int| 0 <= k < j ==> stack_canary_ready(#[trigger] module@.functions[k], 0),
        decreases n - j,
    {
        let f = &module.functions[j];
        assert(module@.functions[j as int] == f@);
        if requires_canary_check(f, 0) {
            if let Some(c) = &f.code {
                if !closes_own_scope(&c.body) {
                    return false;
                }
            }
        }
        j = j + 1;
    }
    true
}

} // verus!
