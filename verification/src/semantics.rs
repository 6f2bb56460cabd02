//! What the emitted checks do when they run.
//!
//! A small evaluator for the straight-line instruction sequences that the checks
//! are made of: locals, globals, memory cells at unsigned 32-bit addresses,
//! constants, the integer operators the checks use, blocks left by `br` and
//! `br_if`, calls of the overflow helpers (whose results are given), and the call
//! of `proc_exit`. With it the laws below state, for each integer check, exactly
//! when it ends the program and with which exit status, and what it leaves behind
//! otherwise; for the signed overflow checks, that they exit exactly when the
//! helper reports an overflow; and for the heap and stack canaries, that an
//! untouched canary passes the check at exit while a changed one ends the program.
//! Shifts by an amount outside the operand width, and floating point, are not
//! covered.

use vstd::prelude::*;
use crate::rewrite::{rewrite_code, Selection};
use crate::ir::{
    first_named, lemma_first_named_bounds, lemma_first_named_same_names, same_names, with_prefix, FunctionView,
    GlobalOp, Instr, LoadOp, LocalOp, Memarg, NumericOp, StoreOp, Val,
};
use crate::canary::{stack_postfix, stack_prefix};
use crate::heap::{canary_check_block, chunk_postfix, malloc_prefix, switch_skip};
use crate::passes::{
    passed, rule_for, unreserved, unreserved_outside_runtime, user_code, value_returning,
    guard_first_named, non_negative_param_check, outside_runtime, positive_param_check, sanitized,
    sign_change_result,
};
use crate::linking::{lemma_with_proc_exit, proc_exit_index};
use crate::names::{is_ini_func_name, is_overflow_helper_name, starts_with};
use crate::rules::{
    call_check, exit_trap, lget, lput, narrow_add_check, narrow_add_for, narrow_mul_check, null_check, num, shift_check, sign_check,
    truncation_check, unsigned_add_check, unsigned_mul_check,
    unsigned_sub_check, binop_site, insertion, narrow_mul_site, signed_call_check, rule_trap, trunc_seen, OverflowHelpers, Rule, Sanitizer,
};

verus! {

/// A run-time value of an integer local, global, stack slot or memory cell.
pub enum Value {
    I32(i32),
    I64(i64),
}

/// The state a check reads and writes. Memory is kept as cells: each address (an
/// unsigned 32-bit pointer plus the access's offset) maps to the value last stored
/// there, with the width of that store; a load reads the cell at its address when
/// it has the load's width. A call of a function other than `proc_exit` takes two
/// arguments and returns what `returns` gives for the function and them.
#[verifier::ext_equal]
pub struct Machine {
    pub locals: Map<usize, Value>,
    pub globals: Map<usize, Value>,
    pub memory: Map<int, Value>,
    pub returns: spec_fn(usize, Value, Value) -> Value,
}

/// The memory address that an access with `offset` at pointer `ptr` reaches.
pub open spec fn address(ptr: i32, offset: u32) -> int {
    (ptr as u32) + offset
}

/// How running a sequence ends.
pub enum Outcome {
    /// `proc_exit` was called with this status.
    Exit(i32),
    /// `unreachable` was reached.
    Trap,
    /// The sequence ran to its end, leaving this stack and this state.
    Done(Seq<Value>, Machine),
    /// Something outside what the evaluator covers.
    Stuck,
}

pub open spec fn flag(b: bool) -> Value {
    Value::I32(if b { 1 } else { 0 })
}

/// The stack after a numeric operator, or `None` where the evaluator does not cover it.
pub open spec fn apply(op: NumericOp, stack: Seq<Value>) -> Option<Seq<Value>> {
    let n = stack.len();
    if n >= 2 {
        let rest = stack.take(n - 2);
        match (op, stack[n - 2], stack[n - 1]) {
            (NumericOp::I32Eq, Value::I32(a), Value::I32(b)) => Some(rest.push(flag(a == b))),
            (NumericOp::I32Ne, Value::I32(a), Value::I32(b)) => Some(rest.push(flag(a != b))),
            (NumericOp::I32LtS, Value::I32(a), Value::I32(b)) => Some(rest.push(flag(a < b))),
            (NumericOp::I32GtS, Value::I32(a), Value::I32(b)) => Some(rest.push(flag(a > b))),
            (NumericOp::I32GeS, Value::I32(a), Value::I32(b)) => Some(rest.push(flag(a >= b))),
            (NumericOp::I32GeU, Value::I32(a), Value::I32(b)) => Some(rest.push(flag(a as u32 >= b as u32))),
            (NumericOp::I32Add, Value::I32(a), Value::I32(b)) => Some(rest.push(Value::I32((a + b) as i32))),
            (NumericOp::I32Sub, Value::I32(a), Value::I32(b)) => Some(rest.push(Value::I32((a - b) as i32))),
            (NumericOp::I32Or, Value::I32(a), Value::I32(b)) => Some(rest.push(Value::I32(a | b))),
            (NumericOp::I32Shl, Value::I32(a), Value::I32(b)) => if 0 <= b < 32 {
                Some(rest.push(Value::I32(a << (b as u32))))
            } else {
                None
            },
            (NumericOp::I32ShrS, Value::I32(a), Value::I32(b)) => if 0 <= b < 32 {
                Some(rest.push(Value::I32(a >> (b as u32))))
            } else {
                None
            },
            (NumericOp::I64Shl, Value::I64(a), Value::I64(b)) => if 0 <= b < 64 {
                Some(rest.push(Value::I64(a << (b as u64))))
            } else {
                None
            },
            (NumericOp::I64ShrS, Value::I64(a), Value::I64(b)) => if 0 <= b < 64 {
                Some(rest.push(Value::I64(a >> (b as u64))))
            } else {
                None
            },
            (NumericOp::I64Eq, Value::I64(a), Value::I64(b)) => Some(rest.push(flag(a == b))),
            (NumericOp::I64LtS, Value::I64(a), Value::I64(b)) => Some(rest.push(flag(a < b))),
            (NumericOp::I64GeS, Value::I64(a), Value::I64(b)) => Some(rest.push(flag(a >= b))),
            (NumericOp::I64GeU, Value::I64(a), Value::I64(b)) => Some(rest.push(flag(a as u64 >= b as u64))),
            (NumericOp::I64Add, Value::I64(a), Value::I64(b)) => Some(rest.push(Value::I64((a + b) as i64))),
            (NumericOp::I64Sub, Value::I64(a), Value::I64(b)) => Some(rest.push(Value::I64((a - b) as i64))),
            (NumericOp::I32Mul, Value::I32(a), Value::I32(b)) => Some(rest.push(Value::I32((a * b) as i32))),
            (NumericOp::I64Mul, Value::I64(a), Value::I64(b)) => Some(rest.push(Value::I64((a * b) as i64))),
            _ => apply_unary(op, stack),
        }
    } else {
        apply_unary(op, stack)
    }
}

pub open spec fn apply_unary(op: NumericOp, stack: Seq<Value>) -> Option<Seq<Value>> {
    let n = stack.len();
    if n >= 1 {
        let rest = stack.drop_last();
        match (op, stack[n - 1]) {
            (NumericOp::I32Eqz, Value::I32(x)) => Some(rest.push(flag(x == 0))),
            (NumericOp::I64Eqz, Value::I64(x)) => Some(rest.push(flag(x == 0))),
            (NumericOp::I64ExtendI32S, Value::I32(x)) => Some(rest.push(Value::I64(x as i64))),
            (NumericOp::I64ExtendI32U, Value::I32(x)) => Some(rest.push(Value::I64((x as u32) as i64))),
            (NumericOp::I32WrapI64, Value::I64(x)) => Some(rest.push(Value::I32(x as i32))),
            _ => None,
        }
    } else {
        None
    }
}

/// The value of a cell as a load of type `op` reads it, if it has that width.
pub open spec fn loaded(op: LoadOp, v: Value) -> Option<Value> {
    match (op, v) {
        (LoadOp::I32Load, Value::I32(_)) => Some(v),
        (LoadOp::I64Load, Value::I64(_)) => Some(v),
        _ => None,
    }
}

/// Whether a store of type `op` can store `v`.
pub open spec fn storable(op: StoreOp, v: Value) -> bool {
    match (op, v) {
        (StoreOp::I32Store, Value::I32(_)) => true,
        (StoreOp::I64Store, Value::I64(_)) => true,
        _ => false,
    }
}

/// The position just after the `end` that closes the block open at position `i`,
/// `depth` blocks deeper than that one.
pub open spec fn skip_block(code: Seq<Instr>, i: int, depth: nat) -> int
    decreases code.len() - i,
{
    if i < 0 || i >= code.len() {
        code.len() as int
    } else {
        match code[i] {
            Instr::End => if depth == 0 {
                i + 1
            } else {
                skip_block(code, i + 1, (depth - 1) as nat)
            },
            Instr::Block(_) | Instr::Loop(_) | Instr::If(_) => skip_block(code, i + 1, depth + 1),
            _ => skip_block(code, i + 1, depth),
        }
    }
}

/// One step of a run: where it goes on, or how the run ends.
pub enum Step {
    Next(int, Seq<Value>, Machine),
    Stop(Outcome),
}

/// The step at position `pc`; a call of function `proc_exit` ends the run with the
/// status on the stack, and a branch to label `l` leaves `l + 1` blocks.
pub open spec fn step(code: Seq<Instr>, pc: int, stack: Seq<Value>, m: Machine, proc_exit: usize) -> Step {
    let top = stack.last();
    let popped = stack.drop_last();
    match code[pc] {
        Instr::Local(LocalOp::Get, x) => Step::Next(pc + 1, stack.push(m.locals[x]), m),
        Instr::Local(LocalOp::Put, x) => if stack.len() > 0 {
            Step::Next(pc + 1, popped, Machine { locals: m.locals.insert(x, top), ..m })
        } else {
            Step::Stop(Outcome::Stuck)
        },
        Instr::Local(LocalOp::Tee, x) => if stack.len() > 0 {
            Step::Next(pc + 1, stack, Machine { locals: m.locals.insert(x, top), ..m })
        } else {
            Step::Stop(Outcome::Stuck)
        },
        Instr::Global(GlobalOp::Get, g) => Step::Next(pc + 1, stack.push(m.globals[g]), m),
        Instr::Global(GlobalOp::Put, g) => if stack.len() > 0 {
            Step::Next(pc + 1, popped, Machine { globals: m.globals.insert(g, top), ..m })
        } else {
            Step::Stop(Outcome::Stuck)
        },
        Instr::Const(Val::I32(c)) => Step::Next(pc + 1, stack.push(Value::I32(c)), m),
        Instr::Const(Val::I64(c)) => Step::Next(pc + 1, stack.push(Value::I64(c)), m),
        Instr::Numeric(op) => match apply(op, stack) {
            Some(s) => Step::Next(pc + 1, s, m),
            None => Step::Stop(Outcome::Stuck),
        },
        Instr::Load(op, arg) => if stack.len() > 0 && top is I32 {
            match loaded(op, m.memory[address(top->I32_0, arg.offset)]) {
                Some(v) => Step::Next(pc + 1, popped.push(v), m),
                None => Step::Stop(Outcome::Stuck),
            }
        } else {
            Step::Stop(Outcome::Stuck)
        },
        Instr::Store(op, arg) => if stack.len() > 1 && popped.last() is I32 && storable(op, top) {
            let ea = address(popped.last()->I32_0, arg.offset);
            Step::Next(pc + 1, popped.drop_last(), Machine { memory: m.memory.insert(ea, top), ..m })
        } else {
            Step::Stop(Outcome::Stuck)
        },
        Instr::Block(_) | Instr::End => Step::Next(pc + 1, stack, m),
        Instr::Br(l) => Step::Next(skip_block(code, pc + 1, l as nat), stack, m),
        Instr::BrIf(l) => if stack.len() > 0 && top is I32 {
            if top->I32_0 != 0 {
                Step::Next(skip_block(code, pc + 1, l as nat), popped, m)
            } else {
                Step::Next(pc + 1, popped, m)
            }
        } else {
            Step::Stop(Outcome::Stuck)
        },
        Instr::Call(g) => if g == proc_exit {
            if stack.len() > 0 && top is I32 {
                Step::Stop(Outcome::Exit(top->I32_0))
            } else {
                Step::Stop(Outcome::Stuck)
            }
        } else if stack.len() > 1 {
            Step::Next(pc + 1, popped.drop_last().push((m.returns)(g, popped.last(), top)), m)
        } else {
            Step::Stop(Outcome::Stuck)
        },
        Instr::Unreachable => Step::Stop(Outcome::Trap),
        _ => Step::Stop(Outcome::Stuck),
    }
}

/// Runs `code` from position `pc` for at most `fuel` steps.
pub open spec fn run(code: Seq<Instr>, pc: int, stack: Seq<Value>, m: Machine, proc_exit: usize, fuel: nat) -> Outcome
    decreases fuel,
{
    if pc < 0 || pc >= code.len() {
        Outcome::Done(stack, m)
    } else if fuel == 0 {
        Outcome::Stuck
    } else {
        match step(code, pc, stack, m, proc_exit) {
            Step::Next(next, s, m2) => run(code, next, s, m2, proc_exit, (fuel - 1) as nat),
            Step::Stop(o) => o,
        }
    }
}

/// Runs a whole sequence from an empty stack.
pub open spec fn execute(code: Seq<Instr>, m: Machine, proc_exit: usize) -> Outcome {
    run(code, 0, seq![], m, proc_exit, code.len())
}

/// The run finished with an empty stack, leaving state `m`.
pub open spec fn finishes_with(o: Outcome, m: Machine) -> bool {
    o matches Outcome::Done(s, m2) && s.len() == 0 && m2 == m
}

/// The run finished with the single value `v` on the stack, leaving state `m`.
pub open spec fn yields(o: Outcome, v: Value, m: Machine) -> bool {
    o matches Outcome::Done(s, m2) && s.len() == 1 && s[0] == v && m2 == m
}

/// The state with local `x` set to `v`.
pub open spec fn set_local(m: Machine, x: usize, v: Value) -> Machine {
    Machine { locals: m.locals.insert(x, v), ..m }
}

/// The exit of a failed check ends the program with its status.
pub proof fn exit_trap_exits(code: i32, proc_exit: usize, m: Machine)
    ensures
        execute(exit_trap(code, proc_exit), m, proc_exit) == Outcome::Exit(code),
{
    reveal_with_fuel(run, 3);
}

/// The entry guard of `dlmalloc` ends the program with status `code` exactly when
/// the size parameter `p` is not positive, and that of the copying functions
/// exactly when the length parameter `p` is negative; otherwise they change nothing.
#[verifier::rlimit(100)]
#[verifier::spinoff_prover]
pub proof fn param_checks_exit_exactly_on_bad_argument(p: usize, code: i32, proc_exit: usize, m: Machine, x: i32)
    requires
        m.locals[p] == Value::I32(x),
    ensures
        if x > 0 {
            finishes_with(execute(positive_param_check(p, exit_trap(code, proc_exit)), m, proc_exit), m)
        } else {
            execute(positive_param_check(p, exit_trap(code, proc_exit)), m, proc_exit) == Outcome::Exit(code)
        },
        if x >= 0 {
            finishes_with(execute(non_negative_param_check(p, exit_trap(code, proc_exit)), m, proc_exit), m)
        } else {
            execute(non_negative_param_check(p, exit_trap(code, proc_exit)), m, proc_exit) == Outcome::Exit(code)
        },
{
    let c1 = positive_param_check(p, exit_trap(code, proc_exit));
    let c2 = non_negative_param_check(p, exit_trap(code, proc_exit));
    assert(c1.len() == 9);
    assert(c2.len() == 9);
    reveal_with_fuel(run, 10);
    reveal_with_fuel(skip_block, 5);
    assert(skip_block(c1, 5, 0) == 9);
    assert(skip_block(c2, 5, 0) == 9);
    if x <= 0 {
        assert(run(c1, 5, seq![], m, proc_exit, 4) == Outcome::Exit(code));
    }
    if x < 0 {
        assert(run(c2, 5, seq![], m, proc_exit, 4) == Outcome::Exit(code));
    }
}

/// The null check ends the program with status `code` exactly when the store
/// address held in local `a` is zero; otherwise it only sets its flag local `k`.
#[verifier::rlimit(100)]
#[verifier::spinoff_prover]
pub proof fn null_check_exits_exactly_on_null(a: usize, k: usize, code: i32, proc_exit: usize, m: Machine, addr: i32)
    requires
        m.locals[a] == Value::I32(addr),
    ensures
        if addr == 0 {
            execute(null_check(a, k, exit_trap(code, proc_exit)), m, proc_exit) == Outcome::Exit(code)
        } else {
            finishes_with(
                execute(null_check(a, k, exit_trap(code, proc_exit)), m, proc_exit),
                set_local(m, k, Value::I32(1)),
            )
        },
{
    let c = null_check(a, k, exit_trap(code, proc_exit));
    assert(c.len() == 11);
    reveal_with_fuel(run, 12);
    reveal_with_fuel(skip_block, 5);
    let m1 = set_local(m, k, flag(addr != 0));
    assert(m1.locals[k] == flag(addr != 0));
    if addr == 0 {
        assert(run(c, 7, seq![], m1, proc_exit, 4) == Outcome::Exit(code));
    } else {
        assert(skip_block(c, 7, 0) == 11);
    }
}

/// The value that extending the wrapped `x` back to 64 bits gives.
pub open spec fn extended(x: i32, signed: bool) -> i64 {
    if signed {
        x as i64
    } else {
        (x as u32) as i64
    }
}

/// The truncation check, run after the wrapped value `x` was stored in local
/// `narrow`, ends the program with status `code` exactly when extending `x` back
/// does not give the original value `v` of local `wide`.
#[verifier::rlimit(100)]
#[verifier::spinoff_prover]
pub proof fn truncation_check_exits_exactly_on_loss(
    wide: usize,
    narrow: usize,
    k: usize,
    signed: bool,
    code: i32,
    proc_exit: usize,
    m: Machine,
    v: i64,
    x: i32,
)
    requires
        k + 1 <= usize::MAX,
        wide != k,
        wide != k + 1,
        m.locals[wide] == Value::I64(v),
        m.locals[narrow] == Value::I32(x),
    ensures
        if extended(x, signed) == v {
            finishes_with(
                execute(truncation_check(wide, narrow, k, signed, exit_trap(code, proc_exit)), m, proc_exit),
                set_local(set_local(m, k, Value::I32(x)), (k + 1) as usize, Value::I64(extended(x, signed))),
            )
        } else {
            execute(truncation_check(wide, narrow, k, signed, exit_trap(code, proc_exit)), m, proc_exit)
                == Outcome::Exit(code)
        },
{
    let c = truncation_check(wide, narrow, k, signed, exit_trap(code, proc_exit));
    assert(c.len() == 14);
    reveal_with_fuel(run, 15);
    reveal_with_fuel(skip_block, 5);
    let m1 = set_local(m, k, Value::I32(x));
    let m2 = set_local(m1, (k + 1) as usize, Value::I64(extended(x, signed)));
    assert(m1.locals[k] == Value::I32(x));
    assert(m2.locals[(k + 1) as usize] == Value::I64(extended(x, signed)));
    assert(m2.locals[wide] == Value::I64(v));
    if extended(x, signed) == v {
        assert(skip_block(c, 10, 0) == 14);
    } else {
        assert(run(c, 10, seq![], m2, proc_exit, 4) == Outcome::Exit(code));
    }
}

/// A wrap that loses nothing, read back as signed: the value fits in an `i32`.
pub proof fn signed_wrap_is_lossless_iff_in_range(v: i64)
    ensures
        extended(v as i32, true) == v <==> i32::MIN <= v <= i32::MAX,
{
    assert((v as i32) as i64 == v <==> (-0x8000_0000 <= v && v <= 0x7fff_ffff)) by (bit_vector);
}

/// A wrap that loses nothing, read back as unsigned: the value fits in a `u32`.
pub proof fn unsigned_wrap_is_lossless_iff_in_range(v: i64)
    ensures
        extended(v as i32, false) == v <==> 0 <= v <= u32::MAX,
{
    assert(((v as i32) as u32) as i64 == v <==> (0 <= v && v <= 0xffff_ffff)) by (bit_vector);
}

/// At a truncation site `local.get w; i32.wrap_i64; local.set n` followed by its
/// check, the program ends with status `code` exactly when the 64-bit value of `w`
/// does not fit the 32 bits it is read back as (signed or unsigned).
#[verifier::rlimit(100)]
#[verifier::spinoff_prover]
pub proof fn truncation_site_exits_exactly_when_value_does_not_fit(
    wide: usize,
    narrow: usize,
    k: usize,
    signed: bool,
    code: i32,
    proc_exit: usize,
    m: Machine,
    v: i64,
)
    requires
        k + 1 <= usize::MAX,
        wide != k,
        wide != k + 1,
        wide != narrow,
        m.locals[wide] == Value::I64(v),
    ensures
        ({
            let site = seq![lget(wide), num(NumericOp::I32WrapI64), lput(narrow)];
            let check = truncation_check(wide, narrow, k, signed, exit_trap(code, proc_exit));
            let after = set_local(m, narrow, Value::I32(v as i32));
            &&& finishes_with(execute(site, m, proc_exit), after)
            &&& (execute(check, after, proc_exit) == Outcome::Exit(code) <==> if signed {
                !(i32::MIN <= v <= i32::MAX)
            } else {
                !(0 <= v <= u32::MAX)
            })
        }),
{
    reveal_with_fuel(run, 4);
    let after = set_local(m, narrow, Value::I32(v as i32));
    assert(after.locals[wide] == Value::I64(v));
    assert(after.locals[narrow] == Value::I32(v as i32));
    truncation_check_exits_exactly_on_loss(wide, narrow, k, signed, code, proc_exit, after, v, v as i32);
    signed_wrap_is_lossless_iff_in_range(v);
    unsigned_wrap_is_lossless_iff_in_range(v);
}


// ---------------------------------------------------------------- arithmetic checks

/// The 32-bit shift check ends the program with status `code` exactly when the
/// shifted value is negative or the shift amount lies outside `0..32`; otherwise
/// it changes nothing.
#[verifier::rlimit(100)]
#[verifier::spinoff_prover]
pub proof fn shift_check_exits_exactly_on_bad_operands(
    b: usize,
    a: usize,
    code: i32,
    proc_exit: usize,
    m: Machine,
    x: i32,
    y: i32,
)
    requires
        m.locals[b] == Value::I32(x),
        m.locals[a] == Value::I32(y),
    ensures
        if x < 0 || y < 0 || y >= 32 {
            execute(shift_check(b, a, false, exit_trap(code, proc_exit)), m, proc_exit) == Outcome::Exit(code)
        } else {
            finishes_with(execute(shift_check(b, a, false, exit_trap(code, proc_exit)), m, proc_exit), m)
        },
{
    let c = shift_check(b, a, false, exit_trap(code, proc_exit));
    assert(c.len() == 20);
    reveal_with_fuel(skip_block, 12);
    assert(skip_block(c, 6, 0) == 16);
    assert(skip_block(c, 10, 0) == 16);
    assert(skip_block(c, 14, 0) == 16);
    assert(skip_block(c, 15, 1) == 20);
    reveal_with_fuel(run, 21);
}

/// The 64-bit shift check ends the program with status `code` exactly when the
/// shifted value is negative or the shift amount lies outside `0..64`; otherwise
/// it changes nothing.
#[verifier::rlimit(100)]
#[verifier::spinoff_prover]
pub proof fn wide_shift_check_exits_exactly_on_bad_operands(
    b: usize,
    a: usize,
    code: i32,
    proc_exit: usize,
    m: Machine,
    x: i64,
    y: i64,
)
    requires
        m.locals[b] == Value::I64(x),
        m.locals[a] == Value::I64(y),
    ensures
        if x < 0 || y < 0 || y >= 64 {
            execute(shift_check(b, a, true, exit_trap(code, proc_exit)), m, proc_exit) == Outcome::Exit(code)
        } else {
            finishes_with(execute(shift_check(b, a, true, exit_trap(code, proc_exit)), m, proc_exit), m)
        },
{
    let c = shift_check(b, a, true, exit_trap(code, proc_exit));
    assert(c.len() == 20);
    reveal_with_fuel(skip_block, 12);
    assert(skip_block(c, 6, 0) == 16);
    assert(skip_block(c, 10, 0) == 16);
    assert(skip_block(c, 14, 0) == 16);
    assert(skip_block(c, 15, 1) == 20);
    reveal_with_fuel(run, 21);
}

/// The unsigned addition check, run on the sum `r` that the addition left on the
/// stack, keeps it in local `sum` and ends the program with status `code` exactly
/// when `r` is below the first operand `x` (unsigned); otherwise it leaves `r` on
/// the stack.
#[verifier::rlimit(100)]
#[verifier::spinoff_prover]
pub proof fn unsigned_add_check_exits_exactly_on_wrap(
    x: usize,
    sum: usize,
    code: i32,
    proc_exit: usize,
    m: Machine,
    a: i32,
    r: i32,
)
    requires
        x != sum,
        m.locals[x] == Value::I32(a),
    ensures
        if (r as u32) < (a as u32) {
            run(unsigned_add_check(x, sum, false, exit_trap(code, proc_exit)), 0, seq![Value::I32(r)], m, proc_exit, 11)
                == Outcome::Exit(code)
        } else {
            yields(
                run(unsigned_add_check(x, sum, false, exit_trap(code, proc_exit)), 0, seq![Value::I32(r)], m, proc_exit, 11),
                Value::I32(r),
                set_local(m, sum, Value::I32(r)),
            )
        },
{
    let c = unsigned_add_check(x, sum, false, exit_trap(code, proc_exit));
    assert(c.len() == 10);
    reveal_with_fuel(run, 12);
    reveal_with_fuel(skip_block, 5);
    let m1 = set_local(m, sum, Value::I32(r));
    assert(m1.locals[sum] == Value::I32(r));
    assert(m1.locals[x] == Value::I32(a));
    assert(skip_block(c, 6, 0) == 10);
}

/// A wrapped 32-bit sum is below its first operand (unsigned) exactly when the
/// unsigned addition overflows.
pub proof fn unsigned_sum_wraps_iff_below_operand(a: i32, b: i32)
    ensures
        (((a + b) as i32) as u32) < (a as u32) <==> (a as u32) + (b as u32) > u32::MAX,
{
    assert((((a + b) as i32) as u32) < (a as u32) <==> (a as u32) + (b as u32) > 0xffff_ffff) by (bit_vector);
}

/// At an unsigned addition site `local.get x; local.get y; i32.add` followed by its
/// check, the program ends with status `code` exactly when the unsigned sum of the
/// two locals does not fit in 32 bits.
pub proof fn unsigned_add_site_exits_exactly_on_overflow(
    x: usize,
    y: usize,
    sum: usize,
    code: i32,
    proc_exit: usize,
    m: Machine,
    a: i32,
    b: i32,
)
    requires
        x != sum,
        m.locals[x] == Value::I32(a),
        m.locals[y] == Value::I32(b),
    ensures
        ({
            let r = (a + b) as i32;
            let check = unsigned_add_check(x, sum, false, exit_trap(code, proc_exit));
            &&& yields(execute(seq![lget(x), lget(y), num(NumericOp::I32Add)], m, proc_exit), Value::I32(r), m)
            &&& (run(check, 0, seq![Value::I32(r)], m, proc_exit, 11) == Outcome::Exit(code) <==> (a as u32)
                + (b as u32) > u32::MAX)
        }),
{
    reveal_with_fuel(run, 4);
    let r = (a + b) as i32;
    unsigned_add_check_exits_exactly_on_wrap(x, sum, code, proc_exit, m, a, r);
    unsigned_sum_wraps_iff_below_operand(a, b);
}

/// The 64-bit unsigned subtraction check ends the program with status `code`
/// exactly when the subtrahend in local `a` exceeds the minuend in local `b`
/// (unsigned), that is when `b - a` wraps; otherwise it changes nothing.
#[verifier::rlimit(100)]
#[verifier::spinoff_prover]
pub proof fn unsigned_sub_check_exits_exactly_on_wrap(
    b: usize,
    a: usize,
    code: i32,
    proc_exit: usize,
    m: Machine,
    vb: i64,
    va: i64,
)
    requires
        m.locals[b] == Value::I64(vb),
        m.locals[a] == Value::I64(va),
    ensures
        if (vb as u64) < (va as u64) {
            execute(unsigned_sub_check(b, a, exit_trap(code, proc_exit)), m, proc_exit) == Outcome::Exit(code)
        } else {
            finishes_with(execute(unsigned_sub_check(b, a, exit_trap(code, proc_exit)), m, proc_exit), m)
        },
{
    let c = unsigned_sub_check(b, a, exit_trap(code, proc_exit));
    assert(c.len() == 9);
    reveal_with_fuel(run, 10);
    reveal_with_fuel(skip_block, 5);
    assert(skip_block(c, 5, 0) == 9);
}

/// The unsigned 32-bit product check, run on the product `r` that the
/// multiplication left on the stack, keeps it in local `prod` and ends the program
/// with status `code` exactly when the 64-bit product of the zero-extended operands
/// in locals `b` and `a` differs from the zero-extended `r`; otherwise it leaves
/// `r` on the stack.
#[verifier::rlimit(100)]
#[verifier::spinoff_prover]
pub proof fn unsigned_mul_check_exits_exactly_on_loss(
    b: usize,
    a: usize,
    prod: usize,
    code: i32,
    proc_exit: usize,
    m: Machine,
    x: i32,
    y: i32,
    r: i32,
)
    requires
        b != prod,
        a != prod,
        m.locals[b] == Value::I32(x),
        m.locals[a] == Value::I32(y),
    ensures
        ({
            let out = run(unsigned_mul_check(b, a, prod, exit_trap(code, proc_exit)), 0, seq![Value::I32(r)], m, proc_exit, 16);
            if ((x as u32) as i64 * (y as u32) as i64) as i64 != (r as u32) as i64 {
                out == Outcome::Exit(code)
            } else {
                yields(out, Value::I32(r), set_local(m, prod, Value::I32(r)))
            }
        }),
{
    let c = unsigned_mul_check(b, a, prod, exit_trap(code, proc_exit));
    assert(c.len() == 15);
    let m1 = set_local(m, prod, Value::I32(r));
    assert(m1.locals[prod] == Value::I32(r));
    assert(m1.locals[b] == Value::I32(x));
    assert(m1.locals[a] == Value::I32(y));
    reveal_with_fuel(skip_block, 5);
    assert(skip_block(c, 11, 0) == 15);
    reveal_with_fuel(run, 16);
}

/// The product check at an unsigned multiplication fails exactly when the unsigned
/// product of the operands does not fit in 32 bits.
pub proof fn unsigned_product_check_fails_iff_overflow(x: i32, y: i32)
    ensures
        ((x as u32) as i64 * (y as u32) as i64) as i64 != (((x * y) as i32) as u32) as i64 <==> (x as u32)
            * (y as u32) > u32::MAX,
{
    assert(((x as u32) as i64 * (y as u32) as i64) as i64 != (((x * y) as i32) as u32) as i64 <==> (x as u32)
        * (y as u32) > 0xffff_ffff) by (bit_vector);
}

/// At an unsigned multiplication site `local.get b; local.get a; i32.mul` followed by
/// its check, the program ends with status `code` exactly when the unsigned
/// product of the two locals does not fit in 32 bits.
pub proof fn unsigned_mul_site_exits_exactly_on_overflow(
    b: usize,
    a: usize,
    prod: usize,
    code: i32,
    proc_exit: usize,
    m: Machine,
    x: i32,
    y: i32,
)
    requires
        b != prod,
        a != prod,
        m.locals[b] == Value::I32(x),
        m.locals[a] == Value::I32(y),
    ensures
        ({
            let r = (x * y) as i32;
            let check = unsigned_mul_check(b, a, prod, exit_trap(code, proc_exit));
            &&& yields(execute(seq![lget(b), lget(a), num(NumericOp::I32Mul)], m, proc_exit), Value::I32(r), m)
            &&& (run(check, 0, seq![Value::I32(r)], m, proc_exit, 16) == Outcome::Exit(code) <==> (x as u32)
                * (y as u32) > u32::MAX)
        }),
{
    reveal_with_fuel(run, 4);
    let r = (x * y) as i32;
    unsigned_mul_check_exits_exactly_on_loss(b, a, prod, code, proc_exit, m, x, y, r);
    unsigned_product_check_fails_iff_overflow(x, y);
}

/// The 64-bit unsigned addition check, run on the sum `r` that the addition left on
/// the stack, keeps it in local `sum` and ends the program with status `code`
/// exactly when `r` is below the first operand `x` (unsigned), which is when the
/// unsigned addition wrapped; otherwise it leaves `r` on the stack.
#[verifier::rlimit(100)]
#[verifier::spinoff_prover]
pub proof fn wide_unsigned_add_check_exits_exactly_on_wrap(
    x: usize,
    y: usize,
    sum: usize,
    code: i32,
    proc_exit: usize,
    m: Machine,
    a: i64,
    b: i64,
)
    requires
        x != sum,
        m.locals[x] == Value::I64(a),
        m.locals[y] == Value::I64(b),
    ensures
        ({
            let r = (a + b) as i64;
            let out = run(unsigned_add_check(x, sum, true, exit_trap(code, proc_exit)), 0, seq![Value::I64(r)], m, proc_exit, 11);
            &&& yields(execute(seq![lget(x), lget(y), num(NumericOp::I64Add)], m, proc_exit), Value::I64(r), m)
            &&& if (a as u64) + (b as u64) > u64::MAX {
                out == Outcome::Exit(code)
            } else {
                yields(out, Value::I64(r), set_local(m, sum, Value::I64(r)))
            }
        }),
{
    let r = (a + b) as i64;
    let c = unsigned_add_check(x, sum, true, exit_trap(code, proc_exit));
    assert(c.len() == 10);
    assert(((r as u64) < (a as u64)) <==> (a as u64) + (b as u64) > 0xffff_ffff_ffff_ffff) by (bit_vector)
        requires
            r == (a + b) as i64,
    ;
    let m1 = set_local(m, sum, Value::I64(r));
    assert(m1.locals[sum] == Value::I64(r));
    assert(m1.locals[x] == Value::I64(a));
    reveal_with_fuel(skip_block, 5);
    assert(skip_block(c, 6, 0) == 10);
    reveal_with_fuel(run, 12);
}

/// The narrow product check, run on the product `r` that the multiplication left on
/// the stack, ends the program with status `code` exactly when `r` lies outside
/// `0..=max`; otherwise it leaves `r` on the stack.
#[verifier::rlimit(100)]
#[verifier::spinoff_prover]
pub proof fn narrow_mul_check_exits_exactly_out_of_range(
    max: i32,
    k: usize,
    code: i32,
    proc_exit: usize,
    m: Machine,
    r: i32,
)
    requires
        k + 1 <= usize::MAX,
    ensures
        if r > max || r < 0 {
            run(narrow_mul_check(max, k, exit_trap(code, proc_exit)), 0, seq![Value::I32(r)], m, proc_exit, 17)
                == Outcome::Exit(code)
        } else {
            yields(
                run(narrow_mul_check(max, k, exit_trap(code, proc_exit)), 0, seq![Value::I32(r)], m, proc_exit, 17),
                Value::I32(r),
                set_local(set_local(m, k, Value::I32(r)), (k + 1) as usize, Value::I32(1)),
            )
        },
{
    let c = narrow_mul_check(max, k, exit_trap(code, proc_exit));
    assert(c.len() == 17);
    reveal_with_fuel(run, 18);
    reveal_with_fuel(skip_block, 5);
    assert((0i32 | 0i32) == 0i32 && (0i32 | 1i32) == 1i32 && (1i32 | 0i32) == 1i32 && (1i32 | 1i32) == 1i32)
        by (bit_vector);
    let m1 = set_local(m, k, Value::I32(r));
    assert(m1.locals[k] == Value::I32(r));
    let f = flag(!((r > max) || (r < 0)));
    let m2 = set_local(m1, (k + 1) as usize, f);
    assert(m2.locals[(k + 1) as usize] == f);
    assert(skip_block(c, 13, 0) == 17);
}

/// The sign check after a 32-bit zero-extending load ends the program with status
/// `code` exactly when the loaded value `v` of local `x`, with its top `sh` bits
/// filled by its sign, is negative; otherwise it changes nothing.
#[verifier::rlimit(100)]
#[verifier::spinoff_prover]
pub proof fn sign_check_exits_exactly_on_negative(x: usize, sh: i64, code: i32, proc_exit: usize, m: Machine, v: i32)
    requires
        0 <= sh < 32,
        m.locals[x] == Value::I32(v),
    ensures
        if ((v << (sh as u32)) >> (sh as u32)) < 0 {
            execute(sign_check(x, sh, false, exit_trap(code, proc_exit)), m, proc_exit) == Outcome::Exit(code)
        } else {
            finishes_with(execute(sign_check(x, sh, false, exit_trap(code, proc_exit)), m, proc_exit), m)
        },
{
    let c = sign_check(x, sh, false, exit_trap(code, proc_exit));
    assert(c.len() == 13);
    assert((sh as i32) as u32 == sh as u32);
    reveal_with_fuel(skip_block, 6);
    assert(skip_block(c, 9, 0) == 13);
    reveal_with_fuel(run, 14);
}

/// The sign check after a 64-bit zero-extending load ends the program with status
/// `code` exactly when the loaded value `v` of local `x`, with its top `sh` bits
/// filled by its sign, is negative; otherwise it changes nothing.
#[verifier::rlimit(100)]
#[verifier::spinoff_prover]
pub proof fn wide_sign_check_exits_exactly_on_negative(
    x: usize,
    sh: i64,
    code: i32,
    proc_exit: usize,
    m: Machine,
    v: i64,
)
    requires
        0 <= sh < 64,
        m.locals[x] == Value::I64(v),
    ensures
        if ((v << (sh as u64)) >> (sh as u64)) < 0 {
            execute(sign_check(x, sh, true, exit_trap(code, proc_exit)), m, proc_exit) == Outcome::Exit(code)
        } else {
            finishes_with(execute(sign_check(x, sh, true, exit_trap(code, proc_exit)), m, proc_exit), m)
        },
{
    let c = sign_check(x, sh, true, exit_trap(code, proc_exit));
    assert(c.len() == 13);
    reveal_with_fuel(skip_block, 6);
    assert(skip_block(c, 9, 0) == 13);
    reveal_with_fuel(run, 14);
}

/// For each zero-extending load, the value it yields counts as negative in its sign
/// check exactly when the narrow value it read has its top bit set, that is when it
/// is negative read as a signed value of the narrow width.
pub proof fn narrow_loads_negative_iff_top_bit_set(v32: i32, v64: i64)
    ensures
        0 <= v32 < 256 ==> ((((v32 << 24u32) >> 24u32) < 0) <==> v32 >= 128),
        0 <= v32 < 65536 ==> ((((v32 << 16u32) >> 16u32) < 0) <==> v32 >= 32768),
        0 <= v64 < 256 ==> ((((v64 << 56u64) >> 56u64) < 0) <==> v64 >= 128),
        0 <= v64 < 65536 ==> ((((v64 << 48u64) >> 48u64) < 0) <==> v64 >= 32768),
        0 <= v64 < 0x1_0000_0000 ==> ((((v64 << 32u64) >> 32u64) < 0) <==> v64 >= 0x8000_0000),
{
    assert(0 <= v32 < 256 ==> ((((v32 << 24u32) >> 24u32) < 0) <==> v32 >= 128)) by (bit_vector);
    assert(0 <= v32 < 65536 ==> ((((v32 << 16u32) >> 16u32) < 0) <==> v32 >= 32768)) by (bit_vector);
    assert(0 <= v64 < 256 ==> ((((v64 << 56u64) >> 56u64) < 0) <==> v64 >= 128)) by (bit_vector);
    assert(0 <= v64 < 65536 ==> ((((v64 << 48u64) >> 48u64) < 0) <==> v64 >= 32768)) by (bit_vector);
    assert(0 <= v64 < 0x1_0000_0000 ==> ((((v64 << 32u64) >> 32u64) < 0) <==> v64 >= 0x8000_0000))
        by (bit_vector);
}

#[verifier::rlimit(100)]
#[verifier::spinoff_prover]
proof fn lemma_narrow_add_check(sh: i32, max: i32, min: i32, k: usize, code: i32, proc_exit: usize, m: Machine, r: i32)
    requires
        k + 1 <= usize::MAX,
        0 <= sh < 32,
    ensures
        ({
            let out = run(narrow_add_check(sh, max, min, k, exit_trap(code, proc_exit)), 0, seq![Value::I32(r)], m, proc_exit, 21);
            if ((r << (sh as u32)) >> (sh as u32)) > max || r < min {
                out == Outcome::Exit(code)
            } else {
                yields(out, Value::I32(r), set_local(set_local(m, k, Value::I32(r)), (k + 1) as usize, Value::I32(1)))
            }
        }),
{
    let c = narrow_add_check(sh, max, min, k, exit_trap(code, proc_exit));
    assert(c.len() == 21);
    assert((0i32 | 0i32) == 0i32 && (0i32 | 1i32) == 1i32 && (1i32 | 0i32) == 1i32 && (1i32 | 1i32) == 1i32)
        by (bit_vector);
    let m1 = set_local(m, k, Value::I32(r));
    assert(m1.locals[k] == Value::I32(r));
    let f = flag(!((((r << (sh as u32)) >> (sh as u32)) > max) || (r < min)));
    let m2 = set_local(m1, (k + 1) as usize, f);
    assert(m2.locals[(k + 1) as usize] == f);
    reveal_with_fuel(skip_block, 5);
    assert(skip_block(c, 17, 0) == 21);
    reveal_with_fuel(run, 22);
}

/// The narrow sum check, run on the sum `r` that the addition left on the stack,
/// ends the program with status `code` exactly when `r` with its top 24 bits (16
/// for `short`) filled by its sign exceeds the narrow maximum, or `r` itself is
/// below the narrow minimum; otherwise it leaves `r` on the stack.
pub proof fn narrow_add_check_exits_exactly_out_of_range(
    short: bool,
    k: usize,
    code: i32,
    proc_exit: usize,
    m: Machine,
    r: i32,
)
    requires
        k + 1 <= usize::MAX,
    ensures
        ({
            let sh: u32 = if short { 16 } else { 24 };
            let max: i32 = if short { 32767 } else { 127 };
            let min: i32 = if short { -32768i32 } else { -128i32 };
            let out = run(narrow_add_for(short, k, exit_trap(code, proc_exit)), 0, seq![Value::I32(r)], m, proc_exit, 21);
            if ((r << sh) >> sh) > max || r < min {
                out == Outcome::Exit(code)
            } else {
                yields(out, Value::I32(r), set_local(set_local(m, k, Value::I32(r)), (k + 1) as usize, Value::I32(1)))
            }
        }),
{
    if short {
        lemma_narrow_add_check(16, 32767, -32768i32, k, code, proc_exit, m, r);
    } else {
        lemma_narrow_add_check(24, 127, -128i32, k, code, proc_exit, m, r);
    }
}

/// A sum with its top 24 (16) bits filled by its sign never exceeds 127 (32767), so
/// the narrow sum check ends the program exactly when the sum itself is below the
/// narrow minimum.
pub proof fn sign_filled_sum_within_narrow_max(r: i32)
    ensures
        ((r << 24u32) >> 24u32) <= 127,
        ((r << 16u32) >> 16u32) <= 32767,
{
    assert(((r << 24u32) >> 24u32) <= 127) by (bit_vector);
    assert(((r << 16u32) >> 16u32) <= 32767) by (bit_vector);
}

/// The signed overflow check, run after the operation left `v` on the stack, calls
/// helper `helper` on the operands in locals `b` and `a`, and ends the program with
/// status `code` exactly when the helper reports an overflow (returns non-zero);
/// otherwise it leaves `v` on the stack and the state as it was.
#[verifier::rlimit(100)]
#[verifier::spinoff_prover]
pub proof fn call_check_exits_exactly_when_helper_reports(
    b: usize,
    a: usize,
    helper: usize,
    code: i32,
    proc_exit: usize,
    m: Machine,
    v: Value,
    r: i32,
)
    requires
        helper != proc_exit,
        (m.returns)(helper, m.locals[b], m.locals[a]) == Value::I32(r),
    ensures
        if r != 0 {
            run(call_check(b, a, helper, exit_trap(code, proc_exit)), 0, seq![v], m, proc_exit, 10) == Outcome::Exit(code)
        } else {
            yields(run(call_check(b, a, helper, exit_trap(code, proc_exit)), 0, seq![v], m, proc_exit, 10), v, m)
        },
{
    let c = call_check(b, a, helper, exit_trap(code, proc_exit));
    assert(c.len() == 10);
    reveal_with_fuel(skip_block, 5);
    assert(skip_block(c, 6, 0) == 10);
    reveal_with_fuel(run, 11);
}

// ---------------------------------------------------------------- heap canaries

/// The last address of the chunk at `p` of `s` bytes at which a canary fits.
pub open spec fn tail_canary(p: i32, s: i32) -> int {
    (p as u32) + (s as u32) - 8
}

/// The state after the chunk postfix of `malloc` stored the size `s` and the two
/// zero canaries of the chunk at `p`, keeping `p` in local `tmp`.
pub open spec fn chunk_stored(m: Machine, tmp: usize, p: i32, s: i32) -> Machine {
    Machine {
        locals: m.locals.insert(tmp, Value::I32(p)),
        memory: m.memory.insert(address(p, 0), Value::I32(s)).insert(address(p, 4), Value::I64(0)).insert(
            tail_canary(p, s),
            Value::I64(0),
        ),
        ..m
    }
}

/// The pointer arithmetic of the heap canaries, on 32-bit wrapping values, lands
/// where the unsigned addresses say, for every chunk of at least 20 bytes that
/// ends within the 32-bit address space.
proof fn lemma_chunk_addresses(p: i32, s: i32)
    requires
        20 <= s as u32,
        (p as u32) + (s as u32) <= 0x1_0000_0000,
    ensures
        ((p + 4) as i32) as u32 == (p as u32) + 4,
        ((((s + p) as i32) - 8) as i32) as u32 == (p as u32) + (s as u32) - 8,
        ((p + 12) as i32) as u32 == (p as u32) + 12,
        ((p + 12) as i32) != 0,
        (((p + 12) as i32) - 12) as i32 == p,
{
    assert(((p + 4) as i32) as u32 == (p as u32) + 4) by (bit_vector)
        requires
            20 <= s as u32,
            (p as u32) + (s as u32) <= 0x1_0000_0000,
    ;
    assert(((((s + p) as i32) - 8) as i32) as u32 == (p as u32) + (s as u32) - 8) by (bit_vector)
        requires
            20 <= s as u32,
            (p as u32) + (s as u32) <= 0x1_0000_0000,
    ;
    assert(((p + 12) as i32) as u32 == (p as u32) + 12) by (bit_vector)
        requires
            20 <= s as u32,
            (p as u32) + (s as u32) <= 0x1_0000_0000,
    ;
    assert(((p + 12) as i32) != 0) by (bit_vector)
        requires
            20 <= s as u32,
            (p as u32) + (s as u32) <= 0x1_0000_0000,
    ;
    assert((((p + 12) as i32) - 12) as i32 == p) by (bit_vector);
}

/// With insertion switched on (global `off` is 0), the `malloc` prefix asks the
/// original body for `n + 20` bytes (wrapping as `i32.add` does) and keeps that size
/// in local `size`.
#[verifier::rlimit(100)]
#[verifier::spinoff_prover]
pub proof fn malloc_prefix_enlarges_request(off: usize, size: usize, proc_exit: usize, m: Machine, n: i32)
    requires
        m.globals[off] == Value::I32(0),
        m.locals[0] == Value::I32(n),
    ensures
        finishes_with(
            execute(malloc_prefix(off, size), m, proc_exit),
            set_local(set_local(m, size, Value::I32((n + 20) as i32)), 0, Value::I32((n + 20) as i32)),
        ),
{
    let c = malloc_prefix(off, size);
    assert(c.len() == 11);
    reveal_with_fuel(run, 12);
}

/// With insertion switched on, the `malloc` postfix, given the non-null chunk `p`
/// that the original body returned and the enlarged size `s` in local `size`,
/// stores `s` at `p`, zero canaries at `p + 4` and `p + s - 8`, and returns
/// `p + 12`; for every chunk of at least 20 bytes that ends within the 32-bit
/// address space.
#[verifier::rlimit(100)]
#[verifier::spinoff_prover]
pub proof fn malloc_postfix_plants_canaries(
    tmp: usize,
    size: usize,
    off: usize,
    proc_exit: usize,
    m: Machine,
    p: i32,
    s: i32,
)
    requires
        tmp != size,
        p != 0,
        20 <= s as u32,
        (p as u32) + (s as u32) <= 0x1_0000_0000,
        m.globals[off] == Value::I32(0),
        m.locals[size] == Value::I32(s),
    ensures
        yields(
            run(chunk_postfix(tmp, size, switch_skip(off)), 0, seq![Value::I32(p)], m, proc_exit, 26),
            Value::I32((p + 12) as i32),
            chunk_stored(m, tmp, p, s),
        ),
{
    lemma_chunk_addresses(p, s);
    let c = chunk_postfix(tmp, size, switch_skip(off));
    assert(c.len() == 26);
    let m1 = Machine { locals: m.locals.insert(tmp, Value::I32(p)), ..m };
    assert(m1.locals[tmp] == Value::I32(p));
    assert(m1.locals[size] == Value::I32(s));
    let m2 = Machine { memory: m1.memory.insert(address(p, 0), Value::I32(s)), ..m1 };
    let m3 = Machine { memory: m2.memory.insert(address(p, 4), Value::I64(0)), ..m2 };
    let m4 = Machine { memory: m3.memory.insert(tail_canary(p, s), Value::I64(0)), ..m3 };
    assert(m4 == chunk_stored(m, tmp, p, s));
    reveal_with_fuel(run, 27);
}

/// With checks switched on (global `off` is 0), the `free` (and `realloc`) prefix,
/// given the pointer `p + 12` in local 0 of a chunk at `p` whose size cell holds
/// `s`, ends the program with status 21 when either canary cell is not zero, and
/// otherwise hands the chunk start `p` on in local 0; for every non-null chunk of at
/// least 20 bytes that ends within the 32-bit address space.
#[verifier::rlimit(100)]
#[verifier::spinoff_prover]
pub proof fn free_prefix_checks_canaries(off: usize, proc_exit: usize, m: Machine, p: i32, s: i32, c1: i64, c2: i64)
    requires
        p != 0,
        20 <= s as u32,
        (p as u32) + (s as u32) <= 0x1_0000_0000,
        m.globals[off] == Value::I32(0),
        m.locals[0] == Value::I32((p + 12) as i32),
        m.memory[address(p, 0)] == Value::I32(s),
        m.memory[address(p, 4)] == Value::I64(c1),
        m.memory[tail_canary(p, s)] == Value::I64(c2),
    ensures
        if c1 == 0 && c2 == 0 {
            finishes_with(execute(canary_check_block(0, off, proc_exit), m, proc_exit), set_local(m, 0, Value::I32(p)))
        } else {
            execute(canary_check_block(0, off, proc_exit), m, proc_exit) == Outcome::Exit(21)
        },
{
    lemma_chunk_addresses(p, s);
    let c = canary_check_block(0, off, proc_exit);
    assert(c.len() == 40);
    let m1 = set_local(m, 0, Value::I32(p));
    assert(m1.locals[0] == Value::I32(p));
    assert(m1.memory == m.memory);
    reveal_with_fuel(skip_block, 5);
    assert(skip_block(c, 20, 0) == 24);
    assert(skip_block(c, 34, 0) == 38);
    reveal_with_fuel(run, 41);
}

/// The heap canary round trip: a chunk `p` that the guarded `malloc` handed out for
/// a request of `n` bytes, and whose size cell and canary cells nothing overwrote
/// since, passes the check of the guarded `free`, which hands its original body the
/// very chunk that the original `malloc` body returned; for every non-null chunk
/// with `p + n + 20` within the 32-bit address space. A chunk with a changed canary
/// ends the program with status 21 (see `free_prefix_checks_canaries`).
pub proof fn heap_round_trip(
    tmp: usize,
    size: usize,
    insertion_off: usize,
    checks_off: usize,
    proc_exit: usize,
    after_malloc: Machine,
    at_free: Machine,
    p: i32,
    n: i32,
)
    requires
        tmp != size,
        p != 0,
        (p as u32) + (n as u32) + 20 <= 0x1_0000_0000,
        after_malloc.globals[insertion_off] == Value::I32(0),
        after_malloc.locals[size] == Value::I32((n + 20) as i32),
        at_free.globals[checks_off] == Value::I32(0),
        at_free.locals[0] == Value::I32((p + 12) as i32),
    ensures
        ({
            let stored = chunk_stored(after_malloc, tmp, p, (n + 20) as i32);
            let untouched = at_free.memory[address(p, 0)] == stored.memory[address(p, 0)]
                && at_free.memory[address(p, 4)] == stored.memory[address(p, 4)] && at_free.memory[(p as u32)
                + (n as u32) + 12] == stored.memory[(p as u32) + (n as u32) + 12];
            &&& yields(
                run(
                    chunk_postfix(tmp, size, switch_skip(insertion_off)),
                    0,
                    seq![Value::I32(p)],
                    after_malloc,
                    proc_exit,
                    26,
                ),
                Value::I32((p + 12) as i32),
                stored,
            )
            &&& untouched ==> finishes_with(
                execute(canary_check_block(0, checks_off, proc_exit), at_free, proc_exit),
                set_local(at_free, 0, Value::I32(p)),
            )
        }),
{
    let s = (n + 20) as i32;
    assert(p != 0 ==> (p as u32) >= 1) by (bit_vector);
    assert((s as u32) == (n as u32) + 20) by (bit_vector)
        requires
            s == (n + 20) as i32,
            (n as u32) + 20 <= 0xffff_ffff,
    ;
    malloc_postfix_plants_canaries(tmp, size, insertion_off, proc_exit, after_malloc, p, s);
    let stored = chunk_stored(after_malloc, tmp, p, s);
    assert(stored.memory[address(p, 0)] == Value::I32(s));
    assert(stored.memory[address(p, 4)] == Value::I64(0));
    assert(stored.memory[tail_canary(p, s)] == Value::I64(0));
    if at_free.memory[address(p, 0)] == stored.memory[address(p, 0)] && at_free.memory[address(p, 4)]
        == stored.memory[address(p, 4)] && at_free.memory[(p as u32) + (n as u32) + 12] == stored.memory[(p
        as u32) + (n as u32) + 12] {
        free_prefix_checks_canaries(checks_off, proc_exit, at_free, p, s, 0, 0);
    }
}

// ---------------------------------------------------------------- stack canaries

/// The state after the stack prefix moved the stack pointer (global `sp`) from `s0`
/// down by 16 bytes and stored `canary` at the new stack pointer.
pub open spec fn canary_pushed(m: Machine, sp: usize, s0: i32, canary: i64) -> Machine {
    let g = (s0 - 16) as i32;
    Machine {
        globals: m.globals.insert(sp, Value::I32(g)),
        memory: m.memory.insert(address(g, 0), Value::I64(canary)),
        ..m
    }
}

/// The stack prefix, run with the stack pointer (global `sp`) at `s0`, moves it down
/// by 16 bytes and stores the canary at the new stack pointer.
#[verifier::rlimit(100)]
#[verifier::spinoff_prover]
pub proof fn stack_prefix_pushes_canary(sp: usize, canary: i64, proc_exit: usize, m: Machine, s0: i32)
    requires
        m.globals[sp] == Value::I32(s0),
    ensures
        finishes_with(execute(stack_prefix(sp, canary), m, proc_exit), canary_pushed(m, sp, s0, canary)),
{
    let c = stack_prefix(sp, canary);
    assert(c.len() == 7);
    let g = (s0 - 16) as i32;
    let m1 = Machine { globals: m.globals.insert(sp, Value::I32(g)), ..m };
    assert(m1.globals[sp] == Value::I32(g));
    reveal_with_fuel(run, 8);
}

/// The stack postfix, run with the stack pointer (global `sp`) at `g` and the cell
/// there holding `c`, ends the program with status 22 exactly when `c` is not the
/// canary; otherwise it moves the stack pointer back up by 16 bytes.
#[verifier::rlimit(100)]
#[verifier::spinoff_prover]
pub proof fn stack_postfix_checks_canary(sp: usize, canary: i64, proc_exit: usize, m: Machine, g: i32, c: i64)
    requires
        m.globals[sp] == Value::I32(g),
        m.memory[address(g, 0)] == Value::I64(c),
    ensures
        if c != canary {
            execute(stack_postfix(sp, canary, proc_exit), m, proc_exit) == Outcome::Exit(22)
        } else {
            finishes_with(
                execute(stack_postfix(sp, canary, proc_exit), m, proc_exit),
                Machine { globals: m.globals.insert(sp, Value::I32((g + 16) as i32)), ..m },
            )
        },
{
    let code = stack_postfix(sp, canary, proc_exit);
    assert(code.len() == 14);
    reveal_with_fuel(skip_block, 5);
    assert(skip_block(code, 6, 0) == 10);
    reveal_with_fuel(run, 15);
}

/// The stack canary round trip: when the guarded body leaves the stack pointer
/// where the prefix put it and nothing overwrote the canary cell, the check at
/// exit passes and the stack pointer is back at `s0`; when the cell holds another
/// value, the program ends with status 22.
pub proof fn stack_canary_round_trip(
    sp: usize,
    canary: i64,
    proc_exit: usize,
    at_entry: Machine,
    at_exit: Machine,
    s0: i32,
    c: i64,
)
    requires
        at_entry.globals[sp] == Value::I32(s0),
        at_exit.globals[sp] == canary_pushed(at_entry, sp, s0, canary).globals[sp],
        at_exit.memory[address((s0 - 16) as i32, 0)] == Value::I64(c),
    ensures
        finishes_with(execute(stack_prefix(sp, canary), at_entry, proc_exit), canary_pushed(at_entry, sp, s0, canary)),
        canary_pushed(at_entry, sp, s0, canary).memory[address((s0 - 16) as i32, 0)] == Value::I64(canary),
        if c != canary {
            execute(stack_postfix(sp, canary, proc_exit), at_exit, proc_exit) == Outcome::Exit(22)
        } else {
            finishes_with(
                execute(stack_postfix(sp, canary, proc_exit), at_exit, proc_exit),
                Machine { globals: at_exit.globals.insert(sp, Value::I32(s0)), ..at_exit },
            )
        },
{
    stack_prefix_pushes_canary(sp, canary, proc_exit, at_entry, s0);
    let g = (s0 - 16) as i32;
    assert(at_exit.globals[sp] == Value::I32(g));
    assert(((g + 16) as i32) == s0) by (bit_vector)
        requires
            g == (s0 - 16) as i32,
    ;
    stack_postfix_checks_canary(sp, canary, proc_exit, at_exit, g, c);
}

// ---------------------------------------------------------------- what the passes emit at their sites
//
// These laws run what a pass emits after a site (`insertion`), with the operands
// the site reads, and say when the program ends and with which status, in terms
// of the operands alone.

/// The checks that `signed_integer_overflow` emits after `local.get x; local.get y;
/// <op>; local.set r` start by calling the helper of that same operator on the two
/// operands: `add32` for `i32.add`, `sub32` for `i32.sub`, `mul32` for `i32.mul`,
/// and the 64-bit ones likewise; the program ends with status 19 exactly when that
/// helper reports an overflow (returns non-zero).
#[verifier::rlimit(100)]
pub proof fn signed_site_calls_helper_of_its_operator(
    helpers: OverflowHelpers,
    proc_exit: usize,
    b: Seq<Instr>,
    i: int,
    k: nat,
    x: usize,
    y: usize,
    op: NumericOp,
    r: usize,
    m: Machine,
    v: Value,
    res: i32,
)
    requires
        binop_site(b, i) == Some((x, y, op, r)),
    ensures
        ({
            let ins = insertion(Rule { sanitizer: Sanitizer::SignedOverflow { helpers }, proc_exit }, b, i, k);
            let reports = |f: usize| f != proc_exit && (m.returns)(f, m.locals[x], m.locals[y]) == Value::I32(res);
            let exits = run(ins.take(10), 0, seq![v], m, proc_exit, 10) == Outcome::Exit(19);
            &&& op == NumericOp::I32Add && reports(helpers.add32) ==> (exits <==> res != 0)
            &&& op == NumericOp::I64Add && reports(helpers.add64) ==> (exits <==> res != 0)
            &&& op == NumericOp::I32Sub && reports(helpers.sub32) ==> (exits <==> res != 0)
            &&& op == NumericOp::I64Sub && reports(helpers.sub64) ==> (exits <==> res != 0)
            &&& op == NumericOp::I32Mul && reports(helpers.mul32) ==> (exits <==> res != 0)
            &&& op == NumericOp::I64Mul && reports(helpers.mul64) ==> (exits <==> res != 0)
        }),
{
    let rule = Rule { sanitizer: Sanitizer::SignedOverflow { helpers }, proc_exit };
    let ins = insertion(rule, b, i, k);
    let t = exit_trap(19, proc_exit);
    assert(rule_trap(rule) == t);
    let f = match op {
        NumericOp::I32Add => helpers.add32,
        NumericOp::I64Add => helpers.add64,
        NumericOp::I32Sub => helpers.sub32,
        NumericOp::I64Sub => helpers.sub64,
        NumericOp::I32Mul => helpers.mul32,
        _ => helpers.mul64,
    };
    if op == NumericOp::I32Add || op == NumericOp::I64Add || op == NumericOp::I32Sub || op == NumericOp::I64Sub
        || op == NumericOp::I32Mul || op == NumericOp::I64Mul {
        let cc = call_check(x, y, f, t);
        assert(cc.len() == 10);
        assert(ins.take(10) =~= cc);
        if f != proc_exit && (m.returns)(f, m.locals[x], m.locals[y]) == Value::I32(res) {
            call_check_exits_exactly_when_helper_reports(x, y, f, 19, proc_exit, m, v, res);
        }
    }
}

/// After `local.get x; local.get a; i32.shl` the shift pass emits a check that ends
/// the program with status 17 exactly when the shifted value (the first operand) is
/// negative or the amount (the second) lies outside `0..32`.
pub proof fn shift_site_exits_exactly_on_bad_shift(
    proc_exit: usize,
    b: Seq<Instr>,
    i: int,
    k: nat,
    x: usize,
    a: usize,
    m: Machine,
    value: i32,
    amount: i32,
)
    requires
        2 <= i < b.len(),
        b[i - 2] == Instr::Local(LocalOp::Get, x),
        b[i - 1] == Instr::Local(LocalOp::Get, a),
        b[i] == Instr::Numeric(NumericOp::I32Shl),
        m.locals[x] == Value::I32(value),
        m.locals[a] == Value::I32(amount),
    ensures
        execute(insertion(Rule { sanitizer: Sanitizer::Shift, proc_exit }, b, i, k), m, proc_exit) == Outcome::Exit(17)
            <==> (value < 0 || amount < 0 || amount >= 32),
{
    let rule = Rule { sanitizer: Sanitizer::Shift, proc_exit };
    assert(insertion(rule, b, i, k) == shift_check(x, a, false, exit_trap(17, proc_exit)));
    shift_check_exits_exactly_on_bad_operands(x, a, 17, proc_exit, m, value, amount);
}

/// After `local.get x; local.get a; i64.shl` the shift pass emits a check that ends
/// the program with status 17 exactly when the shifted value is negative or the
/// amount lies outside `0..64`.
pub proof fn wide_shift_site_exits_exactly_on_bad_shift(
    proc_exit: usize,
    b: Seq<Instr>,
    i: int,
    k: nat,
    x: usize,
    a: usize,
    m: Machine,
    value: i64,
    amount: i64,
)
    requires
        2 <= i < b.len(),
        b[i - 2] == Instr::Local(LocalOp::Get, x),
        b[i - 1] == Instr::Local(LocalOp::Get, a),
        b[i] == Instr::Numeric(NumericOp::I64Shl),
        m.locals[x] == Value::I64(value),
        m.locals[a] == Value::I64(amount),
    ensures
        execute(insertion(Rule { sanitizer: Sanitizer::Shift, proc_exit }, b, i, k), m, proc_exit) == Outcome::Exit(17)
            <==> (value < 0 || amount < 0 || amount >= 64),
{
    let rule = Rule { sanitizer: Sanitizer::Shift, proc_exit };
    assert(insertion(rule, b, i, k) == shift_check(x, a, true, exit_trap(17, proc_exit)));
    wide_shift_check_exits_exactly_on_bad_operands(x, a, 17, proc_exit, m, value, amount);
}

/// After a zero-extending load followed by `local.set x`, the sign change pass emits
/// a check that ends the program with status 16 exactly when the narrow value read
/// (8, 16 or 32 bits) has its top bit set.
pub proof fn zero_extending_load_site_exits_exactly_on_top_bit(
    proc_exit: usize,
    b: Seq<Instr>,
    i: int,
    k: nat,
    op: LoadOp,
    arg: Memarg,
    x: usize,
    m: Machine,
    v: int,
)
    requires
        1 <= i < b.len(),
        b[i - 1] == Instr::Load(op, arg),
        b[i] == Instr::Local(LocalOp::Put, x),
    ensures
        ({
            let exits = execute(insertion(Rule { sanitizer: Sanitizer::SignChange, proc_exit }, b, i, k), m, proc_exit)
                == Outcome::Exit(16);
            &&& op == LoadOp::I32Load8U && 0 <= v < 0x100 && m.locals[x] == Value::I32(v as i32) ==> (exits <==> v
                >= 0x80)
            &&& op == LoadOp::I32Load16U && 0 <= v < 0x1_0000 && m.locals[x] == Value::I32(v as i32) ==> (exits
                <==> v >= 0x8000)
            &&& op == LoadOp::I64Load8U && 0 <= v < 0x100 && m.locals[x] == Value::I64(v as i64) ==> (exits <==> v
                >= 0x80)
            &&& op == LoadOp::I64Load16U && 0 <= v < 0x1_0000 && m.locals[x] == Value::I64(v as i64) ==> (exits
                <==> v >= 0x8000)
            &&& op == LoadOp::I64Load32U && 0 <= v < 0x1_0000_0000 && m.locals[x] == Value::I64(v as i64) ==> (
            exits <==> v >= 0x8000_0000)
        }),
{
    let rule = Rule { sanitizer: Sanitizer::SignChange, proc_exit };
    let t = exit_trap(16, proc_exit);
    let ins = insertion(rule, b, i, k);
    if op == LoadOp::I32Load8U && 0 <= v < 0x100 && m.locals[x] == Value::I32(v as i32) {
        assert(ins == sign_check(x, 24, false, t));
        sign_check_exits_exactly_on_negative(x, 24, 16, proc_exit, m, v as i32);
        narrow_loads_negative_iff_top_bit_set(v as i32, 0);
    }
    if op == LoadOp::I32Load16U && 0 <= v < 0x1_0000 && m.locals[x] == Value::I32(v as i32) {
        assert(ins == sign_check(x, 16, false, t));
        sign_check_exits_exactly_on_negative(x, 16, 16, proc_exit, m, v as i32);
        narrow_loads_negative_iff_top_bit_set(v as i32, 0);
    }
    if op == LoadOp::I64Load8U && 0 <= v < 0x100 && m.locals[x] == Value::I64(v as i64) {
        assert(ins == sign_check(x, 56, true, t));
        wide_sign_check_exits_exactly_on_negative(x, 56, 16, proc_exit, m, v as i64);
        narrow_loads_negative_iff_top_bit_set(0, v as i64);
    }
    if op == LoadOp::I64Load16U && 0 <= v < 0x1_0000 && m.locals[x] == Value::I64(v as i64) {
        assert(ins == sign_check(x, 48, true, t));
        wide_sign_check_exits_exactly_on_negative(x, 48, 16, proc_exit, m, v as i64);
        narrow_loads_negative_iff_top_bit_set(0, v as i64);
    }
    if op == LoadOp::I64Load32U && 0 <= v < 0x1_0000_0000 && m.locals[x] == Value::I64(v as i64) {
        assert(ins == sign_check(x, 32, true, t));
        wide_sign_check_exits_exactly_on_negative(x, 32, 16, proc_exit, m, v as i64);
        narrow_loads_negative_iff_top_bit_set(0, v as i64);
    }
}

/// Once an `i32.trunc_f32_s` or `i32.trunc_f64_s` occurs at position 2 or later,
/// every later `end; i32.const -2147483648` (the saturated result of a float to int
/// conversion) is followed by what the float cast pass emits, which ends the
/// program with status 14.
pub proof fn saturated_conversion_exits(proc_exit: usize, b: Seq<Instr>, j: int, i: int, k: nat, m: Machine)
    requires
        2 <= j <= i < b.len(),
        b[j] == Instr::Numeric(NumericOp::I32TruncF32S) || b[j] == Instr::Numeric(NumericOp::I32TruncF64S),
        b[i - 1] == Instr::End,
        b[i] == Instr::Const(Val::I32(-2147483648i32)),
    ensures
        execute(insertion(Rule { sanitizer: Sanitizer::FloatCastOverflow, proc_exit }, b, i, k), m, proc_exit)
            == Outcome::Exit(14),
{
    let rule = Rule { sanitizer: Sanitizer::FloatCastOverflow, proc_exit };
    lemma_conversion_seen(b, j, i);
    assert(insertion(rule, b, i, k) =~= exit_trap(14, proc_exit));
    exit_trap_exits(14, proc_exit, m);
}

proof fn lemma_conversion_seen(b: Seq<Instr>, j: int, i: int)
    requires
        2 <= j <= i,
        b[j] == Instr::Numeric(NumericOp::I32TruncF32S) || b[j] == Instr::Numeric(NumericOp::I32TruncF64S),
    ensures
        trunc_seen(b, i),
    decreases i - j,
{
    if j < i {
        lemma_conversion_seen(b, j, i - 1);
    }
}

/// After `local.get x; local.get y; i32.add; local.set r`, the unsigned overflow pass
/// emits a check that, run on the wrapped sum, ends the program with status 18
/// exactly when the unsigned sum of the operands exceeds `u32::MAX`.
pub proof fn unsigned_i32_add_site_exits_exactly_on_overflow(
    proc_exit: usize,
    b: Seq<Instr>,
    i: int,
    k: nat,
    x: usize,
    y: usize,
    r: usize,
    m: Machine,
    p: i32,
    q: i32,
)
    requires
        binop_site(b, i) == Some((x, y, NumericOp::I32Add, r)),
        x != r,
        m.locals[x] == Value::I32(p),
        m.locals[y] == Value::I32(q),
    ensures
        run(
            insertion(Rule { sanitizer: Sanitizer::UnsignedOverflow, proc_exit }, b, i, k),
            0,
            seq![Value::I32((p + q) as i32)],
            m,
            proc_exit,
            11,
        ) == Outcome::Exit(18) <==> (p as u32) + (q as u32) > u32::MAX,
{
    let rule = Rule { sanitizer: Sanitizer::UnsignedOverflow, proc_exit };
    assert(insertion(rule, b, i, k) == unsigned_add_check(x, r, false, exit_trap(18, proc_exit)));
    unsigned_add_check_exits_exactly_on_wrap(x, r, 18, proc_exit, m, p, (p + q) as i32);
    unsigned_sum_wraps_iff_below_operand(p, q);
}

/// After `local.get x; local.get y; i64.add; local.set r`, the unsigned overflow pass
/// emits a check that, run on the wrapped sum, ends the program with status 18
/// exactly when the unsigned sum of the operands exceeds `u64::MAX`.
pub proof fn unsigned_i64_add_site_exits_exactly_on_overflow(
    proc_exit: usize,
    b: Seq<Instr>,
    i: int,
    k: nat,
    x: usize,
    y: usize,
    r: usize,
    m: Machine,
    p: i64,
    q: i64,
)
    requires
        binop_site(b, i) == Some((x, y, NumericOp::I64Add, r)),
        x != r,
        m.locals[x] == Value::I64(p),
        m.locals[y] == Value::I64(q),
    ensures
        run(
            insertion(Rule { sanitizer: Sanitizer::UnsignedOverflow, proc_exit }, b, i, k),
            0,
            seq![Value::I64((p + q) as i64)],
            m,
            proc_exit,
            11,
        ) == Outcome::Exit(18) <==> (p as u64) + (q as u64) > u64::MAX,
{
    let rule = Rule { sanitizer: Sanitizer::UnsignedOverflow, proc_exit };
    assert(insertion(rule, b, i, k) == unsigned_add_check(x, r, true, exit_trap(18, proc_exit)));
    wide_unsigned_add_check_exits_exactly_on_wrap(x, y, r, 18, proc_exit, m, p, q);
}

/// After `local.get x; local.get y; i64.sub; local.set r`, the unsigned overflow pass
/// emits a check that ends the program with status 18 exactly when the unsigned
/// difference wraps, that is when `y` exceeds `x` (unsigned).
pub proof fn unsigned_i64_sub_site_exits_exactly_on_wrap(
    proc_exit: usize,
    b: Seq<Instr>,
    i: int,
    k: nat,
    x: usize,
    y: usize,
    r: usize,
    m: Machine,
    p: i64,
    q: i64,
)
    requires
        binop_site(b, i) == Some((x, y, NumericOp::I64Sub, r)),
        m.locals[x] == Value::I64(p),
        m.locals[y] == Value::I64(q),
    ensures
        execute(insertion(Rule { sanitizer: Sanitizer::UnsignedOverflow, proc_exit }, b, i, k), m, proc_exit)
            == Outcome::Exit(18) <==> (p as u64) < (q as u64),
{
    let rule = Rule { sanitizer: Sanitizer::UnsignedOverflow, proc_exit };
    assert(insertion(rule, b, i, k) == unsigned_sub_check(x, y, exit_trap(18, proc_exit)));
    unsigned_sub_check_exits_exactly_on_wrap(x, y, 18, proc_exit, m, p, q);
}

/// After `local.get x; local.get y; i32.mul; local.set r`, the unsigned overflow pass
/// emits a check that, run on the wrapped product, ends the program with status 18
/// exactly when the unsigned product of the operands exceeds `u32::MAX`.
pub proof fn unsigned_i32_mul_site_exits_exactly_on_overflow(
    proc_exit: usize,
    b: Seq<Instr>,
    i: int,
    k: nat,
    x: usize,
    y: usize,
    r: usize,
    m: Machine,
    p: i32,
    q: i32,
)
    requires
        binop_site(b, i) == Some((x, y, NumericOp::I32Mul, r)),
        x != r,
        y != r,
        m.locals[x] == Value::I32(p),
        m.locals[y] == Value::I32(q),
    ensures
        run(
            insertion(Rule { sanitizer: Sanitizer::UnsignedOverflow, proc_exit }, b, i, k),
            0,
            seq![Value::I32((p * q) as i32)],
            m,
            proc_exit,
            16,
        ) == Outcome::Exit(18) <==> (p as u32) * (q as u32) > u32::MAX,
{
    let rule = Rule { sanitizer: Sanitizer::UnsignedOverflow, proc_exit };
    assert(insertion(rule, b, i, k) == unsigned_mul_check(x, y, r, exit_trap(18, proc_exit)));
    unsigned_mul_check_exits_exactly_on_loss(x, y, r, 18, proc_exit, m, p, q, (p * q) as i32);
    unsigned_product_check_fails_iff_overflow(p, q);
}

/// After a store `local.get a; local.get v; <store>`, the null reference pass emits a
/// check that ends the program with status 11 exactly when the address in `a` is 0.
pub proof fn null_site_exits_exactly_on_null_address(
    proc_exit: usize,
    b: Seq<Instr>,
    i: int,
    k: nat,
    a: usize,
    v: usize,
    op: StoreOp,
    arg: Memarg,
    m: Machine,
    addr: i32,
)
    requires
        2 <= i < b.len(),
        b[i - 2] == Instr::Local(LocalOp::Get, a),
        b[i - 1] == Instr::Local(LocalOp::Get, v),
        b[i] == Instr::Store(op, arg),
        m.locals[a] == Value::I32(addr),
    ensures
        execute(insertion(Rule { sanitizer: Sanitizer::NullReference, proc_exit }, b, i, k), m, proc_exit)
            == Outcome::Exit(11) <==> addr == 0,
{
    let rule = Rule { sanitizer: Sanitizer::NullReference, proc_exit };
    assert(insertion(rule, b, i, k) == null_check(a, k as usize, exit_trap(11, proc_exit)));
    null_check_exits_exactly_on_null(a, k as usize, 11, proc_exit, m, addr);
}

/// After `local.get w; i32.wrap_i64; local.set n` (the wrap at position 2 or later),
/// the truncation passes emit a check that, run once `n` holds the wrapped value of
/// `w`, ends the program with status 12 (signed) exactly when that value does not
/// fit in an `i32`, and with status 13 (unsigned) exactly when it does not fit in a
/// `u32`.
pub proof fn truncation_site_exits_exactly_on_lost_bits(
    proc_exit: usize,
    b: Seq<Instr>,
    i: int,
    k: nat,
    w: usize,
    n: usize,
    m: Machine,
    v: i64,
)
    requires
        3 <= i < b.len(),
        b[i - 2] == Instr::Local(LocalOp::Get, w),
        b[i - 1] == Instr::Numeric(NumericOp::I32WrapI64),
        b[i] == Instr::Local(LocalOp::Put, n),
        k + 1 <= usize::MAX,
        w != k,
        w != k + 1,
        m.locals[w] == Value::I64(v),
        m.locals[n] == Value::I32(v as i32),
    ensures
        execute(insertion(Rule { sanitizer: Sanitizer::Truncation { signed: true }, proc_exit }, b, i, k), m, proc_exit)
            == Outcome::Exit(12) <==> !(i32::MIN <= v <= i32::MAX),
        execute(insertion(Rule { sanitizer: Sanitizer::Truncation { signed: false }, proc_exit }, b, i, k), m, proc_exit)
            == Outcome::Exit(13) <==> !(0 <= v <= u32::MAX),
{
    let rs = Rule { sanitizer: Sanitizer::Truncation { signed: true }, proc_exit };
    let ru = Rule { sanitizer: Sanitizer::Truncation { signed: false }, proc_exit };
    assert(insertion(rs, b, i, k) == truncation_check(w, n, k as usize, true, exit_trap(12, proc_exit)));
    assert(insertion(ru, b, i, k) == truncation_check(w, n, k as usize, false, exit_trap(13, proc_exit)));
    truncation_check_exits_exactly_on_loss(w, n, k as usize, true, 12, proc_exit, m, v, v as i32);
    truncation_check_exits_exactly_on_loss(w, n, k as usize, false, 13, proc_exit, m, v, v as i32);
    signed_wrap_is_lossless_iff_in_range(v);
    unsigned_wrap_is_lossless_iff_in_range(v);
}

// ---------------------------------------------------------------- entry guards of the sign change pass

proof fn lemma_guard_keeps_others(fs: Seq<FunctionView>, name: Seq<char>, check: Seq<Instr>)
    ensures
        guard_first_named(fs, name, check).len() == fs.len(),
        same_names(fs, guard_first_named(fs, name, check)),
        forall|j: int| 0 <= j < fs.len() && fs[j].name != Some(name) ==> #[trigger] guard_first_named(fs, name, check)[j] == fs[j],
        first_named(fs, name) matches Some(g) ==> guard_first_named(fs, name, check)[g] == with_prefix(fs[g], check),
{
    lemma_first_named_bounds(fs, name);
    let gs = guard_first_named(fs, name, check);
    assert forall|j: int| 0 <= j < fs.len() implies #[trigger] fs[j].name == gs[j].name by {}
}

proof fn lemma_guard_names_differ()
    ensures
        "dlmalloc"@ != "__memcpy"@,
        "dlmalloc"@ != "memmove"@,
        "dlmalloc"@ != "strncpy"@,
        "__memcpy"@ != "memmove"@,
        "__memcpy"@ != "strncpy"@,
        "memmove"@ != "strncpy"@,
{
    reveal_strlit("dlmalloc");
    reveal_strlit("__memcpy");
    reveal_strlit("memmove");
    reveal_strlit("strncpy");
    assert("dlmalloc"@[0] != "__memcpy"@[0]);
    assert("dlmalloc"@[0] != "memmove"@[0]);
    assert("dlmalloc"@[0] != "strncpy"@[0]);
    assert("__memcpy"@[0] != "memmove"@[0]);
    assert("__memcpy"@[0] != "strncpy"@[0]);
    assert("memmove"@[0] != "strncpy"@[0]);
}

/// Where each of the four guards of the sign change pass lands: the function that
/// `implicit_integer_sign_change` guards under each name is the first one so named.
proof fn lemma_sign_change_guards(fs: Seq<FunctionView>)
    ensures
        ({
            let t = exit_trap(16, proc_exit_index(fs) as usize);
            let a = sanitized(Sanitizer::SignChange, outside_runtime(), fs);
            let r = sign_change_result(fs);
            &&& r.len() == a.len()
            &&& first_named(a, "dlmalloc"@) matches Some(d) ==> r[d] == with_prefix(a[d], positive_param_check(0, t))
            &&& first_named(a, "__memcpy"@) matches Some(d) ==> r[d] == with_prefix(a[d], non_negative_param_check(2, t))
            &&& first_named(a, "memmove"@) matches Some(d) ==> r[d] == with_prefix(a[d], non_negative_param_check(2, t))
            &&& first_named(a, "strncpy"@) matches Some(d) ==> r[d] == with_prefix(a[d], non_negative_param_check(2, t))
        }),
{
    let t = exit_trap(16, proc_exit_index(fs) as usize);
    let a = sanitized(Sanitizer::SignChange, outside_runtime(), fs);
    let p0 = positive_param_check(0, t);
    let p2 = non_negative_param_check(2, t);
    let b1 = guard_first_named(a, "dlmalloc"@, p0);
    let c1 = guard_first_named(b1, "__memcpy"@, p2);
    let d1 = guard_first_named(c1, "memmove"@, p2);
    let e1 = guard_first_named(d1, "strncpy"@, p2);
    lemma_guard_names_differ();
    lemma_guard_keeps_others(a, "dlmalloc"@, p0);
    lemma_guard_keeps_others(b1, "__memcpy"@, p2);
    lemma_guard_keeps_others(c1, "memmove"@, p2);
    lemma_guard_keeps_others(d1, "strncpy"@, p2);
    lemma_first_named_same_names(a, b1, "__memcpy"@);
    lemma_first_named_same_names(a, b1, "memmove"@);
    lemma_first_named_same_names(b1, c1, "memmove"@);
    lemma_first_named_same_names(a, b1, "strncpy"@);
    lemma_first_named_same_names(b1, c1, "strncpy"@);
    lemma_first_named_same_names(c1, d1, "strncpy"@);
    lemma_first_named_bounds(a, "dlmalloc"@);
    lemma_first_named_bounds(a, "__memcpy"@);
    lemma_first_named_bounds(a, "memmove"@);
    lemma_first_named_bounds(a, "strncpy"@);
    assert(e1 == sign_change_result(fs));
    if first_named(a, "dlmalloc"@) is Some {
        let d = first_named(a, "dlmalloc"@)->0;
        assert(b1[d].name == a[d].name);
        assert(c1[d] == b1[d]);
        assert(d1[d] == c1[d]);
        assert(e1[d] == d1[d]);
    }
    if first_named(a, "__memcpy"@) is Some {
        let d = first_named(a, "__memcpy"@)->0;
        assert(b1[d] == a[d]);
        assert(d1[d] == c1[d]);
        assert(e1[d] == d1[d]);
    }
    if first_named(a, "memmove"@) is Some {
        let d = first_named(a, "memmove"@)->0;
        assert(b1[d] == a[d]);
        assert(c1[d] == b1[d]);
        assert(e1[d] == d1[d]);
    }
    if first_named(a, "strncpy"@) is Some {
        let d = first_named(a, "strncpy"@)->0;
        assert(b1[d] == a[d]);
        assert(c1[d] == b1[d]);
        assert(d1[d] == c1[d]);
    }
}

/// After `implicit_integer_sign_change`, the body of `dlmalloc` starts with a guard
/// that ends the program with status 16 exactly when the size parameter (local 0)
/// is not positive, followed by the body as the sign checks left it; the bodies of
/// `__memcpy`, `memmove` and `strncpy` start with a guard that does so exactly when
/// the length parameter (local 2) is negative.
pub proof fn sign_change_guards_exit_exactly_on_bad_sizes(fs: Seq<FunctionView>, name: Seq<char>, m: Machine, x: i32)
    requires
        name == "dlmalloc"@ || name == "__memcpy"@ || name == "memmove"@ || name == "strncpy"@,
    ensures
        ({
            let pe = proc_exit_index(fs) as usize;
            let a = sanitized(Sanitizer::SignChange, outside_runtime(), fs);
            let r = sign_change_result(fs);
            let p: usize = if name == "dlmalloc"@ { 0 } else { 2 };
            let d = first_named(a, name)->0;
            let body = r[d].code->0.body;
            first_named(a, name) is Some && a[d].code is Some && m.locals[p] == Value::I32(x) ==> {
                &&& r[d].code is Some
                &&& body.skip(9) == a[d].code->0.body
                &&& (execute(body.take(9), m, pe) == Outcome::Exit(16) <==> if name == "dlmalloc"@ {
                    x <= 0
                } else {
                    x < 0
                })
            }
        }),
{
    let pe = proc_exit_index(fs) as usize;
    let t = exit_trap(16, pe);
    let a = sanitized(Sanitizer::SignChange, outside_runtime(), fs);
    let r = sign_change_result(fs);
    lemma_sign_change_guards(fs);
    let p: usize = if name == "dlmalloc"@ { 0 } else { 2 };
    if first_named(a, name) is Some && a[first_named(a, name)->0].code is Some && m.locals[p] == Value::I32(x) {
        let d = first_named(a, name)->0;
        let c = if name == "dlmalloc"@ { positive_param_check(0, t) } else { non_negative_param_check(2, t) };
        assert(r[d] == with_prefix(a[d], c));
        let body = r[d].code->0.body;
        assert(c.len() == 9);
        assert(body.take(9) =~= c);
        assert(body.skip(9) =~= a[d].code->0.body);
        param_checks_exit_exactly_on_bad_argument(p, 16, pe, m, x);
    }
}

// ---------------------------------------------------------------- narrow signed checks at their sites

/// At the sign-extension idiom of a narrow multiplication (`i32.const w; local.set;
/// local.get; local.get; i32.shl; local.set; local.get; local.get; i32.shr_s;
/// local.set; local.get; local.get; i32.mul; local.set`, with `w` 24 for `char`
/// and 16 for `short`), what `signed_integer_overflow` emits after the helper call
/// ends the program with status 19 exactly when the product lies outside
/// `0..=255` (`0..=65535` for `short`).
pub proof fn narrow_mul_site_exits_exactly_out_of_range(
    helpers: OverflowHelpers,
    proc_exit: usize,
    b: Seq<Instr>,
    i: int,
    k: nat,
    w: i32,
    l: Seq<usize>,
    m: Machine,
    r: i32,
)
    requires
        w == 24 || w == 16,
        12 <= i,
        i + 1 < b.len(),
        l.len() == 11,
        k + 3 <= usize::MAX,
        b[i - 12] == Instr::Const(Val::I32(w)),
        b[i - 11] == Instr::Local(LocalOp::Put, l[0]),
        b[i - 10] == Instr::Local(LocalOp::Get, l[1]),
        b[i - 9] == Instr::Local(LocalOp::Get, l[2]),
        b[i - 8] == Instr::Numeric(NumericOp::I32Shl),
        b[i - 7] == Instr::Local(LocalOp::Put, l[3]),
        b[i - 6] == Instr::Local(LocalOp::Get, l[4]),
        b[i - 5] == Instr::Local(LocalOp::Get, l[5]),
        b[i - 4] == Instr::Numeric(NumericOp::I32ShrS),
        b[i - 3] == Instr::Local(LocalOp::Put, l[6]),
        b[i - 2] == Instr::Local(LocalOp::Get, l[7]),
        b[i - 1] == Instr::Local(LocalOp::Get, l[8]),
        b[i] == Instr::Numeric(NumericOp::I32Mul),
        b[i + 1] == Instr::Local(LocalOp::Put, l[9]),
    ensures
        ({
            let ins = insertion(Rule { sanitizer: Sanitizer::SignedOverflow { helpers }, proc_exit }, b, i, k);
            let max: int = if w == 24 { 255 } else { 65535 };
            &&& ins.len() == 27
            &&& (run(ins.skip(10), 0, seq![Value::I32(r)], m, proc_exit, 17) == Outcome::Exit(19) <==> (r < 0 || r
                > max))
        }),
{
    let rule = Rule { sanitizer: Sanitizer::SignedOverflow { helpers }, proc_exit };
    let t = exit_trap(19, proc_exit);
    let max: i32 = if w == 24 { 255 } else { 65535 };
    let ins = insertion(rule, b, i, k);
    let cc = call_check(l[7], l[8], helpers.mul32, t);
    let nm = narrow_mul_check(max, k as usize, t);
    assert(cc.len() == 10);
    assert(nm.len() == 17);
    assert(ins =~= cc + nm);
    assert(ins.skip(10) =~= nm);
    narrow_mul_check_exits_exactly_out_of_range(max, k as usize, 19, proc_exit, m, r);
}

/// At `i32.add; local.set; local.get; local.get; i32.store8` (`i32.store16` for
/// `short`), 12 or more instructions into the body, what `signed_integer_overflow`
/// emits ends with a check that ends the program with status 19 exactly when the
/// sum is below -128 (-32768): the upper bound it also compares against can never
/// be exceeded once the sum's top bits are filled by its sign.
pub proof fn narrow_add_site_exits_exactly_below_min(
    helpers: OverflowHelpers,
    proc_exit: usize,
    b: Seq<Instr>,
    i: int,
    k: nat,
    short: bool,
    l: Seq<usize>,
    arg: Memarg,
    m: Machine,
    r: i32,
)
    requires
        12 <= i,
        i + 4 < b.len(),
        l.len() == 3,
        k + 5 <= usize::MAX,
        b[i] == Instr::Numeric(NumericOp::I32Add),
        b[i + 1] == Instr::Local(LocalOp::Put, l[0]),
        b[i + 2] == Instr::Local(LocalOp::Get, l[1]),
        b[i + 3] == Instr::Local(LocalOp::Get, l[2]),
        b[i + 4] == Instr::Store(if short { StoreOp::I32Store16 } else { StoreOp::I32Store8 }, arg),
    ensures
        ({
            let ins = insertion(Rule { sanitizer: Sanitizer::SignedOverflow { helpers }, proc_exit }, b, i, k);
            let min: int = if short { -32768 } else { -128 };
            &&& ins.len() >= 21
            &&& (run(ins.skip(ins.len() - 21), 0, seq![Value::I32(r)], m, proc_exit, 21) == Outcome::Exit(19)
                <==> r < min)
        }),
{
    let rule = Rule { sanitizer: Sanitizer::SignedOverflow { helpers }, proc_exit };
    let t = exit_trap(19, proc_exit);
    let ins = insertion(rule, b, i, k);
    let first = signed_call_check(b, i, helpers, t);
    let na = narrow_add_for(short, k as usize, t);
    assert(narrow_mul_site(b, i) is None);
    assert(ins =~= first + na);
    assert(na.len() == 21);
    assert(ins.skip(ins.len() - 21) =~= na);
    narrow_add_check_exits_exactly_out_of_range(short, k as usize, 19, proc_exit, m, r);
    sign_filled_sum_within_narrow_max(r);
}

// ---------------------------------------------------------------- floating-point checks at their sites
//
// The evaluator has no floating point, so these laws pin the emitted comparison
// to the operands the site reads.

/// After `local.get n; local.get d; f32.div`, the float division pass emits, right
/// after the second operand, a comparison of `0.0` with the divisor `d` (not the
/// dividend), and ends the program with status 20 when they are equal.
pub proof fn division_site_checks_the_divisor(
    proc_exit: usize,
    b: Seq<Instr>,
    i: int,
    k: nat,
    n: usize,
    d: usize,
)
    requires
        1 <= i,
        i + 1 < b.len(),
        b[i - 1] == Instr::Local(LocalOp::Get, n),
        b[i] == Instr::Local(LocalOp::Get, d),
        b[i + 1] == Instr::Numeric(NumericOp::F32Div),
    ensures
        insertion(Rule { sanitizer: Sanitizer::FloatDivideByZero, proc_exit }, b, i, k) == seq![
            Instr::Const(Val::F32(0)),
            lget(d),
            num(NumericOp::F32Ne),
            lput(k as usize),
            Instr::Block(crate::ir::BlockType(None)),
            lget(k as usize),
            Instr::BrIf(0),
        ] + exit_trap(20, proc_exit) + seq![Instr::End],
{
}

/// After `local.get w; f32.demote_f64; local.set n`, the float cast pass emits a
/// comparison of the stored `n`, promoted back, with the original `w`, and ends the
/// program with status 14 when they differ.
pub proof fn demotion_site_compares_with_the_original(
    proc_exit: usize,
    b: Seq<Instr>,
    i: int,
    k: nat,
    w: usize,
    n: usize,
)
    requires
        2 <= i < b.len(),
        b[i - 2] == Instr::Local(LocalOp::Get, w),
        b[i - 1] == Instr::Numeric(NumericOp::F32DemoteF64),
        b[i] == Instr::Local(LocalOp::Put, n),
    ensures
        insertion(Rule { sanitizer: Sanitizer::FloatCastOverflow, proc_exit }, b, i, k) == seq![
            lget(n),
            num(NumericOp::F64PromoteF32),
            lget(w),
            num(NumericOp::F64Eq),
            lput(k as usize),
            Instr::Block(crate::ir::BlockType(None)),
            lget(k as usize),
            Instr::BrIf(0),
        ] + exit_trap(14, proc_exit) + seq![Instr::End],
{
    let rule = Rule { sanitizer: Sanitizer::FloatCastOverflow, proc_exit };
    assert(!crate::rules::saturation_site(b, i));
    assert(insertion(rule, b, i, k) =~= seq![
        lget(n),
        num(NumericOp::F64PromoteF32),
        lget(w),
        num(NumericOp::F64Eq),
        lput(k as usize),
        Instr::Block(crate::ir::BlockType(None)),
        lget(k as usize),
        Instr::BrIf(0),
    ] + exit_trap(14, proc_exit) + seq![Instr::End]);
}

// ---------------------------------------------------------------- functions the passes leave alone

/// Which functions each pass leaves exactly as they were, by name and type:
/// unnamed functions, names starting with `__` and the overflow helpers for the
/// null reference, truncation, float cast, shift and float division passes; start-up
/// and runtime functions too for the unsigned overflow pass; names starting with
/// `std::` too for the signed overflow pass; and functions returning nothing for
/// the missing-return pass. Every function keeps its index.
pub proof fn passes_leave_unselected_functions_alone(fs: Seq<FunctionView>, j: int, helpers: OverflowHelpers, pe: usize)
    requires
        0 <= j < fs.len(),
    ensures
        ({
            let f = fs[j];
            let reserved = match f.name {
                None => true,
                Some(n) => starts_with(n, "__"@) || is_overflow_helper_name(n),
            };
            let runtime = f.name matches Some(n) && is_ini_func_name(n);
            let std_lib = f.name matches Some(n) && starts_with(n, "std::"@);
            &&& reserved ==> sanitized(Sanitizer::NullReference, unreserved(), fs)[j] == f
            &&& reserved ==> sanitized(Sanitizer::Truncation { signed: true }, unreserved(), fs)[j] == f
            &&& reserved ==> sanitized(Sanitizer::Truncation { signed: false }, unreserved(), fs)[j] == f
            &&& reserved ==> sanitized(Sanitizer::FloatCastOverflow, unreserved(), fs)[j] == f
            &&& reserved ==> sanitized(Sanitizer::Shift, unreserved(), fs)[j] == f
            &&& reserved ==> sanitized(Sanitizer::FloatDivideByZero, unreserved(), fs)[j] == f
            &&& reserved || runtime ==> sanitized(Sanitizer::UnsignedOverflow, unreserved_outside_runtime(), fs)[j]
                == f
            &&& reserved || runtime || std_lib ==> passed(
                Rule { sanitizer: Sanitizer::SignedOverflow { helpers }, proc_exit: pe },
                user_code(),
                fs,
            )[j] == f
            &&& f.results.len() == 0 ==> sanitized(Sanitizer::NonReturn, value_returning(), fs)[j] == f
        }),
{
    lemma_with_proc_exit(fs);
}

/// And which functions each pass rewrites: every named function with code outside
/// the `__` namespace that is not an overflow helper (for the unsigned overflow pass,
/// not a start-up or runtime function either) gets its body rewritten, with checks
/// calling the module's `proc_exit`; and every function with code that returns a
/// value, for the missing-return pass.
pub proof fn passes_rewrite_selected_functions(fs: Seq<FunctionView>, j: int, san: Sanitizer)
    requires
        0 <= j < fs.len(),
        fs[j].code is Some,
    ensures
        ({
            let f = fs[j];
            let c = f.code->0;
            let plain = f.name matches Some(n) && !starts_with(n, "__"@) && !is_overflow_helper_name(n);
            let runtime = f.name matches Some(n) && is_ini_func_name(n);
            let rewritten = |s: Selection| sanitized(san, s, fs)[j].code == Some(
                rewrite_code(rule_for(san, fs), c, f.params.len()),
            );
            &&& plain ==> rewritten(unreserved())
            &&& plain && !runtime ==> rewritten(unreserved_outside_runtime())
            &&& f.results.len() > 0 ==> rewritten(value_returning())
        }),
{
    lemma_with_proc_exit(fs);
}

} // verus!
