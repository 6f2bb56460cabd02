//! The sanitizer passes over a whole module.
//!
//! Each pass rewrites the body of every function it selects by one sanitizer (see
//! `rules` and `rewrite`); a few passes also guard the entry of some runtime
//! functions. Functions without code are never changed. Every pass first makes
//! sure the module imports WASI `proc_exit`, which its failed checks call with the
//! sanitizer's exit status.

use vstd::prelude::*;
use crate::ir::{
    first_named, with_prefix, BlockType, FunctionView, Instr, LocalOp, Module, NumericOp, Val,
    find_func_by_name,
};
use crate::emit::exit_trap_exec;
use crate::linking::{add_proc_exit, lemma_with_proc_exit, proc_exit_index, with_proc_exit};
use crate::rewrite::{instrument_functions, pass_function, ready, rewrite_without_sites_is_identity, rewritten, Selection};
use crate::rules::{block, c32, exit_trap, insertion, lget, num, Rule, Sanitizer};

verus! {

/// Named functions outside the reserved `__` namespace.
pub open spec fn unreserved() -> Selection {
    Selection { named: true, skip_reserved: true, skip_std: false, skip_runtime: false, returning: false }
}

/// Named functions that are not start-up or runtime functions.
pub open spec fn outside_runtime() -> Selection {
    Selection { named: true, skip_reserved: false, skip_std: false, skip_runtime: true, returning: false }
}

/// Named functions, neither runtime functions nor in the reserved `__` namespace.
pub open spec fn unreserved_outside_runtime() -> Selection {
    Selection { named: true, skip_reserved: true, skip_std: false, skip_runtime: true, returning: false }
}

/// As `unreserved_outside_runtime`, and not in the `std::` namespace either.
pub open spec fn user_code() -> Selection {
    Selection { named: true, skip_reserved: true, skip_std: true, skip_runtime: true, returning: false }
}

/// Functions that return a value.
pub open spec fn value_returning() -> Selection {
    Selection { named: false, skip_reserved: false, skip_std: false, skip_runtime: false, returning: true }
}

pub fn unreserved_selection() -> (s: Selection)
    ensures
        s == unreserved(),
{
    Selection { named: true, skip_reserved: true, skip_std: false, skip_runtime: false, returning: false }
}

pub fn outside_runtime_selection() -> (s: Selection)
    ensures
        s == outside_runtime(),
{
    Selection { named: true, skip_reserved: false, skip_std: false, skip_runtime: true, returning: false }
}

pub fn unreserved_outside_runtime_selection() -> (s: Selection)
    ensures
        s == unreserved_outside_runtime(),
{
    Selection { named: true, skip_reserved: true, skip_std: false, skip_runtime: true, returning: false }
}

pub fn user_code_selection() -> (s: Selection)
    ensures
        s == user_code(),
{
    Selection { named: true, skip_reserved: true, skip_std: true, skip_runtime: true, returning: false }
}

pub fn value_returning_selection() -> (s: Selection)
    ensures
        s == value_returning(),
{
    Selection { named: false, skip_reserved: false, skip_std: false, skip_runtime: false, returning: true }
}

/// Every function that `s` selects can be rewritten by sanitizer `san`.
pub open spec fn module_ready(san: Sanitizer, s: Selection, m: Seq<FunctionView>) -> bool {
    forall|j: int| 0 <= j < m.len() ==> ready(san, s, #[trigger] m[j])
}

/// The functions after `rule` has been applied to those that `s` selects.
pub open spec fn passed(rule: Rule, s: Selection, m: Seq<FunctionView>) -> Seq<FunctionView> {
    m.map_values(|f: FunctionView| pass_function(rule, s, f))
}

/// The rule of sanitizer `san` whose checks call the `proc_exit` of `fs`.
pub open spec fn rule_for(san: Sanitizer, fs: Seq<FunctionView>) -> Rule {
    Rule { sanitizer: san, proc_exit: proc_exit_index(fs) as usize }
}

/// The functions after a pass of `san` over those that `s` selects: the `proc_exit`
/// import is added where missing, and the selected functions are rewritten.
pub open spec fn sanitized(san: Sanitizer, s: Selection, fs: Seq<FunctionView>) -> Seq<FunctionView> {
    passed(rule_for(san, fs), s, with_proc_exit(fs))
}

/// Adding the `proc_exit` import keeps a module ready: the import has no code.
proof fn lemma_ready_with_proc_exit(san: Sanitizer, s: Selection, fs: Seq<FunctionView>)
    requires
        module_ready(san, s, fs),
    ensures
        module_ready(san, s, with_proc_exit(fs)),
{
    lemma_with_proc_exit(fs);
    assert forall|j: int| 0 <= j < with_proc_exit(fs).len() implies ready(san, s, #[trigger] with_proc_exit(fs)[j]) by {
        if j < fs.len() {
            assert(ready(san, s, fs[j]));
        }
    }
}

fn run_pass(module: &mut Module, san: Sanitizer, s: Selection)
    requires
        module_ready(san, s, old(module)@.functions),
    ensures
        final(module)@.functions == sanitized(san, s, old(module)@.functions),
        final(module)@.globals == old(module)@.globals,
{
    proof {
        lemma_ready_with_proc_exit(san, s, old(module)@.functions);
    }
    let pe = add_proc_exit(module);
    instrument_functions(module, Rule { sanitizer: san, proc_exit: pe }, s);
}

/// Checks that the address of a store `local.get a; local.get v; <store>` is not
/// zero; a null store exits with status 11.
pub fn null_reference(module: &mut Module)
    requires
        module_ready(Sanitizer::NullReference, unreserved(), old(module)@.functions),
    ensures
        final(module)@.functions == sanitized(Sanitizer::NullReference, unreserved(), old(module)@.functions),
        final(module)@.globals == old(module)@.globals,
{
    run_pass(module, Sanitizer::NullReference, unreserved_selection());
}

/// Checks that `local.get w; i32.wrap_i64; local.set n` loses nothing when `n` is
/// read back as a signed value; a loss exits with status 12.
pub fn implicit_signed_integer_truncation(module: &mut Module)
    requires
        module_ready(Sanitizer::Truncation { signed: true }, unreserved(), old(module)@.functions),
    ensures
        final(module)@.functions == sanitized(
            Sanitizer::Truncation { signed: true },
            unreserved(),
            old(module)@.functions,
        ),
        final(module)@.globals == old(module)@.globals,
{
    run_pass(module, Sanitizer::Truncation { signed: true }, unreserved_selection());
}

/// Checks that `local.get w; i32.wrap_i64; local.set n` loses nothing when `n` is
/// read back as an unsigned value; a loss exits with status 13.
pub fn implicit_unsigned_integer_truncation(module: &mut Module)
    requires
        module_ready(Sanitizer::Truncation { signed: false }, unreserved(), old(module)@.functions),
    ensures
        final(module)@.functions == sanitized(
            Sanitizer::Truncation { signed: false },
            unreserved(),
            old(module)@.functions,
        ),
        final(module)@.globals == old(module)@.globals,
{
    run_pass(module, Sanitizer::Truncation { signed: false }, unreserved_selection());
}

/// Checks `f32.demote_f64` for loss, and exits where the saturated result of a float
/// to int conversion is used; both with status 14.
pub fn float_cast_overflow(module: &mut Module)
    requires
        module_ready(Sanitizer::FloatCastOverflow, unreserved(), old(module)@.functions),
    ensures
        final(module)@.functions == sanitized(Sanitizer::FloatCastOverflow, unreserved(), old(module)@.functions),
        final(module)@.globals == old(module)@.globals,
{
    run_pass(module, Sanitizer::FloatCastOverflow, unreserved_selection());
}

/// Exits with status 15 when a value-returning function reaches the closing `end`
/// of its body without a `return`.
pub fn non_return(module: &mut Module)
    requires
        module_ready(Sanitizer::NonReturn, value_returning(), old(module)@.functions),
    ensures
        final(module)@.functions == sanitized(Sanitizer::NonReturn, value_returning(), old(module)@.functions),
        final(module)@.globals == old(module)@.globals,
{
    run_pass(module, Sanitizer::NonReturn, value_returning_selection());
}

/// A body whose closing `end` follows an instruction other than `return` or
/// `unreachable` gets the rule's exit just before that `end`, and nothing else changes.
pub proof fn non_return_traps_before_end(proc_exit: usize, b: Seq<Instr>, base: nat)
    requires
        b.len() >= 2,
        b[b.len() - 1] == Instr::End,
        b[b.len() - 2] != Instr::Return,
        b[b.len() - 2] != Instr::Unreachable,
    ensures
        rewritten(Rule { sanitizer: Sanitizer::NonReturn, proc_exit }, b, b.len() as int, base)
            == b.drop_last() + exit_trap(15, proc_exit) + seq![Instr::End],
{
    let rule = Rule { sanitizer: Sanitizer::NonReturn, proc_exit };
    let n = b.len() as int;
    assert forall|i: int, k: nat| 0 <= i < n - 2 implies #[trigger] insertion(rule, b, i, k).len() == 0 by {
    }
    rewrite_without_sites_is_identity(rule, b, base, n - 2);
    assert(insertion(rule, b, n - 1, 0).len() == 0);
    assert(b.take(n - 2).push(b[n - 2]) + exit_trap(15, proc_exit) =~= b.drop_last() + exit_trap(15, proc_exit));
    assert(b =~= b.drop_last().push(Instr::End));
    let r1 = rewritten(rule, b, n - 1, base);
    assert(r1 =~= b.drop_last() + exit_trap(15, proc_exit));
    assert(rewritten(rule, b, n, base) =~= r1.push(Instr::End));
}

/// A body whose closing `end` follows `return` or `unreachable` is left as it is
/// by `non_return`.
pub proof fn non_return_keeps_terminated(proc_exit: usize, b: Seq<Instr>, base: nat)
    requires
        b.len() >= 2,
        b[b.len() - 2] == Instr::Return || b[b.len() - 2] == Instr::Unreachable,
    ensures
        rewritten(Rule { sanitizer: Sanitizer::NonReturn, proc_exit }, b, b.len() as int, base) == b,
{
    let rule = Rule { sanitizer: Sanitizer::NonReturn, proc_exit };
    let n = b.len() as int;
    assert forall|i: int, k: nat| 0 <= i < n implies #[trigger] insertion(rule, b, i, k).len() == 0 by {
    }
    rewrite_without_sites_is_identity(rule, b, base, n);
    assert(b.take(n) =~= b);
}

/// Checks that `local.get x; local.get a; i32.shl` (or `i64.shl`) shifts a
/// non-negative value by an amount within the operand width; exits with status 17.
pub fn shift(module: &mut Module)
    requires
        module_ready(Sanitizer::Shift, unreserved(), old(module)@.functions),
    ensures
        final(module)@.functions == sanitized(Sanitizer::Shift, unreserved(), old(module)@.functions),
        final(module)@.globals == old(module)@.globals,
{
    run_pass(module, Sanitizer::Shift, unreserved_selection());
}

/// Checks unsigned additions, 64-bit subtractions and 32-bit multiplications of
/// locals for wrap-around; exits with status 18.
pub fn unsigned_integer_overflow(module: &mut Module)
    requires
        module_ready(Sanitizer::UnsignedOverflow, unreserved_outside_runtime(), old(module)@.functions),
    ensures
        final(module)@.functions == sanitized(
            Sanitizer::UnsignedOverflow,
            unreserved_outside_runtime(),
            old(module)@.functions,
        ),
        final(module)@.globals == old(module)@.globals,
{
    run_pass(module, Sanitizer::UnsignedOverflow, unreserved_outside_runtime_selection());
}

/// Checks that the divisor of `local.get n; local.get d; f32.div` is not zero;
/// exits with status 20.
pub fn float_divide_by_zero(module: &mut Module)
    requires
        module_ready(Sanitizer::FloatDivideByZero, unreserved(), old(module)@.functions),
    ensures
        final(module)@.functions == sanitized(Sanitizer::FloatDivideByZero, unreserved(), old(module)@.functions),
        final(module)@.globals == old(module)@.globals,
{
    run_pass(module, Sanitizer::FloatDivideByZero, unreserved_selection());
}

// ---------------------------------------------------------------- entry guards

/// Exits with `trap` on entry unless parameter `p` is positive.
pub open spec fn positive_param_check(p: usize, trap: Seq<Instr>) -> Seq<Instr> {
    seq![block(), lget(p), c32(0), num(NumericOp::I32GtS), Instr::BrIf(0)] + trap + seq![Instr::End]
}

/// Exits with `trap` on entry when parameter `p` is negative.
pub open spec fn non_negative_param_check(p: usize, trap: Seq<Instr>) -> Seq<Instr> {
    seq![block(), lget(p), c32(0), num(NumericOp::I32GeS), Instr::BrIf(0)] + trap + seq![Instr::End]
}

/// The functions with `check` put at the entry of the first one named `name`, if any.
pub open spec fn guard_first_named(fs: Seq<FunctionView>, name: Seq<char>, check: Seq<Instr>) -> Seq<FunctionView> {
    match first_named(fs, name) {
        Some(i) => fs.update(i, with_prefix(fs[i], check)),
        None => fs,
    }
}

fn param_check(p: usize, positive: bool, proc_exit: usize) -> (v: Vec<Instr>)
    ensures
        v@ == if positive {
            positive_param_check(p, exit_trap(16, proc_exit))
        } else {
            non_negative_param_check(p, exit_trap(16, proc_exit))
        },
{
    let cmp_op = if positive { NumericOp::I32GtS } else { NumericOp::I32GeS };
    let mut v = vec![
        Instr::Block(BlockType(None)), Instr::Local(LocalOp::Get, p), Instr::Const(Val::I32(0)),
        Instr::Numeric(cmp_op), Instr::BrIf(0),
    ];
    let mut t = exit_trap_exec(16, proc_exit);
    v.append(&mut t);
    v.push(Instr::End);
    assert(v@ =~= if positive {
        positive_param_check(p, exit_trap(16, proc_exit))
    } else {
        non_negative_param_check(p, exit_trap(16, proc_exit))
    });
    v
}

fn guard_entry(module: &mut Module, name: &str, check: Vec<Instr>)
    ensures
        final(module)@.functions == guard_first_named(old(module)@.functions, name@, check@),
        final(module)@.globals == old(module)@.globals,
{
    let ghost check_seq = check@;
    if let Some(i) = find_func_by_name(name, &module.functions) {
        proof {
            crate::ir::lemma_first_named_bounds(old(module)@.functions, name@);
        }
        module.functions[i].insert_prefix(check);
        assert(module@.functions =~= guard_first_named(old(module)@.functions, name@, check_seq));
    }
}

/// The functions after `implicit_integer_sign_change`: the sign checks after
/// zero-extending loads, then guards at the entry of `dlmalloc` (a positive size)
/// and of `__memcpy`, `memmove` and `strncpy` (a non-negative length), all exiting
/// with status 16.
pub open spec fn sign_change_result(fs: Seq<FunctionView>) -> Seq<FunctionView> {
    let t = exit_trap(16, proc_exit_index(fs) as usize);
    let a = sanitized(Sanitizer::SignChange, outside_runtime(), fs);
    let b = guard_first_named(a, "dlmalloc"@, positive_param_check(0, t));
    let c = guard_first_named(b, "__memcpy"@, non_negative_param_check(2, t));
    let d = guard_first_named(c, "memmove"@, non_negative_param_check(2, t));
    guard_first_named(d, "strncpy"@, non_negative_param_check(2, t))
}

/// Checks that a value read by a zero-extending load is not negative once sign
/// extended, and guards the size and length parameters of the allocator and of the
/// copying functions; a failed check exits with status 16.
pub fn implicit_integer_sign_change(module: &mut Module)
    requires
        module_ready(Sanitizer::SignChange, outside_runtime(), old(module)@.functions),
    ensures
        final(module)@.functions == sign_change_result(old(module)@.functions),
        final(module)@.globals == old(module)@.globals,
{
    proof {
        lemma_ready_with_proc_exit(Sanitizer::SignChange, outside_runtime(), old(module)@.functions);
    }
    let pe = add_proc_exit(module);
    instrument_functions(module, Rule { sanitizer: Sanitizer::SignChange, proc_exit: pe }, outside_runtime_selection());
    guard_entry(module, "dlmalloc", param_check(0, true, pe));
    guard_entry(module, "__memcpy", param_check(2, false, pe));
    guard_entry(module, "memmove", param_check(2, false, pe));
    guard_entry(module, "strncpy", param_check(2, false, pe));
}

} // verus!
