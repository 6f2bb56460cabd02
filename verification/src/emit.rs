//! Executable pattern matching and check construction, one function per
//! specification in `rules`.

use vstd::prelude::*;
use crate::ir::{add_fresh_local, BlockType, Instr, LoadOp, LocalOp, NumericOp, StoreOp, Val, ValType};
use crate::rules::{
    binop_site, call_check, demote_check, demote_site, divisor_check, division_site, fresh,
    helper_for, insertion, is_float_to_int, narrow_add_for, narrow_add_site, narrow_mul_check,
    narrow_mul_max, narrow_mul_site, null_check, null_site, rule_accepts, shift_check, shift_site,
    sign_check, sign_site, trunc_seen, truncation_check, unsigned_overflow_check, wrap_site,
    zero_extending_load, exit_code, exit_trap, rule_trap, OverflowHelpers, Rule, Sanitizer,
};

verus! {

// ---------------------------------------------------------------- checks

/// The exit status of a failed check of the sanitizer.
pub fn exit_code_exec(s: Sanitizer) -> (c: i32)
    ensures
        c == exit_code(s),
{
    match s {
        Sanitizer::NullReference => 11,
        Sanitizer::Truncation { signed } => if signed { 12 } else { 13 },
        Sanitizer::FloatCastOverflow => 14,
        Sanitizer::NonReturn => 15,
        Sanitizer::SignChange => 16,
        Sanitizer::Shift => 17,
        Sanitizer::UnsignedOverflow => 18,
        Sanitizer::SignedOverflow { .. } => 19,
        Sanitizer::FloatDivideByZero => 20,
    }
}

/// `i32.const code; call proc_exit; unreachable`.
pub fn exit_trap_exec(code: i32, proc_exit: usize) -> (v: Vec<Instr>)
    ensures
        v@ == exit_trap(code, proc_exit),
{
    let v = vec![Instr::Const(Val::I32(code)), Instr::Call(proc_exit), Instr::Unreachable];
    assert(v@ =~= exit_trap(code, proc_exit));
    v
}

fn rule_trap_exec(rule: Rule) -> (v: Vec<Instr>)
    ensures
        v@ == rule_trap(rule),
{
    exit_trap_exec(exit_code_exec(rule.sanitizer), rule.proc_exit)
}

/// `head`, then `trap`, then `end`.
fn close_check(head: Vec<Instr>, trap: Vec<Instr>) -> (v: Vec<Instr>)
    ensures
        v@ == head@ + trap@ + seq![Instr::End],
{
    let mut v = head;
    let mut t = trap;
    v.append(&mut t);
    v.push(Instr::End);
    v
}

fn null_check_exec(a: usize, k: usize, trap: Vec<Instr>) -> (v: Vec<Instr>)
    ensures
        v@ == null_check(a, k, trap@),
{
    let head = vec![
        Instr::Local(LocalOp::Get, a), Instr::Const(Val::I32(0)), Instr::Numeric(NumericOp::I32Ne),
        Instr::Local(LocalOp::Put, k), Instr::Block(BlockType(None)), Instr::Local(LocalOp::Get, k),
        Instr::BrIf(0),
    ];
    let ghost t = trap@;
    let v = close_check(head, trap);
    assert(v@ =~= null_check(a, k, t));
    v
}

fn truncation_check_exec(w: usize, n: usize, k: usize, signed: bool, trap: Vec<Instr>) -> (v: Vec<Instr>)
    requires
        k + 1 <= usize::MAX,
    ensures
        v@ == truncation_check(w, n, k, signed, trap@),
{
    let ext = if signed { NumericOp::I64ExtendI32S } else { NumericOp::I64ExtendI32U };
    let head = vec![
        Instr::Block(BlockType(None)), Instr::Local(LocalOp::Get, n), Instr::Local(LocalOp::Put, k),
        Instr::Local(LocalOp::Get, k), Instr::Numeric(ext), Instr::Local(LocalOp::Put, k + 1),
        Instr::Local(LocalOp::Get, k + 1), Instr::Local(LocalOp::Get, w),
        Instr::Numeric(NumericOp::I64Eq), Instr::BrIf(0),
    ];
    let ghost t = trap@;
    let v = close_check(head, trap);
    assert(v@ =~= truncation_check(w, n, k, signed, t));
    v
}

fn demote_check_exec(w: usize, n: usize, k: usize, trap: Vec<Instr>) -> (v: Vec<Instr>)
    ensures
        v@ == demote_check(w, n, k, trap@),
{
    let head = vec![
        Instr::Local(LocalOp::Get, n), Instr::Numeric(NumericOp::F64PromoteF32),
        Instr::Local(LocalOp::Get, w), Instr::Numeric(NumericOp::F64Eq),
        Instr::Local(LocalOp::Put, k), Instr::Block(BlockType(None)), Instr::Local(LocalOp::Get, k),
        Instr::BrIf(0),
    ];
    let ghost t = trap@;
    let v = close_check(head, trap);
    assert(v@ =~= demote_check(w, n, k, t));
    v
}

fn sign_check_exec(x: usize, s: i64, wide: bool, trap: Vec<Instr>) -> (v: Vec<Instr>)
    ensures
        v@ == sign_check(x, s, wide, trap@),
{
    let ghost t = trap@;
    if wide {
        let head = vec![
            Instr::Block(BlockType(None)), Instr::Local(LocalOp::Get, x), Instr::Const(Val::I64(s)),
            Instr::Numeric(NumericOp::I64Shl), Instr::Const(Val::I64(s)),
            Instr::Numeric(NumericOp::I64ShrS), Instr::Const(Val::I64(0)),
            Instr::Numeric(NumericOp::I64GeS), Instr::BrIf(0),
        ];
        let v = close_check(head, trap);
        assert(v@ =~= sign_check(x, s, wide, t));
        v
    } else {
        let s32 = s as i32;
        let head = vec![
            Instr::Block(BlockType(None)), Instr::Local(LocalOp::Get, x), Instr::Const(Val::I32(s32)),
            Instr::Numeric(NumericOp::I32Shl), Instr::Const(Val::I32(s32)),
            Instr::Numeric(NumericOp::I32ShrS), Instr::Const(Val::I32(0)),
            Instr::Numeric(NumericOp::I32GeS), Instr::BrIf(0),
        ];
        let v = close_check(head, trap);
        assert(v@ =~= sign_check(x, s, wide, t));
        v
    }
}

fn shift_check_exec(x: usize, a: usize, wide: bool, trap: Vec<Instr>) -> (v: Vec<Instr>)
    ensures
        v@ == shift_check(x, a, wide, trap@),
{
    let ghost t = trap@;
    if wide {
        let head = vec![
            Instr::Block(BlockType(None)), Instr::Block(BlockType(None)),
            Instr::Local(LocalOp::Get, x), Instr::Const(Val::I64(0)), Instr::Numeric(NumericOp::I64LtS),
            Instr::BrIf(0),
            Instr::Local(LocalOp::Get, a), Instr::Const(Val::I64(64)), Instr::Numeric(NumericOp::I64GeS),
            Instr::BrIf(0),
            Instr::Local(LocalOp::Get, a), Instr::Const(Val::I64(0)), Instr::Numeric(NumericOp::I64LtS),
            Instr::BrIf(0),
            Instr::Br(1), Instr::End,
        ];
        let v = close_check(head, trap);
        assert(v@ =~= shift_check(x, a, wide, t));
        v
    } else {
        let head = vec![
            Instr::Block(BlockType(None)), Instr::Block(BlockType(None)),
            Instr::Local(LocalOp::Get, x), Instr::Const(Val::I32(0)), Instr::Numeric(NumericOp::I32LtS),
            Instr::BrIf(0),
            Instr::Local(LocalOp::Get, a), Instr::Const(Val::I32(32)), Instr::Numeric(NumericOp::I32GeS),
            Instr::BrIf(0),
            Instr::Local(LocalOp::Get, a), Instr::Const(Val::I32(0)), Instr::Numeric(NumericOp::I32LtS),
            Instr::BrIf(0),
            Instr::Br(1), Instr::End,
        ];
        let v = close_check(head, trap);
        assert(v@ =~= shift_check(x, a, wide, t));
        v
    }
}

fn unsigned_overflow_check_exec(site: Option<(usize, usize, NumericOp, usize)>, trap: Vec<Instr>) -> (v: Vec<Instr>)
    ensures
        v@ == unsigned_overflow_check(site, trap@),
{
    let ghost t = trap@;
    match site {
        Some((x, a, op, r)) => match op {
            NumericOp::I32Add | NumericOp::I64Add => {
                let ge = if op == NumericOp::I64Add { NumericOp::I64GeU } else { NumericOp::I32GeU };
                let head = vec![
                    Instr::Local(LocalOp::Tee, r), Instr::Block(BlockType(None)),
                    Instr::Local(LocalOp::Get, r), Instr::Local(LocalOp::Get, x), Instr::Numeric(ge),
                    Instr::BrIf(0),
                ];
                let v = close_check(head, trap);
                assert(v@ =~= unsigned_overflow_check(site, t));
                v
            },
            NumericOp::I64Sub => {
                let head = vec![
                    Instr::Block(BlockType(None)), Instr::Local(LocalOp::Get, x),
                    Instr::Local(LocalOp::Get, a), Instr::Numeric(NumericOp::I64GeU), Instr::BrIf(0),
                ];
                let v = close_check(head, trap);
                assert(v@ =~= unsigned_overflow_check(site, t));
                v
            },
            NumericOp::I32Mul => {
                let head = vec![
                    Instr::Local(LocalOp::Tee, r), Instr::Block(BlockType(None)),
                    Instr::Local(LocalOp::Get, x), Instr::Numeric(NumericOp::I64ExtendI32U),
                    Instr::Local(LocalOp::Get, a), Instr::Numeric(NumericOp::I64ExtendI32U),
                    Instr::Numeric(NumericOp::I64Mul), Instr::Local(LocalOp::Get, r),
                    Instr::Numeric(NumericOp::I64ExtendI32U), Instr::Numeric(NumericOp::I64Eq),
                    Instr::BrIf(0),
                ];
                let v = close_check(head, trap);
                assert(v@ =~= unsigned_overflow_check(site, t));
                v
            },
            _ => {
                let v: Vec<Instr> = Vec::new();
                assert(v@ =~= unsigned_overflow_check(site, t));
                v
            },
        },
        None => {
            let v: Vec<Instr> = Vec::new();
            assert(v@ =~= unsigned_overflow_check(site, t));
            v
        },
    }
}

fn helper_for_exec(h: OverflowHelpers, op: NumericOp) -> (r: Option<usize>)
    ensures
        r == helper_for(h, op),
{
    match op {
        NumericOp::I32Add => Some(h.add32),
        NumericOp::I64Add => Some(h.add64),
        NumericOp::I32Sub => Some(h.sub32),
        NumericOp::I64Sub => Some(h.sub64),
        NumericOp::I32Mul => Some(h.mul32),
        NumericOp::I64Mul => Some(h.mul64),
        _ => None,
    }
}

fn call_check_exec(x: usize, a: usize, f: usize, trap: Vec<Instr>) -> (v: Vec<Instr>)
    ensures
        v@ == call_check(x, a, f, trap@),
{
    let head = vec![
        Instr::Block(BlockType(None)), Instr::Local(LocalOp::Get, x), Instr::Local(LocalOp::Get, a),
        Instr::Call(f), Instr::Numeric(NumericOp::I32Eqz), Instr::BrIf(0),
    ];
    let ghost t = trap@;
    let v = close_check(head, trap);
    assert(v@ =~= call_check(x, a, f, t));
    v
}

fn narrow_mul_check_exec(max: i32, k: usize, trap: Vec<Instr>) -> (v: Vec<Instr>)
    requires
        k + 1 <= usize::MAX,
    ensures
        v@ == narrow_mul_check(max, k, trap@),
{
    let head = vec![
        Instr::Local(LocalOp::Tee, k), Instr::Local(LocalOp::Get, k), Instr::Const(Val::I32(max)),
        Instr::Numeric(NumericOp::I32GtS), Instr::Local(LocalOp::Get, k), Instr::Const(Val::I32(0)),
        Instr::Numeric(NumericOp::I32LtS), Instr::Numeric(NumericOp::I32Or),
        Instr::Numeric(NumericOp::I32Eqz), Instr::Local(LocalOp::Put, k + 1),
        Instr::Block(BlockType(None)), Instr::Local(LocalOp::Get, k + 1), Instr::BrIf(0),
    ];
    let ghost t = trap@;
    let v = close_check(head, trap);
    assert(v@ =~= narrow_mul_check(max, k, t));
    v
}

fn narrow_add_check_exec(short: bool, k: usize, trap: Vec<Instr>) -> (v: Vec<Instr>)
    requires
        k + 1 <= usize::MAX,
    ensures
        v@ == narrow_add_for(short, k, trap@),
{
    let s: i32 = if short { 16 } else { 24 };
    let max: i32 = if short { 32767 } else { 127 };
    let min: i32 = if short { -32768 } else { -128 };
    let head = vec![
        Instr::Local(LocalOp::Tee, k), Instr::Local(LocalOp::Get, k), Instr::Const(Val::I32(s)),
        Instr::Numeric(NumericOp::I32Shl), Instr::Const(Val::I32(s)),
        Instr::Numeric(NumericOp::I32ShrS), Instr::Const(Val::I32(max)),
        Instr::Numeric(NumericOp::I32GtS), Instr::Local(LocalOp::Get, k), Instr::Const(Val::I32(min)),
        Instr::Numeric(NumericOp::I32LtS), Instr::Numeric(NumericOp::I32Or),
        Instr::Numeric(NumericOp::I32Eqz), Instr::Local(LocalOp::Put, k + 1),
        Instr::Block(BlockType(None)), Instr::Local(LocalOp::Get, k + 1), Instr::BrIf(0),
    ];
    let ghost t = trap@;
    let v = close_check(head, trap);
    assert(v@ =~= narrow_add_for(short, k, t));
    v
}

fn divisor_check_exec(d: usize, k: usize, trap: Vec<Instr>) -> (v: Vec<Instr>)
    ensures
        v@ == divisor_check(d, k, trap@),
{
    let head = vec![
        Instr::Const(Val::F32(0)), Instr::Local(LocalOp::Get, d), Instr::Numeric(NumericOp::F32Ne),
        Instr::Local(LocalOp::Put, k), Instr::Block(BlockType(None)), Instr::Local(LocalOp::Get, k),
        Instr::BrIf(0),
    ];
    let ghost t = trap@;
    let v = close_check(head, trap);
    assert(v@ =~= divisor_check(d, k, t));
    v
}

// ---------------------------------------------------------------- sites

fn null_site_exec(b: &Vec<Instr>, i: usize) -> (r: Option<usize>)
    ensures
        r == null_site(b@, i as int),
{
    if 2 <= i && i < b.len() {
        match (b[i - 2], b[i - 1], b[i]) {
            (Instr::Local(LocalOp::Get, a), Instr::Local(LocalOp::Get, _), Instr::Store(_, _)) => Some(a),
            _ => None,
        }
    } else {
        None
    }
}

fn wrap_site_exec(b: &Vec<Instr>, i: usize) -> (r: Option<(usize, usize)>)
    ensures
        r == wrap_site(b@, i as int),
{
    if 3 <= i && i < b.len() && b[i - 1] == Instr::Numeric(NumericOp::I32WrapI64) {
        match (b[i - 2], b[i]) {
            (Instr::Local(LocalOp::Get, w), Instr::Local(LocalOp::Put, n)) => Some((w, n)),
            _ => None,
        }
    } else {
        None
    }
}

fn demote_site_exec(b: &Vec<Instr>, i: usize) -> (r: Option<(usize, usize)>)
    ensures
        r == demote_site(b@, i as int),
{
    if 2 <= i && i < b.len() {
        match (b[i - 2], b[i - 1], b[i]) {
            (
                Instr::Local(LocalOp::Get, w),
                Instr::Numeric(NumericOp::F32DemoteF64),
                Instr::Local(LocalOp::Put, n),
            ) => Some((w, n)),
            _ => None,
        }
    } else {
        None
    }
}

pub fn is_float_to_int_exec(x: Instr) -> (r: bool)
    ensures
        r == is_float_to_int(x),
{
    x == Instr::Numeric(NumericOp::I32TruncF32S) || x == Instr::Numeric(NumericOp::I32TruncF64S)
}

fn zero_extending_load_exec(op: LoadOp) -> (r: Option<(i64, bool)>)
    ensures
        r == zero_extending_load(op),
{
    match op {
        LoadOp::I32Load8U => Some((24, false)),
        LoadOp::I32Load16U => Some((16, false)),
        LoadOp::I64Load8U => Some((56, true)),
        LoadOp::I64Load16U => Some((48, true)),
        LoadOp::I64Load32U => Some((32, true)),
        _ => None,
    }
}

fn sign_site_exec(b: &Vec<Instr>, i: usize) -> (r: Option<(usize, i64, bool)>)
    ensures
        r == sign_site(b@, i as int),
{
    if 1 <= i && i < b.len() {
        match (b[i - 1], b[i]) {
            (Instr::Load(op, _), Instr::Local(LocalOp::Put, x)) => match zero_extending_load_exec(op) {
                Some((s, wide)) => Some((x, s, wide)),
                None => None,
            },
            _ => None,
        }
    } else {
        None
    }
}

fn shift_site_exec(b: &Vec<Instr>, i: usize) -> (r: Option<(usize, usize, bool)>)
    ensures
        r == shift_site(b@, i as int),
{
    if 2 <= i && i < b.len() {
        match (b[i - 2], b[i - 1], b[i]) {
            (Instr::Local(LocalOp::Get, x), Instr::Local(LocalOp::Get, a), Instr::Numeric(op)) => {
                if op == NumericOp::I32Shl {
                    Some((x, a, false))
                } else if op == NumericOp::I64Shl {
                    Some((x, a, true))
                } else {
                    None
                }
            },
            _ => None,
        }
    } else {
        None
    }
}

fn binop_site_exec(b: &Vec<Instr>, i: usize) -> (r: Option<(usize, usize, NumericOp, usize)>)
    requires
        i < b@.len(),
    ensures
        r == binop_site(b@, i as int),
{
    let n = b.len();
    if 2 <= i && i + 1 < n {
        match (b[i - 2], b[i - 1], b[i], b[i + 1]) {
            (
                Instr::Local(LocalOp::Get, x),
                Instr::Local(LocalOp::Get, a),
                Instr::Numeric(op),
                Instr::Local(LocalOp::Put, r),
            ) => Some((x, a, op, r)),
            _ => None,
        }
    } else {
        None
    }
}

fn narrow_mul_site_exec(b: &Vec<Instr>, i: usize) -> (r: Option<i32>)
    requires
        i < b@.len(),
    ensures
        r == narrow_mul_site(b@, i as int),
{
    let n = b.len();
    if 12 <= i && i + 1 < n {
        match (b[i - 12], b[i - 11], b[i - 10], b[i - 9], b[i - 8], b[i - 7], b[i - 6]) {
            (
                Instr::Const(Val::I32(w)),
                Instr::Local(LocalOp::Put, _),
                Instr::Local(LocalOp::Get, _),
                Instr::Local(LocalOp::Get, _),
                Instr::Numeric(NumericOp::I32Shl),
                Instr::Local(LocalOp::Put, _),
                Instr::Local(LocalOp::Get, _),
            ) => match (b[i - 5], b[i - 4], b[i - 3], b[i - 2], b[i - 1], b[i], b[i + 1]) {
                (
                    Instr::Local(LocalOp::Get, _),
                    Instr::Numeric(NumericOp::I32ShrS),
                    Instr::Local(LocalOp::Put, _),
                    Instr::Local(LocalOp::Get, _),
                    Instr::Local(LocalOp::Get, _),
                    Instr::Numeric(NumericOp::I32Mul),
                    Instr::Local(LocalOp::Put, _),
                ) => Some(w),
                _ => None,
            },
            _ => None,
        }
    } else {
        None
    }
}

fn narrow_mul_max_exec(w: Option<i32>) -> (r: Option<i32>)
    ensures
        r == narrow_mul_max(w),
{
    match w {
        Some(w) => if w == 24 {
            Some(255)
        } else if w == 16 {
            Some(65535)
        } else {
            None
        },
        None => None,
    }
}

fn narrow_add_site_exec(b: &Vec<Instr>, i: usize) -> (r: Option<bool>)
    requires
        i < b@.len(),
    ensures
        r == narrow_add_site(b@, i as int),
{
    let n = b.len();
    if 12 <= i && n - i > 4 {
        match (b[i], b[i + 1], b[i + 2], b[i + 3], b[i + 4]) {
            (
                Instr::Numeric(NumericOp::I32Add),
                Instr::Local(LocalOp::Put, _),
                Instr::Local(LocalOp::Get, _),
                Instr::Local(LocalOp::Get, _),
                Instr::Store(op, _),
            ) => if op == StoreOp::I32Store8 {
                Some(false)
            } else if op == StoreOp::I32Store16 {
                Some(true)
            } else {
                None
            },
            _ => None,
        }
    } else {
        None
    }
}

fn division_site_exec(b: &Vec<Instr>, i: usize) -> (r: Option<usize>)
    requires
        i < b@.len(),
    ensures
        r == division_site(b@, i as int),
{
    let n = b.len();
    if 1 <= i && i + 1 < n {
        match (b[i - 1], b[i], b[i + 1]) {
            (
                Instr::Local(LocalOp::Get, _),
                Instr::Local(LocalOp::Get, d),
                Instr::Numeric(NumericOp::F32Div),
            ) => Some(d),
            _ => None,
        }
    } else {
        None
    }
}

// ---------------------------------------------------------------- one step of a rule

/// Emits into `out` the checks of `rule` that follow position `i`, taking their fresh
/// locals from `locals` (numbered after `param_count` parameters).
/// `seen` is whether a float to int conversion occurs in `2..=i`.
pub fn emit(
    rule: Rule,
    b: &Vec<Instr>,
    i: usize,
    seen: bool,
    param_count: usize,
    locals: &mut Vec<ValType>,
    out: &mut Vec<Instr>,
)
    requires
        i < b@.len(),
        rule_accepts(rule.sanitizer, b@),
        seen == trunc_seen(b@, i as int),
        param_count + old(locals)@.len() + 4 <= usize::MAX,
    ensures
        final(out)@ == old(out)@ + insertion(rule, b@, i as int, (param_count + old(locals)@.len()) as nat),
        final(locals)@ == old(locals)@ + fresh(rule, b@, i as int),
{
    let ghost k = (param_count + old(locals)@.len()) as nat;
    match rule.sanitizer {
        Sanitizer::NullReference => {
            if let Some(a) = null_site_exec(b, i) {
                let f = add_fresh_local(locals, param_count, ValType::I32);
                let mut v = null_check_exec(a, f, rule_trap_exec(rule));
                out.append(&mut v);
            }
        },
        Sanitizer::Truncation { signed } => {
            if let Some((w, n)) = wrap_site_exec(b, i) {
                let f1 = add_fresh_local(locals, param_count, ValType::I32);
                let f2 = add_fresh_local(locals, param_count, ValType::I64);
                let mut v = truncation_check_exec(w, n, f1, signed, rule_trap_exec(rule));
                out.append(&mut v);
            }
        },
        Sanitizer::FloatCastOverflow => {
            if let Some((w, n)) = demote_site_exec(b, i) {
                let f = add_fresh_local(locals, param_count, ValType::I32);
                let mut v = demote_check_exec(w, n, f, rule_trap_exec(rule));
                out.append(&mut v);
            }
            if 2 <= i && seen && b[i - 1] == Instr::End && b[i] == Instr::Const(
                Val::I32(-2147483648i32),
            ) {
                let mut t = rule_trap_exec(rule);
                out.append(&mut t);
            }
        },
        Sanitizer::NonReturn => {
            if b.len() - i == 2 && b[i + 1] == Instr::End && b[i] != Instr::Return && b[i]
                != Instr::Unreachable {
                let mut t = rule_trap_exec(rule);
                out.append(&mut t);
            }
        },
        Sanitizer::SignChange => {
            if let Some((x, s, wide)) = sign_site_exec(b, i) {
                let mut v = sign_check_exec(x, s, wide, rule_trap_exec(rule));
                out.append(&mut v);
            }
        },
        Sanitizer::Shift => {
            if let Some((x, a, wide)) = shift_site_exec(b, i) {
                let mut v = shift_check_exec(x, a, wide, rule_trap_exec(rule));
                out.append(&mut v);
            }
        },
        Sanitizer::UnsignedOverflow => {
            let mut v = unsigned_overflow_check_exec(binop_site_exec(b, i), rule_trap_exec(rule));
            out.append(&mut v);
        },
        Sanitizer::SignedOverflow { helpers } => {
            if let Some((x, a, op, _)) = binop_site_exec(b, i) {
                if let Some(f) = helper_for_exec(helpers, op) {
                    let mut v = call_check_exec(x, a, f, rule_trap_exec(rule));
                    out.append(&mut v);
                }
            }
            if let Some(max) = narrow_mul_max_exec(narrow_mul_site_exec(b, i)) {
                let f1 = add_fresh_local(locals, param_count, ValType::I32);
                let f2 = add_fresh_local(locals, param_count, ValType::I32);
                let mut v = narrow_mul_check_exec(max, f1, rule_trap_exec(rule));
                out.append(&mut v);
            }
            if let Some(short) = narrow_add_site_exec(b, i) {
                let f1 = add_fresh_local(locals, param_count, ValType::I32);
                let f2 = add_fresh_local(locals, param_count, ValType::I32);
                let mut v = narrow_add_check_exec(short, f1, rule_trap_exec(rule));
                out.append(&mut v);
            }
        },
        Sanitizer::FloatDivideByZero => {
            if let Some(d) = division_site_exec(b, i) {
                let f = add_fresh_local(locals, param_count, ValType::I32);
                let mut v = divisor_check_exec(d, f, rule_trap_exec(rule));
                out.append(&mut v);
            }
        },
    }
    assert(final(out)@ =~= old(out)@ + insertion(rule, b@, i as int, k));
    assert(final(locals)@ =~= old(locals)@ + fresh(rule, b@, i as int));
}

} // verus!
