//! The instruction patterns that each pass looks for, and the checks it emits.
//!
//! A pass walks a function body and, after the instruction at position `i`,
//! emits `insertion(rule, body, i, k)`, where `k` is the index of the first local
//! that is still free; the checks use `fresh(rule, body, i)` new locals from `k` on.
//!
//! A failed check ends the program through WASI `proc_exit` with the exit status
//! of its sanitizer (`exit_code`), followed by `unreachable`.

use vstd::prelude::*;
use crate::ir::{BlockType, Instr, LoadOp, LocalOp, NumericOp, StoreOp, Val, ValType};

verus! {

/// Indices of the six overflow-checking helper functions that `signed_integer_overflow` calls.
#[derive(Clone, Copy, Debug, PartialEq, Eq, Structural)]
pub struct OverflowHelpers {
    pub add32: usize,
    pub add64: usize,
    pub sub32: usize,
    pub sub64: usize,
    pub mul32: usize,
    pub mul64: usize,
}

/// Which sanitizer a pass applies to a body.
#[derive(Clone, Copy, Debug, PartialEq, Eq, Structural)]
pub enum Sanitizer {
    NullReference,
    /// Checks of `i32.wrap_i64`; `signed` picks sign or zero extension in the check.
    Truncation { signed: bool },
    FloatCastOverflow,
    NonReturn,
    SignChange,
    Shift,
    UnsignedOverflow,
    SignedOverflow { helpers: OverflowHelpers },
    FloatDivideByZero,
}

/// A sanitizer together with the index of the `proc_exit` function its checks call.
#[derive(Clone, Copy, Debug, PartialEq, Eq, Structural)]
pub struct Rule {
    pub sanitizer: Sanitizer,
    pub proc_exit: usize,
}

/// The exit status with which a failed check of the sanitizer ends the program.
pub open spec fn exit_code(s: Sanitizer) -> i32 {
    match s {
        Sanitizer::NullReference => 11,
        Sanitizer::Truncation { signed } => if signed { 12 } else { 13 },
        Sanitizer::FloatCastOverflow => 14,
        Sanitizer::NonReturn => 15,
        Sanitizer::SignChange => 16,
        Sanitizer::Shift => 17,
        Sanitizer::UnsignedOverflow => 18,
        Sanitizer::SignedOverflow { .. } => 19,
        Sanitizer::FloatDivideByZero => 20,
    }
}

/// The exit status of a failed heap canary check.
pub const HEAP_CANARY_EXIT: i32 = 21;

/// The exit status of a failed stack canary check.
pub const STACK_CANARY_EXIT: i32 = 22;

/// Ends the program with exit status `code` through the `proc_exit` function.
pub open spec fn exit_trap(code: i32, proc_exit: usize) -> Seq<Instr> {
    seq![c32(code), Instr::Call(proc_exit), Instr::Unreachable]
}

/// The trap of the rule's checks.
pub open spec fn rule_trap(rule: Rule) -> Seq<Instr> {
    exit_trap(exit_code(rule.sanitizer), rule.proc_exit)
}

// ---------------------------------------------------------------- shorthands

pub open spec fn lget(x: usize) -> Instr {
    Instr::Local(LocalOp::Get, x)
}

pub open spec fn lput(x: usize) -> Instr {
    Instr::Local(LocalOp::Put, x)
}

pub open spec fn ltee(x: usize) -> Instr {
    Instr::Local(LocalOp::Tee, x)
}

pub open spec fn num(op: NumericOp) -> Instr {
    Instr::Numeric(op)
}

pub open spec fn c32(v: i32) -> Instr {
    Instr::Const(Val::I32(v))
}

pub open spec fn c64(v: i64) -> Instr {
    Instr::Const(Val::I64(v))
}

pub open spec fn block() -> Instr {
    Instr::Block(BlockType(None))
}

// ---------------------------------------------------------------- emitted checks
//
// Each check leaves a block when its condition holds, and otherwise runs `trap`.

/// Runs `trap` when the address `addr` of a store is zero.
pub open spec fn null_check(addr: usize, k: usize, trap: Seq<Instr>) -> Seq<Instr> {
    seq![lget(addr), c32(0), num(NumericOp::I32Ne), lput(k), block(), lget(k), Instr::BrIf(0)]
        + trap + seq![Instr::End]
}

/// Runs `trap` when extending the value just stored in `narrow` back to 64 bits
/// does not give the original `wide`.
pub open spec fn truncation_check(wide: usize, narrow: usize, k: usize, signed: bool, trap: Seq<Instr>) -> Seq<Instr> {
    seq![
        block(), lget(narrow), lput(k), lget(k),
        num(if signed { NumericOp::I64ExtendI32S } else { NumericOp::I64ExtendI32U }),
        lput((k + 1) as usize), lget((k + 1) as usize), lget(wide), num(NumericOp::I64Eq),
        Instr::BrIf(0),
    ] + trap + seq![Instr::End]
}

/// Runs `trap` when promoting the demoted value `narrow` back to f64 does not give `wide`.
pub open spec fn demote_check(wide: usize, narrow: usize, k: usize, trap: Seq<Instr>) -> Seq<Instr> {
    seq![
        lget(narrow), num(NumericOp::F64PromoteF32), lget(wide), num(NumericOp::F64Eq), lput(k),
        block(), lget(k), Instr::BrIf(0),
    ] + trap + seq![Instr::End]
}

/// Runs `trap` when the value just loaded into `x` is negative once its top `s` bits
/// are sign-filled (a 32-bit or, with `wide`, a 64-bit check).
pub open spec fn sign_check(x: usize, s: i64, wide: bool, trap: Seq<Instr>) -> Seq<Instr> {
    if wide {
        seq![
            block(), lget(x), c64(s), num(NumericOp::I64Shl), c64(s), num(NumericOp::I64ShrS),
            c64(0), num(NumericOp::I64GeS), Instr::BrIf(0),
        ] + trap + seq![Instr::End]
    } else {
        seq![
            block(), lget(x), c32(s as i32), num(NumericOp::I32Shl), c32(s as i32),
            num(NumericOp::I32ShrS), c32(0), num(NumericOp::I32GeS), Instr::BrIf(0),
        ] + trap + seq![Instr::End]
    }
}

/// Runs `trap` when the shifted value `b` is negative or the shift amount `a` is out
/// of range.
pub open spec fn shift_check(b: usize, a: usize, wide: bool, trap: Seq<Instr>) -> Seq<Instr> {
    if wide {
        seq![
            block(), block(),
            lget(b), c64(0), num(NumericOp::I64LtS), Instr::BrIf(0),
            lget(a), c64(64), num(NumericOp::I64GeS), Instr::BrIf(0),
            lget(a), c64(0), num(NumericOp::I64LtS), Instr::BrIf(0),
            Instr::Br(1), Instr::End,
        ] + trap + seq![Instr::End]
    } else {
        seq![
            block(), block(),
            lget(b), c32(0), num(NumericOp::I32LtS), Instr::BrIf(0),
            lget(a), c32(32), num(NumericOp::I32GeS), Instr::BrIf(0),
            lget(a), c32(0), num(NumericOp::I32LtS), Instr::BrIf(0),
            Instr::Br(1), Instr::End,
        ] + trap + seq![Instr::End]
    }
}

/// Keeps the sum in `sum` and runs `trap` when it is below the operand `x` (unsigned).
pub open spec fn unsigned_add_check(x: usize, sum: usize, wide: bool, trap: Seq<Instr>) -> Seq<Instr> {
    seq![
        ltee(sum), block(), lget(sum), lget(x),
        num(if wide { NumericOp::I64GeU } else { NumericOp::I32GeU }),
        Instr::BrIf(0),
    ] + trap + seq![Instr::End]
}

/// Runs `trap` when the 64-bit subtraction `b - a` wraps (unsigned).
pub open spec fn unsigned_sub_check(b: usize, a: usize, trap: Seq<Instr>) -> Seq<Instr> {
    seq![block(), lget(b), lget(a), num(NumericOp::I64GeU), Instr::BrIf(0)] + trap + seq![Instr::End]
}

/// Keeps the product in `prod` and runs `trap` when the 64-bit product of the
/// zero-extended operands differs from it.
pub open spec fn unsigned_mul_check(b: usize, a: usize, prod: usize, trap: Seq<Instr>) -> Seq<Instr> {
    seq![
        ltee(prod), block(),
        lget(b), num(NumericOp::I64ExtendI32U), lget(a), num(NumericOp::I64ExtendI32U),
        num(NumericOp::I64Mul), lget(prod), num(NumericOp::I64ExtendI32U), num(NumericOp::I64Eq),
        Instr::BrIf(0),
    ] + trap + seq![Instr::End]
}

/// Runs `trap` when the helper function `helper` reports an overflow of `b op a`.
pub open spec fn call_check(b: usize, a: usize, helper: usize, trap: Seq<Instr>) -> Seq<Instr> {
    seq![block(), lget(b), lget(a), Instr::Call(helper), num(NumericOp::I32Eqz), Instr::BrIf(0)]
        + trap + seq![Instr::End]
}

/// Runs `trap` when a product of narrow operands lies outside `0..=max`.
pub open spec fn narrow_mul_check(max: i32, k: usize, trap: Seq<Instr>) -> Seq<Instr> {
    seq![
        ltee(k), lget(k), c32(max), num(NumericOp::I32GtS),
        lget(k), c32(0), num(NumericOp::I32LtS), num(NumericOp::I32Or), num(NumericOp::I32Eqz),
        lput((k + 1) as usize), block(), lget((k + 1) as usize), Instr::BrIf(0),
    ] + trap + seq![Instr::End]
}

/// Runs `trap` when a narrow sum lies outside `min..=max`.
pub open spec fn narrow_add_check(s: i32, max: i32, min: i32, k: usize, trap: Seq<Instr>) -> Seq<Instr> {
    seq![
        ltee(k), lget(k), c32(s), num(NumericOp::I32Shl), c32(s), num(NumericOp::I32ShrS),
        c32(max), num(NumericOp::I32GtS),
        lget(k), c32(min), num(NumericOp::I32LtS), num(NumericOp::I32Or), num(NumericOp::I32Eqz),
        lput((k + 1) as usize), block(), lget((k + 1) as usize), Instr::BrIf(0),
    ] + trap + seq![Instr::End]
}

/// Runs `trap` when the divisor `d` of an `f32.div` is zero.
pub open spec fn divisor_check(d: usize, k: usize, trap: Seq<Instr>) -> Seq<Instr> {
    seq![
        Instr::Const(Val::F32(0)), lget(d), num(NumericOp::F32Ne), lput(k),
        block(), lget(k), Instr::BrIf(0),
    ] + trap + seq![Instr::End]
}

// ---------------------------------------------------------------- sites

/// `local.get a; local.get _; <store>` ending at `i`: the address local `a`.
pub open spec fn null_site(b: Seq<Instr>, i: int) -> Option<usize> {
    if 2 <= i < b.len() {
        match (b[i - 2], b[i - 1], b[i]) {
            (Instr::Local(LocalOp::Get, a), Instr::Local(LocalOp::Get, _), Instr::Store(_, _)) => Some(a),
            _ => None,
        }
    } else {
        None
    }
}

/// `local.get w; i32.wrap_i64; local.set n` ending at `i`, the wrap at position 2 or
/// later: `(w, n)`.
pub open spec fn wrap_site(b: Seq<Instr>, i: int) -> Option<(usize, usize)> {
    if 3 <= i < b.len() && b[i - 1] == Instr::Numeric(NumericOp::I32WrapI64) {
        match (b[i - 2], b[i]) {
            (Instr::Local(LocalOp::Get, w), Instr::Local(LocalOp::Put, n)) => Some((w, n)),
            _ => None,
        }
    } else {
        None
    }
}

/// `local.get w; f32.demote_f64; local.set n` ending at `i`: `(w, n)`.
pub open spec fn demote_site(b: Seq<Instr>, i: int) -> Option<(usize, usize)> {
    if 2 <= i < b.len() {
        match (b[i - 2], b[i - 1], b[i]) {
            (
                Instr::Local(LocalOp::Get, w),
                Instr::Numeric(NumericOp::F32DemoteF64),
                Instr::Local(LocalOp::Put, n),
            ) => Some((w, n)),
            _ => None,
        }
    } else {
        None
    }
}

pub open spec fn is_float_to_int(x: Instr) -> bool {
    x == Instr::Numeric(NumericOp::I32TruncF32S) || x == Instr::Numeric(NumericOp::I32TruncF64S)
}

/// Some instruction at a position in `2..=i` converts a float to a signed i32.
pub open spec fn trunc_seen(b: Seq<Instr>, i: int) -> bool
    decreases i,
{
    if i < 2 {
        false
    } else {
        trunc_seen(b, i - 1) || is_float_to_int(b[i])
    }
}

/// `end; i32.const -2147483648` ending at `i`, after a float to int conversion.
pub open spec fn saturation_site(b: Seq<Instr>, i: int) -> bool {
    2 <= i < b.len() && trunc_seen(b, i) && b[i - 1] == Instr::End && b[i] == c32(-2147483648i32)
}

/// The instruction just before the closing `end` of the body, when it is neither
/// `return` nor `unreachable`: control can reach that `end` without returning.
pub open spec fn fallthrough_site(b: Seq<Instr>, i: int) -> bool {
    0 <= i && i == b.len() - 2 && b[i + 1] == Instr::End && b[i] != Instr::Return && b[i]
        != Instr::Unreachable
}

/// The sign-fill width and operand size checked after a zero-extending load.
pub open spec fn zero_extending_load(op: LoadOp) -> Option<(i64, bool)> {
    match op {
        LoadOp::I32Load8U => Some((24, false)),
        LoadOp::I32Load16U => Some((16, false)),
        LoadOp::I64Load8U => Some((56, true)),
        LoadOp::I64Load16U => Some((48, true)),
        LoadOp::I64Load32U => Some((32, true)),
        _ => None,
    }
}

/// `<zero-extending load>; local.set x` ending at `i`: `(x, width, wide)`.
pub open spec fn sign_site(b: Seq<Instr>, i: int) -> Option<(usize, i64, bool)> {
    if 1 <= i < b.len() {
        match (b[i - 1], b[i]) {
            (Instr::Load(op, _), Instr::Local(LocalOp::Put, x)) => match zero_extending_load(op) {
                Some((s, wide)) => Some((x, s, wide)),
                None => None,
            },
            _ => None,
        }
    } else {
        None
    }
}

/// `local.get b; local.get a; i32.shl` (or `i64.shl`) ending at `i`: `(b, a, wide)`.
pub open spec fn shift_site(b: Seq<Instr>, i: int) -> Option<(usize, usize, bool)> {
    if 2 <= i < b.len() {
        match (b[i - 2], b[i - 1], b[i]) {
            (Instr::Local(LocalOp::Get, x), Instr::Local(LocalOp::Get, a), Instr::Numeric(op)) =>
                if op == NumericOp::I32Shl {
                    Some((x, a, false))
                } else if op == NumericOp::I64Shl {
                    Some((x, a, true))
                } else {
                    None
                },
            _ => None,
        }
    } else {
        None
    }
}

/// `local.get b; local.get a; <op>; local.set r` with `<op>` at `i`: `(b, a, op, r)`.
pub open spec fn binop_site(b: Seq<Instr>, i: int) -> Option<(usize, usize, NumericOp, usize)> {
    if 2 <= i && i + 1 < b.len() {
        match (b[i - 2], b[i - 1], b[i], b[i + 1]) {
            (
                Instr::Local(LocalOp::Get, x),
                Instr::Local(LocalOp::Get, a),
                Instr::Numeric(op),
                Instr::Local(LocalOp::Put, r),
            ) => Some((x, a, op, r)),
            _ => None,
        }
    } else {
        None
    }
}

pub open spec fn unsigned_overflow_check(site: Option<(usize, usize, NumericOp, usize)>, trap: Seq<Instr>) -> Seq<Instr> {
    match site {
        Some((x, a, op, r)) => match op {
            NumericOp::I32Add => unsigned_add_check(x, r, false, trap),
            NumericOp::I64Add => unsigned_add_check(x, r, true, trap),
            NumericOp::I64Sub => unsigned_sub_check(x, a, trap),
            NumericOp::I32Mul => unsigned_mul_check(x, a, r, trap),
            _ => seq![],
        },
        None => seq![],
    }
}

pub open spec fn helper_for(h: OverflowHelpers, op: NumericOp) -> Option<usize> {
    match op {
        NumericOp::I32Add => Some(h.add32),
        NumericOp::I64Add => Some(h.add64),
        NumericOp::I32Sub => Some(h.sub32),
        NumericOp::I64Sub => Some(h.sub64),
        NumericOp::I32Mul => Some(h.mul32),
        NumericOp::I64Mul => Some(h.mul64),
        _ => None,
    }
}

pub open spec fn signed_call_check(b: Seq<Instr>, i: int, h: OverflowHelpers, trap: Seq<Instr>) -> Seq<Instr> {
    match binop_site(b, i) {
        Some((x, a, op, _)) => match helper_for(h, op) {
            Some(f) => call_check(x, a, f, trap),
            None => seq![],
        },
        None => seq![],
    }
}

/// The sign-extension idiom of a narrow multiplication ending with `i32.mul; local.set`
/// at `i`, `i + 1`: the shift width that the idiom starts with.
pub open spec fn narrow_mul_site(b: Seq<Instr>, i: int) -> Option<i32> {
    if 12 <= i && i + 1 < b.len() {
        match (b[i - 12], b[i - 11], b[i - 10], b[i - 9], b[i - 8], b[i - 7], b[i - 6]) {
            (
                Instr::Const(Val::I32(w)),
                Instr::Local(LocalOp::Put, _),
                Instr::Local(LocalOp::Get, _),
                Instr::Local(LocalOp::Get, _),
                Instr::Numeric(NumericOp::I32Shl),
                Instr::Local(LocalOp::Put, _),
                Instr::Local(LocalOp::Get, _),
            ) => match (b[i - 5], b[i - 4], b[i - 3], b[i - 2], b[i - 1], b[i], b[i + 1]) {
                (
                    Instr::Local(LocalOp::Get, _),
                    Instr::Numeric(NumericOp::I32ShrS),
                    Instr::Local(LocalOp::Put, _),
                    Instr::Local(LocalOp::Get, _),
                    Instr::Local(LocalOp::Get, _),
                    Instr::Numeric(NumericOp::I32Mul),
                    Instr::Local(LocalOp::Put, _),
                ) => Some(w),
                _ => None,
            },
            _ => None,
        }
    } else {
        None
    }
}

/// The upper bound checked on a narrow product of the given idiom width.
pub open spec fn narrow_mul_max(w: Option<i32>) -> Option<i32> {
    match w {
        Some(w) => if w == 24 {
            Some(255i32)
        } else if w == 16 {
            Some(65535i32)
        } else {
            None
        },
        None => None,
    }
}

/// `i32.add; local.set; local.get; local.get; i32.store8` (or `i32.store16`) from `i` on:
/// whether the store is 16 bits wide.
pub open spec fn narrow_add_site(b: Seq<Instr>, i: int) -> Option<bool> {
    if 12 <= i && i + 4 < b.len() {
        match (b[i], b[i + 1], b[i + 2], b[i + 3], b[i + 4]) {
            (
                Instr::Numeric(NumericOp::I32Add),
                Instr::Local(LocalOp::Put, _),
                Instr::Local(LocalOp::Get, _),
                Instr::Local(LocalOp::Get, _),
                Instr::Store(op, _),
            ) => if op == StoreOp::I32Store8 {
                Some(false)
            } else if op == StoreOp::I32Store16 {
                Some(true)
            } else {
                None
            },
            _ => None,
        }
    } else {
        None
    }
}

pub open spec fn narrow_add_for(short: bool, k: usize, trap: Seq<Instr>) -> Seq<Instr> {
    if short {
        narrow_add_check(16, 32767, -32768i32, k, trap)
    } else {
        narrow_add_check(24, 127, -128i32, k, trap)
    }
}

/// `local.get _; local.get d` at `i - 1`, `i`, and `f32.div` after them: the divisor `d`.
pub open spec fn division_site(b: Seq<Instr>, i: int) -> Option<usize> {
    if 1 <= i && i + 1 < b.len() {
        match (b[i - 1], b[i], b[i + 1]) {
            (
                Instr::Local(LocalOp::Get, _),
                Instr::Local(LocalOp::Get, d),
                Instr::Numeric(NumericOp::F32Div),
            ) => Some(d),
            _ => None,
        }
    } else {
        None
    }
}

// ---------------------------------------------------------------- the rules

pub open spec fn two_i32() -> Seq<ValType> {
    seq![ValType::I32, ValType::I32]
}

/// The fresh locals that the checks emitted after position `i` use, in order.
pub open spec fn fresh(rule: Rule, b: Seq<Instr>, i: int) -> Seq<ValType> {
    match rule.sanitizer {
        Sanitizer::NullReference => if null_site(b, i) is Some { seq![ValType::I32] } else { seq![] },
        Sanitizer::Truncation { .. } => if wrap_site(b, i) is Some {
            seq![ValType::I32, ValType::I64]
        } else {
            seq![]
        },
        Sanitizer::FloatCastOverflow => if demote_site(b, i) is Some {
            seq![ValType::I32]
        } else {
            seq![]
        },
        Sanitizer::SignedOverflow { .. } => (if narrow_mul_max(narrow_mul_site(b, i)) is Some {
            two_i32()
        } else {
            seq![]
        }) + (if narrow_add_site(b, i) is Some { two_i32() } else { seq![] }),
        Sanitizer::FloatDivideByZero => if division_site(b, i) is Some {
            seq![ValType::I32]
        } else {
            seq![]
        },
        _ => seq![],
    }
}

/// The instructions emitted right after position `i`, with `k` the first free local.
pub open spec fn insertion(rule: Rule, b: Seq<Instr>, i: int, k: nat) -> Seq<Instr> {
    let t = rule_trap(rule);
    match rule.sanitizer {
        Sanitizer::NullReference => match null_site(b, i) {
            Some(a) => null_check(a, k as usize, t),
            None => seq![],
        },
        Sanitizer::Truncation { signed } => match wrap_site(b, i) {
            Some((w, n)) => truncation_check(w, n, k as usize, signed, t),
            None => seq![],
        },
        Sanitizer::FloatCastOverflow => (match demote_site(b, i) {
            Some((w, n)) => demote_check(w, n, k as usize, t),
            None => seq![],
        }) + (if saturation_site(b, i) { t } else { seq![] }),
        Sanitizer::NonReturn => if fallthrough_site(b, i) { t } else { seq![] },
        Sanitizer::SignChange => match sign_site(b, i) {
            Some((x, s, wide)) => sign_check(x, s, wide, t),
            None => seq![],
        },
        Sanitizer::Shift => match shift_site(b, i) {
            Some((x, a, wide)) => shift_check(x, a, wide, t),
            None => seq![],
        },
        Sanitizer::UnsignedOverflow => unsigned_overflow_check(binop_site(b, i), t),
        Sanitizer::SignedOverflow { helpers } => {
            let m = narrow_mul_max(narrow_mul_site(b, i));
            let mul_part = match m {
                Some(max) => narrow_mul_check(max, k as usize, t),
                None => seq![],
            };
            let k2 = k + (if m is Some { 2nat } else { 0nat });
            let add_part = match narrow_add_site(b, i) {
                Some(short) => narrow_add_for(short, k2 as usize, t),
                None => seq![],
            };
            signed_call_check(b, i, helpers, t) + mul_part + add_part
        },
        Sanitizer::FloatDivideByZero => match division_site(b, i) {
            Some(d) => divisor_check(d, k as usize, t),
            None => seq![],
        },
    }
}

/// What the sanitizer needs of a body to run without a panic: the truncation checks
/// read the instruction after an `i32.wrap_i64` at position 2 or later.
pub open spec fn rule_accepts(s: Sanitizer, b: Seq<Instr>) -> bool {
    match s {
        Sanitizer::Truncation { .. } => b.len() >= 3 ==> b[b.len() - 1] != Instr::Numeric(
            NumericOp::I32WrapI64,
        ),
        _ => true,
    }
}

} // verus!
