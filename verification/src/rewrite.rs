//! Rewriting a body by a rule, and applying a rule to the selected functions of
//! a module.
//!
//! `rewritten(rule, b, n, base)` is what a pass has written after reading the
//! first `n` instructions of `b`: each original instruction, followed by the checks
//! the rule emits after it. Fresh locals are numbered from `base` on, in the order
//! in which the checks ask for them.

use vstd::prelude::*;
use crate::emit::{emit, is_float_to_int_exec};
use crate::ir::{Code, CodeView, Function, FunctionView, Instr, Module, ValType};
use crate::names::{is_ini_func_name, is_overflow_helper, is_overflow_helper_name, is_string_in_ini_funcs, starts_with, str_starts_with};
use crate::rules::{fresh, insertion, rule_accepts, trunc_seen, Rule, Sanitizer};

verus! {

/// The fresh locals that the checks after the first `n` instructions use, in order.
pub open spec fn fresh_upto(rule: Rule, b: Seq<Instr>, n: int) -> Seq<ValType>
    decreases n,
{
    if n <= 0 {
        seq![]
    } else {
        fresh_upto(rule, b, n - 1) + fresh(rule, b, n - 1)
    }
}

/// The output for the first `n` instructions of `b`, with fresh locals from `base` on.
pub open spec fn rewritten(rule: Rule, b: Seq<Instr>, n: int, base: nat) -> Seq<Instr>
    decreases n,
{
    if n <= 0 {
        seq![]
    } else {
        rewritten(rule, b, n - 1, base).push(b[n - 1]) + insertion(
            rule,
            b,
            n - 1,
            base + fresh_upto(rule, b, n - 1).len(),
        )
    }
}

/// The code after the rule has been applied to the whole body: locals are numbered
/// after the `param_count` parameters, so the first fresh one is
/// `param_count + c.locals.len()`.
pub open spec fn rewrite_code(rule: Rule, c: CodeView, param_count: nat) -> CodeView {
    CodeView {
        locals: c.locals + fresh_upto(rule, c.body, c.body.len() as int),
        body: rewritten(rule, c.body, c.body.len() as int, param_count + c.locals.len()),
    }
}

/// Local indices stay within `usize`: no rule needs more than four fresh locals per instruction.
pub open spec fn fits(c: CodeView, param_count: nat) -> bool {
    param_count + c.locals.len() + 4 * c.body.len() <= usize::MAX
}

proof fn lemma_fresh_at_most_four(rule: Rule, b: Seq<Instr>, i: int)
    ensures
        fresh(rule, b, i).len() <= 4,
{
}

proof fn lemma_fresh_upto_len(rule: Rule, b: Seq<Instr>, n: int)
    requires
        0 <= n,
    ensures
        fresh_upto(rule, b, n).len() <= 4 * n,
    decreases n,
{
    if n > 0 {
        lemma_fresh_upto_len(rule, b, n - 1);
        lemma_fresh_at_most_four(rule, b, n - 1);
    }
}

/// Applies `rule` to the whole body of `code`, adding the fresh locals the checks use.
pub fn rewrite_body(rule: Rule, code: &mut Code, param_count: usize)
    requires
        fits(old(code)@, param_count as nat),
        rule_accepts(rule.sanitizer, old(code)@.body),
    ensures
        final(code)@ == rewrite_code(rule, old(code)@, param_count as nat),
{
    let ghost b0 = code.body@;
    let ghost l0 = code.locals@;
    let ghost base = (param_count + l0.len()) as nat;
    let mut out: Vec<Instr> = Vec::new();
    let mut seen = false;
    let n = code.body.len();
    let mut i: usize = 0;
    while i < n
        invariant
            n == b0.len(),
            code.body@ == b0,
            i <= n,
            param_count + l0.len() + 4 * b0.len() <= usize::MAX,
            rule_accepts(rule.sanitizer, b0),
            base == param_count + l0.len(),
            code.locals@ == l0 + fresh_upto(rule, b0, i as int),
            out@ == rewritten(rule, b0, i as int, base),
            seen == trunc_seen(b0, i - 1),
        decreases n - i,
    {
        let x = code.body[i];
        out.push(x);
        seen = seen || (2 <= i && is_float_to_int_exec(x));
        proof {
            lemma_fresh_upto_len(rule, b0, i as int);
        }
        let ghost out_before = out@;
        let ghost locals_before = code.locals@;
        emit(rule, &code.body, i, seen, param_count, &mut code.locals, &mut out);
        proof {
            assert(out_before == rewritten(rule, b0, i as int, base).push(b0[i as int]));
            assert(locals_before.len() == l0.len() + fresh_upto(rule, b0, i as int).len());
            assert(code.locals@ =~= l0 + fresh_upto(rule, b0, i + 1));
        }
        i = i + 1;
    }
    code.body = out;
}

// ---------------------------------------------------------------- laws of a rewrite

/// Rewriting is incremental: what is written for the first `m` instructions is
/// never changed by what is written for later ones.
pub proof fn rewrite_extends_prefix(rule: Rule, b: Seq<Instr>, base: nat, m: int, n: int)
    requires
        0 <= m <= n,
    ensures
        rewritten(rule, b, m, base).len() <= rewritten(rule, b, n, base).len(),
        rewritten(rule, b, n, base).take(rewritten(rule, b, m, base).len() as int) == rewritten(
            rule,
            b,
            m,
            base,
        ),
    decreases n - m,
{
    if m < n {
        rewrite_extends_prefix(rule, b, base, m, n - 1);
        let r = rewritten(rule, b, n - 1, base);
        let full = rewritten(rule, b, n, base);
        let k = rewritten(rule, b, m, base).len() as int;
        assert(full.take(k) =~= r.take(k));
    }
}

/// Every original instruction survives, in order: instruction `i` of the body sits at
/// position `rewritten(rule, b, i, base).len()` of the output, and these positions
/// strictly increase with `i`.
pub proof fn rewrite_keeps_original_order(rule: Rule, b: Seq<Instr>, base: nat, i: int, j: int)
    requires
        0 <= i < j <= b.len(),
    ensures
        rewritten(rule, b, i, base).len() < rewritten(rule, b, j, base).len(),
        rewritten(rule, b, b.len() as int, base)[rewritten(rule, b, i, base).len() as int] == b[i],
{
    rewrite_extends_prefix(rule, b, base, i + 1, j);
    rewrite_extends_prefix(rule, b, base, i + 1, b.len() as int);
    let p = rewritten(rule, b, i, base).len() as int;
    let r1 = rewritten(rule, b, i + 1, base);
    assert(r1[p] == b[i]);
    let all = rewritten(rule, b, b.len() as int, base);
    assert(all.take(r1.len() as int)[p] == r1[p]);
}

/// Where the rule emits nothing anywhere, the body is written back unchanged.
pub proof fn rewrite_without_sites_is_identity(rule: Rule, b: Seq<Instr>, base: nat, n: int)
    requires
        0 <= n <= b.len(),
        forall|i: int, k: nat| 0 <= i < n ==> #[trigger] insertion(rule, b, i, k).len() == 0,
    ensures
        rewritten(rule, b, n, base) == b.take(n),
    decreases n,
{
    if n > 0 {
        rewrite_without_sites_is_identity(rule, b, base, n - 1);
        let k = base + fresh_upto(rule, b, n - 1).len();
        assert(insertion(rule, b, n - 1, k).len() == 0);
        assert(rewritten(rule, b, n, base) =~= b.take(n));
    }
}

/// The rewrite grows the body by exactly what the rule emits, and the locals by
/// exactly the fresh locals it asks for, keeping the existing ones first.
pub proof fn rewrite_code_appends_locals(rule: Rule, c: CodeView, param_count: nat)
    ensures
        rewrite_code(rule, c, param_count).locals.len() == c.locals.len() + fresh_upto(
            rule,
            c.body,
            c.body.len() as int,
        ).len(),
        rewrite_code(rule, c, param_count).locals.take(c.locals.len() as int) == c.locals,
        rewrite_code(rule, c, param_count).body.len() >= c.body.len(),
{
    let r = rewrite_code(rule, c, param_count);
    assert(r.locals.take(c.locals.len() as int) =~= c.locals);
    if c.body.len() > 0 {
        rewrite_keeps_original_order(
            rule,
            c.body,
            param_count + c.locals.len(),
            c.body.len() - 1,
            c.body.len() as int,
        );
        lemma_rewritten_len_at_least(rule, c.body, c.body.len() as int, param_count + c.locals.len());
    }
}

proof fn lemma_rewritten_len_at_least(rule: Rule, b: Seq<Instr>, n: int, base: nat)
    requires
        0 <= n,
    ensures
        rewritten(rule, b, n, base).len() >= n,
    decreases n,
{
    if n > 0 {
        lemma_rewritten_len_at_least(rule, b, n - 1, base);
    }
}

// ---------------------------------------------------------------- selecting functions

/// Which functions a pass rewrites.
#[derive(Clone, Copy, Debug, PartialEq, Eq, Structural)]
pub struct Selection {
    /// Only named functions, and never the overflow helpers.
    pub named: bool,
    /// Skip names that start with `__`.
    pub skip_reserved: bool,
    /// Skip names that start with `std::`.
    pub skip_std: bool,
    /// Skip the start-up and runtime functions.
    pub skip_runtime: bool,
    /// Only functions that return a value.
    pub returning: bool,
}

pub open spec fn selects(s: Selection, f: FunctionView) -> bool {
    &&& s.returning ==> f.results.len() > 0
    &&& s.skip_runtime ==> !(f.name matches Some(n) && is_ini_func_name(n))
    &&& s.named ==> match f.name {
        Some(n) => {
            &&& s.skip_reserved ==> !starts_with(n, "__"@)
            &&& s.skip_std ==> !starts_with(n, "std::"@)
            &&& !is_overflow_helper_name(n)
        },
        None => false,
    }
}

/// A function with its body rewritten by `rule`; one without code stays as it is.
pub open spec fn apply_rule(rule: Rule, f: FunctionView) -> FunctionView {
    match f.code {
        Some(c) => FunctionView {
            name: f.name,
            params: f.params,
            results: f.results,
            import: f.import,
            code: Some(rewrite_code(rule, c, f.params.len())),
        },
        None => f,
    }
}

/// What a pass does to one function.
pub open spec fn pass_function(rule: Rule, s: Selection, f: FunctionView) -> FunctionView {
    if selects(s, f) {
        apply_rule(rule, f)
    } else {
        f
    }
}

/// A selected function's code is small enough and acceptable to the sanitizer.
pub open spec fn ready(san: Sanitizer, s: Selection, f: FunctionView) -> bool {
    selects(s, f) ==> match f.code {
        Some(c) => fits(c, f.params.len()) && rule_accepts(san, c.body),
        None => true,
    }
}

/// A pass changes neither the name, the type nor the import of a function, and leaves
/// the functions it does not select, and those without code, as they are.
pub proof fn pass_keeps_signature(rule: Rule, s: Selection, f: FunctionView)
    ensures
        pass_function(rule, s, f).name == f.name,
        pass_function(rule, s, f).params == f.params,
        pass_function(rule, s, f).results == f.results,
        pass_function(rule, s, f).import == f.import,
        pass_function(rule, s, f).code is Some == f.code is Some,
        !selects(s, f) ==> pass_function(rule, s, f) == f,
        f.code is None ==> pass_function(rule, s, f) == f,
{
}

/// Functions in the reserved `__` namespace and the overflow helpers are left alone
/// by every pass that skips reserved names.
pub proof fn reserved_names_untouched(rule: Rule, s: Selection, f: FunctionView)
    requires
        s.named,
        s.skip_reserved,
        f.name matches Some(n) && (starts_with(n, "__"@) || is_overflow_helper_name(n)),
    ensures
        pass_function(rule, s, f) == f,
{
}

pub fn selects_exec(s: Selection, f: &Function) -> (r: bool)
    ensures
        r == selects(s, f@),
{
    if s.returning && f.results.len() == 0 {
        return false;
    }
    if s.skip_runtime && is_string_in_ini_funcs(&f.name) {
        return false;
    }
    if s.named {
        match &f.name {
            Some(n) => {
                let n: &str = n.as_str();
                if s.skip_reserved && str_starts_with(n, "__") {
                    return false;
                }
                if s.skip_std && str_starts_with(n, "std::") {
                    return false;
                }
                if is_overflow_helper(n) {
                    return false;
                }
            },
            None => {
                return false;
            },
        }
    }
    true
}

fn fits_exec(c: &Code, param_count: usize) -> (r: bool)
    ensures
        r == fits(c@, param_count as nat),
{
    match param_count.checked_add(c.locals.len()) {
        None => false,
        Some(x) => match c.body.len().checked_mul(4) {
            None => false,
            Some(y) => x.checked_add(y).is_some(),
        },
    }
}

fn rule_accepts_exec(san: Sanitizer, b: &Vec<Instr>) -> (r: bool)
    ensures
        r == rule_accepts(san, b@),
{
    match san {
        Sanitizer::Truncation { .. } => {
            let n = b.len();
            n < 3 || b[n - 1] != Instr::Numeric(crate::ir::NumericOp::I32WrapI64)
        },
        _ => true,
    }
}

/// Whether a pass of sanitizer `san` over the functions that `s` selects may run:
/// every selected function with code is small enough and acceptable to it.
pub fn check_ready(module: &Module, san: Sanitizer, s: Selection) -> (r: bool)
    ensures
        r == forall|j: int| 0 <= j < module@.functions.len() ==> ready(san, s, #[trigger] module@.functions[j]),
{
    let n = module.functions.len();
    let mut j: usize = 0;
    while j < n
        invariant
            n == module@.functions.len(),
            j <= n,
            forall|k: int| 0 <= k < j ==> ready(san, s, #[trigger] module@.functions[k]),
        decreases n - j,
    {
        let f = &module.functions[j];
        assert(module@.functions[j as int] == f@);
        if selects_exec(s, f) {
            if let Some(c) = &f.code {
                if !fits_exec(c, f.params.len()) || !rule_accepts_exec(san, &c.body) {
                    return false;
                }
            }
        }
        j = j + 1;
    }
    true
}

/// Applies `rule` to every function that `s` selects.
pub fn instrument_functions(module: &mut Module, rule: Rule, s: Selection)
    requires
        forall|j: int|
            0 <= j < old(module)@.functions.len() ==> ready(rule.sanitizer, s, #[trigger] old(module)@.functions[j]),
    ensures
        final(module)@.functions == old(module)@.functions.map_values(
            |f: FunctionView| pass_function(rule, s, f),
        ),
        final(module)@.globals == old(module)@.globals,
{
    let ghost old_fns = module.functions@;
    assert forall|k: int| 0 <= k < old_fns.len() implies ready(rule.sanitizer, s, #[trigger] old_fns[k]@) by {
        assert(old(module)@.functions[k] == old_fns[k]@);
    }
    let n = module.functions.len();
    let mut j: usize = 0;
    while j < n
        invariant
            n == old_fns.len(),
            module.functions@.len() == n,
            j <= n,
            module.globals == old(module).globals,
            forall|k: int| 0 <= k < n ==> ready(rule.sanitizer, s, #[trigger] old_fns[k]@),
            forall|k: int| 0 <= k < j ==> #[trigger] module.functions@[k]@ == pass_function(rule, s, old_fns[k]@),
            forall|k: int| j <= k < n ==> #[trigger] module.functions@[k] == old_fns[k],
        decreases n - j,
    {
        assert(module.functions@[j as int] == old_fns[j as int]);
        assert(ready(rule.sanitizer, s, old_fns[j as int]@));
        if selects_exec(s, &module.functions[j]) {
            let f = &mut module.functions[j];
            let pc = f.params.len();
            if let Some(code) = &mut f.code {
                rewrite_body(rule, code, pc);
            }
        }
        j = j + 1;
    }
    assert(module@.functions =~= old(module)@.functions.map_values(
        |f: FunctionView| pass_function(rule, s, f),
    ));
}

} // verus!
