//! Adding functions to a module: copies of helper functions taken from another
//! module, and the WASI `proc_exit` import.

use vstd::prelude::*;
use crate::ir::{
    copy_vec, find_func_by_name, first_named, lemma_first_named_bounds, Code, Function, FunctionView,
    Import, Module, ModuleView, ValType,
};
use crate::names::{is_overflow_helper_name, str_eq};
use crate::passes::{module_ready, passed, user_code};
use crate::rewrite::instrument_functions;
use crate::rules::{OverflowHelpers, Rule, Sanitizer};

verus! {

/// The copy of `f` that `copy_function` adds: its type, locals and body under `name`.
pub open spec fn linked_copy(f: FunctionView, name: Seq<char>) -> FunctionView {
    FunctionView { name: Some(name), params: f.params, results: f.results, import: None, code: f.code }
}

/// `source` has a function named `name`, and the first one has code.
pub open spec fn provides(source: ModuleView, name: Seq<char>) -> bool {
    match first_named(source.functions, name) {
        Some(i) => source.functions[i].code is Some,
        None => false,
    }
}

/// The copy of the first function of `source` named `name`.
pub open spec fn copy_of(source: ModuleView, name: Seq<char>) -> FunctionView {
    match first_named(source.functions, name) {
        Some(i) => linked_copy(source.functions[i], name),
        None => linked_copy(source.functions[0], name),
    }
}

/// Appends to `target_module` a copy of the first function of `source` named
/// `func_name`, and returns the copy's index; `Err` when that function is imported.
pub fn copy_function(func_name: &str, target_module: &mut Module, source: &Module) -> (r: Result<usize, ()>)
    requires
        first_named(source@.functions, func_name@) is Some,
    ensures
        provides(source@, func_name@) ==> {
            &&& r matches Ok(k) && k == old(target_module)@.functions.len()
            &&& final(target_module)@.functions == old(target_module)@.functions.push(
                copy_of(source@, func_name@),
            )
        },
        !provides(source@, func_name@) ==> r == Err::<usize, ()>(()) && final(target_module)@
            == old(target_module)@,
        final(target_module)@.globals == old(target_module)@.globals,
{
    proof {
        lemma_first_named_bounds(source@.functions, func_name@);
    }
    let i = match find_func_by_name(func_name, &source.functions) {
        Some(i) => i,
        None => {
            return Err(());
        },
    };
    let f = &source.functions[i];
    assert(source@.functions[i as int] == f@);
    match &f.code {
        Some(code) => {
            let copy = Function {
                name: Some(func_name.to_owned()),
                params: copy_vec(&f.params),
                results: copy_vec(&f.results),
                import: None,
                code: Some(Code { locals: copy_vec(&code.locals), body: copy_vec(&code.body) }),
            };
            let idx = target_module.functions.len();
            target_module.functions.push(copy);
            assert(target_module@.functions =~= old(target_module)@.functions.push(
                copy_of(source@, func_name@),
            ));
            Ok(idx)
        },
        None => Err(()),
    }
}

/// The helper indices when the six helpers follow `n` functions.
pub open spec fn helpers_from(n: nat) -> OverflowHelpers {
    OverflowHelpers {
        add32: n as usize,
        add64: (n + 1) as usize,
        sub32: (n + 2) as usize,
        sub64: (n + 3) as usize,
        mul32: (n + 4) as usize,
        mul64: (n + 5) as usize,
    }
}

/// Both helper modules provide what `signed_integer_overflow` copies from them.
pub open spec fn helpers_available(add_sub: ModuleView, mul: ModuleView) -> bool {
    &&& provides(add_sub, "is_i32_sign_add_overflow"@)
    &&& provides(add_sub, "is_i64_sign_add_overflow"@)
    &&& provides(add_sub, "is_i32_sign_sub_overflow"@)
    &&& provides(add_sub, "is_i64_sign_sub_overflow"@)
    &&& provides(mul, "i32_is_mul_overflow"@)
    &&& provides(mul, "i64_is_mul_overflow"@)
}

/// The functions with the six helpers appended.
pub open spec fn with_helpers(fs: Seq<FunctionView>, add_sub: ModuleView, mul: ModuleView) -> Seq<FunctionView> {
    fs + seq![
        copy_of(add_sub, "is_i32_sign_add_overflow"@),
        copy_of(add_sub, "is_i64_sign_add_overflow"@),
        copy_of(add_sub, "is_i32_sign_sub_overflow"@),
        copy_of(add_sub, "is_i64_sign_sub_overflow"@),
        copy_of(mul, "i32_is_mul_overflow"@),
        copy_of(mul, "i64_is_mul_overflow"@),
    ]
}

/// The calls that `signed_integer_overflow` emits go to the helper copies: the
/// module's functions come first, unchanged, then the six helpers at the indices
/// `helpers_from` gives.
pub proof fn helpers_point_at_copies(fs: Seq<FunctionView>, add_sub: ModuleView, mul: ModuleView)
    ensures
        ({
            let h = helpers_from(fs.len());
            let all = with_helpers(fs, add_sub, mul);
            &&& all.len() == fs.len() + 6
            &&& all.take(fs.len() as int) == fs
            &&& fs.len() + 6 <= usize::MAX ==> {
                &&& all[h.add32 as int] == copy_of(add_sub, "is_i32_sign_add_overflow"@)
                &&& all[h.add64 as int] == copy_of(add_sub, "is_i64_sign_add_overflow"@)
                &&& all[h.sub32 as int] == copy_of(add_sub, "is_i32_sign_sub_overflow"@)
                &&& all[h.sub64 as int] == copy_of(add_sub, "is_i64_sign_sub_overflow"@)
                &&& all[h.mul32 as int] == copy_of(mul, "i32_is_mul_overflow"@)
                &&& all[h.mul64 as int] == copy_of(mul, "i64_is_mul_overflow"@)
            }
        }),
{
    let all = with_helpers(fs, add_sub, mul);
    assert(all.take(fs.len() as int) =~= fs);
}

fn link_helper(name: &str, module: &mut Module, source: &Module) -> (idx: usize)
    requires
        provides(source@, name@),
    ensures
        idx == old(module)@.functions.len(),
        final(module)@.functions == old(module)@.functions.push(copy_of(source@, name@)),
        final(module)@.globals == old(module)@.globals,
{
    match copy_function(name, module, source) {
        Ok(idx) => idx,
        Err(_) => 0,
    }
}

/// The rule of `signed_integer_overflow` on functions `fs`: the helpers come after
/// the functions and the `proc_exit` import, and failed checks exit with status 19.
pub open spec fn overflow_rule(fs: Seq<FunctionView>) -> Rule {
    Rule {
        sanitizer: Sanitizer::SignedOverflow { helpers: helpers_from(with_proc_exit(fs).len()) },
        proc_exit: proc_exit_index(fs) as usize,
    }
}

/// Makes sure the module imports `proc_exit`, links in the overflow-checking
/// helpers, then checks every signed addition, subtraction and multiplication of
/// locals with them, and narrow (8 and 16 bit) products and sums by range; a failed
/// check exits with status 19.
pub fn signed_integer_overflow(module: &mut Module, add_sub_helpers: &Module, mul_helpers: &Module)
    requires
        helpers_available(add_sub_helpers@, mul_helpers@),
        old(module)@.functions.len() + 7 <= usize::MAX,
        module_ready(
            Sanitizer::SignedOverflow { helpers: helpers_from(old(module)@.functions.len()) },
            user_code(),
            old(module)@.functions,
        ),
    ensures
        final(module)@.functions == passed(
            overflow_rule(old(module)@.functions),
            user_code(),
            with_helpers(with_proc_exit(old(module)@.functions), add_sub_helpers@, mul_helpers@),
        ),
        final(module)@.globals == old(module)@.globals,
{
    let ghost fs0 = module@.functions;
    proof {
        lemma_with_proc_exit(fs0);
    }
    let pe = add_proc_exit(module);
    let ghost fsp = module@.functions;
    let add32 = link_helper("is_i32_sign_add_overflow", module, add_sub_helpers);
    let add64 = link_helper("is_i64_sign_add_overflow", module, add_sub_helpers);
    let sub32 = link_helper("is_i32_sign_sub_overflow", module, add_sub_helpers);
    let sub64 = link_helper("is_i64_sign_sub_overflow", module, add_sub_helpers);
    let mul32 = link_helper("i32_is_mul_overflow", module, mul_helpers);
    let mul64 = link_helper("i64_is_mul_overflow", module, mul_helpers);
    let helpers = OverflowHelpers { add32, add64, sub32, sub64, mul32, mul64 };
    let rule = Rule { sanitizer: Sanitizer::SignedOverflow { helpers }, proc_exit: pe };
    let ghost fs1 = with_helpers(fsp, add_sub_helpers@, mul_helpers@);
    assert(module@.functions =~= fs1);
    assert(rule == overflow_rule(fs0));
    assert forall|j: int| 0 <= j < fs1.len() implies crate::rewrite::ready(
        rule.sanitizer,
        user_code(),
        #[trigger] fs1[j],
    ) by {
        if j >= fsp.len() {
            assert(fs1[j].name matches Some(n) && is_overflow_helper_name(n));
        } else if j >= fs0.len() {
            assert(fs1[j] == proc_exit_import());
        } else {
            assert(fs1[j] == fs0[j]);
            assert(crate::rewrite::ready(
                Sanitizer::SignedOverflow { helpers: helpers_from(fs0.len()) },
                user_code(),
                fs0[j],
            ));
        }
    }
    let s = crate::passes::user_code_selection();
    instrument_functions(module, rule, s);
}

// ---------------------------------------------------------------- proc_exit

pub open spec fn imports_proc_exit(f: FunctionView) -> bool {
    f.import == Some(("wasi_snapshot_preview1"@, "proc_exit"@))
}

/// The first of the first `n` functions that imports WASI `proc_exit`.
pub open spec fn first_proc_exit_in(fs: Seq<FunctionView>, n: int) -> Option<int>
    decreases n,
{
    if n <= 0 {
        None
    } else {
        match first_proc_exit_in(fs, n - 1) {
            Some(i) => Some(i),
            None => if imports_proc_exit(fs[n - 1]) {
                Some(n - 1)
            } else {
                None
            },
        }
    }
}

proof fn lemma_first_proc_exit_stable(fs: Seq<FunctionView>, n: int, m: int)
    requires
        n <= m,
        first_proc_exit_in(fs, n) is Some,
    ensures
        first_proc_exit_in(fs, m) == first_proc_exit_in(fs, n),
    decreases m - n,
{
    if n < m {
        lemma_first_proc_exit_stable(fs, n, m - 1);
    }
}

/// The import that `add_proc_exit` adds: `(i32) -> i32`, named `__wasi_proc_exit`.
pub open spec fn proc_exit_import() -> FunctionView {
    FunctionView {
        name: Some("__wasi_proc_exit"@),
        params: seq![ValType::I32],
        results: seq![ValType::I32],
        import: Some(("wasi_snapshot_preview1"@, "proc_exit"@)),
        code: None,
    }
}

/// Adding `proc_exit` is idempotent: once it was added, the next call finds the
/// import just added, at the end of the functions, and changes nothing.
pub proof fn proc_exit_found_after_adding(fs: Seq<FunctionView>)
    requires
        first_proc_exit_in(fs, fs.len() as int) is None,
    ensures
        first_proc_exit_in(fs.push(proc_exit_import()), fs.len() + 1int) == Some(fs.len() as int),
{
    let gs = fs.push(proc_exit_import());
    lemma_first_proc_exit_prefix(fs, gs, fs.len() as int);
}

proof fn lemma_first_proc_exit_prefix(fs: Seq<FunctionView>, gs: Seq<FunctionView>, n: int)
    requires
        0 <= n <= fs.len(),
        n <= gs.len(),
        forall|i: int| 0 <= i < n ==> gs[i] == fs[i],
    ensures
        first_proc_exit_in(gs, n) == first_proc_exit_in(fs, n),
    decreases n,
{
    if n > 0 {
        lemma_first_proc_exit_prefix(fs, gs, n - 1);
    }
}

/// The index of the function importing WASI `proc_exit`, once it is there: the
/// first one that imports it, or the import appended after the functions.
pub open spec fn proc_exit_index(fs: Seq<FunctionView>) -> int {
    match first_proc_exit_in(fs, fs.len() as int) {
        Some(i) => i,
        None => fs.len() as int,
    }
}

/// The functions with the `proc_exit` import appended, unless one is there already.
pub open spec fn with_proc_exit(fs: Seq<FunctionView>) -> Seq<FunctionView> {
    if first_proc_exit_in(fs, fs.len() as int) is Some {
        fs
    } else {
        fs.push(proc_exit_import())
    }
}

/// The functions that `with_proc_exit` keeps come first and unchanged, and the one
/// it may add has no code.
pub proof fn lemma_with_proc_exit(fs: Seq<FunctionView>)
    ensures
        with_proc_exit(fs).len() >= fs.len(),
        with_proc_exit(fs).len() <= fs.len() + 1,
        forall|j: int| 0 <= j < fs.len() ==> #[trigger] with_proc_exit(fs)[j] == fs[j],
        forall|j: int| fs.len() <= j < with_proc_exit(fs).len() ==> #[trigger] with_proc_exit(fs)[j]
            == proc_exit_import(),
        0 <= proc_exit_index(fs) < with_proc_exit(fs).len(),
        imports_proc_exit(with_proc_exit(fs)[proc_exit_index(fs)]),
{
    lemma_first_proc_exit_in_bounds(fs, fs.len() as int);
}

proof fn lemma_first_proc_exit_in_bounds(fs: Seq<FunctionView>, n: int)
    ensures
        first_proc_exit_in(fs, n) matches Some(i) ==> 0 <= i < n && imports_proc_exit(fs[i]),
    decreases n,
{
    if n > 0 {
        lemma_first_proc_exit_in_bounds(fs, n - 1);
    }
}

/// The index of the function that imports WASI `proc_exit`, which is added when
/// the module does not import it yet.
pub fn add_proc_exit(module: &mut Module) -> (idx: usize)
    ensures
        idx == proc_exit_index(old(module)@.functions),
        final(module)@.functions == with_proc_exit(old(module)@.functions),
        final(module)@.globals == old(module)@.globals,
{
    let ghost fs = module@.functions;
    let n = module.functions.len();
    let mut i: usize = 0;
    while i < n
        invariant
            n == fs.len(),
            module@ == old(module)@,
            fs == old(module)@.functions,
            i <= n,
            first_proc_exit_in(fs, i as int) is None,
        decreases n - i,
    {
        let hit = match &module.functions[i].import {
            Some(imp) => str_eq(imp.module.as_str(), "wasi_snapshot_preview1") && str_eq(
                imp.name.as_str(),
                "proc_exit",
            ),
            None => false,
        };
        assert(module.functions@[i as int]@ == fs[i as int]);
        if hit {
            proof {
                lemma_first_proc_exit_stable(fs, i + 1, n as int);
            }
            return i;
        }
        i = i + 1;
    }
    let f = Function {
        name: Some("__wasi_proc_exit".to_owned()),
        params: vec![ValType::I32],
        results: vec![ValType::I32],
        import: Some(
            Import { module: "wasi_snapshot_preview1".to_owned(), name: "proc_exit".to_owned() },
        ),
        code: None,
    };
    assert(f@.params =~= seq![ValType::I32]);
    assert(f@.results =~= seq![ValType::I32]);
    assert(f@ == proc_exit_import());
    module.functions.push(f);
    assert(module@.functions =~= fs.push(proc_exit_import()));
    n
}

fn provides_exec(source: &Module, name: &str) -> (r: bool)
    ensures
        r == provides(source@, name@),
{
    proof {
        lemma_first_named_bounds(source@.functions, name@);
    }
    match find_func_by_name(name, &source.functions) {
        Some(i) => {
            assert(source@.functions[i as int] == source.functions@[i as int]@);
            source.functions[i].code.is_some()
        },
        None => false,
    }
}

/// Whether `signed_integer_overflow(module, add_sub_helpers, mul_helpers)` may run:
/// the six helpers are there with code, and every function it rewrites is small
/// enough.
pub fn check_signed_overflow_ready(module: &Module, add_sub_helpers: &Module, mul_helpers: &Module) -> (r: bool)
    ensures
        r == (helpers_available(add_sub_helpers@, mul_helpers@) && module@.functions.len() + 7
            <= usize::MAX && module_ready(
            Sanitizer::SignedOverflow { helpers: helpers_from(module@.functions.len()) },
            user_code(),
            module@.functions,
        )),
{
    let ok = provides_exec(add_sub_helpers, "is_i32_sign_add_overflow")
        && provides_exec(add_sub_helpers, "is_i64_sign_add_overflow")
        && provides_exec(add_sub_helpers, "is_i32_sign_sub_overflow")
        && provides_exec(add_sub_helpers, "is_i64_sign_sub_overflow")
        && provides_exec(mul_helpers, "i32_is_mul_overflow")
        && provides_exec(mul_helpers, "i64_is_mul_overflow");
    if !ok {
        return false;
    }
    let n = module.functions.len();
    if n > usize::MAX - 7 {
        return false;
    }
    let helpers = OverflowHelpers {
        add32: n,
        add64: n + 1,
        sub32: n + 2,
        sub64: n + 3,
        mul32: n + 4,
        mul64: n + 5,
    };
    crate::rewrite::check_ready(module, Sanitizer::SignedOverflow { helpers }, crate::passes::user_code_selection())
}

} // verus!
