//! Function names: which functions a pass leaves alone.
//!
//! Names are compared by their UTF-8 bytes, as `str` comparison and
//! `str::strip_prefix` do.

use vstd::prelude::*;
use vstd::string::StringSliceAdditionalSpecFns;
use vstd::utf8::encode_utf8;

verus! {

/// `prefix`'s UTF-8 encoding begins `name`'s.
pub open spec fn starts_with(name: Seq<char>, prefix: Seq<char>) -> bool {
    let n = encode_utf8(name);
    let p = encode_utf8(prefix);
    p.len() <= n.len() && n.take(p.len() as int) == p
}

/// The start-up and libc runtime functions that some passes never touch.
pub open spec fn is_ini_func_name(s: Seq<char>) -> bool {
    ||| s == "__wasm_call_ctors"@
    ||| s == "_start"@
    ||| s == "emscripten_stack_init"@
    ||| s == "emscripten_stack_get_free"@
    ||| s == "emscripten_stack_get_base"@
    ||| s == "emscripten_stack_get_end"@
    ||| s == "emscripten_stack_get_current"@
    ||| s == "__memcpy"@
    ||| s == "__memset"@
    ||| s == "__fwritex"@
    ||| s == "__stdio_write"@
    ||| s == "fmt_fp"@
    ||| s == "__ashlti3"@
    ||| s == "__addtf3"@
}

/// The overflow-checking helpers that `signed_integer_overflow` links in.
pub open spec fn is_overflow_helper_name(s: Seq<char>) -> bool {
    ||| s == "is_i32_sign_add_overflow"@
    ||| s == "is_i64_sign_add_overflow"@
    ||| s == "is_i32_sign_sub_overflow"@
    ||| s == "is_i64_sign_sub_overflow"@
    ||| s == "i32_is_mul_overflow"@
    ||| s == "i64_is_mul_overflow"@
}

fn bytes_eq(a: &[u8], b: &[u8]) -> (r: bool)
    ensures
        r == (a@ == b@),
{
    if a.len() != b.len() {
        return false;
    }
    let mut i: usize = 0;
    while i < a.len()
        invariant
            a@.len() == b@.len(),
            i <= a@.len(),
            forall|j: int| 0 <= j < i ==> a@[j] == b@[j],
        decreases a@.len() - i,
    {
        if a[i] != b[i] {
            return false;
        }
        i = i + 1;
    }
    assert(a@ =~= b@);
    true
}

/// String equality, by the strings' UTF-8 bytes.
pub fn str_eq(a: &str, b: &str) -> (r: bool)
    ensures
        r == (a@ == b@),
{
    let r = bytes_eq(a.as_bytes(), b.as_bytes());
    proof {
        if r {
            vstd::utf8::encode_utf8_decode_utf8(a@);
            vstd::utf8::encode_utf8_decode_utf8(b@);
        }
    }
    r
}

/// Whether `prefix`'s bytes begin `s`'s, as `str::strip_prefix` tests it.
pub fn str_starts_with(s: &str, prefix: &str) -> (r: bool)
    ensures
        r == starts_with(s@, prefix@),
{
    let sb = s.as_bytes();
    let pb = prefix.as_bytes();
    if pb.len() > sb.len() {
        return false;
    }
    let mut i: usize = 0;
    while i < pb.len()
        invariant
            pb@.len() <= sb@.len(),
            i <= pb@.len(),
            sb@ == encode_utf8(s@),
            pb@ == encode_utf8(prefix@),
            forall|j: int| 0 <= j < i ==> sb@[j] == pb@[j],
        decreases pb@.len() - i,
    {
        if sb[i] != pb[i] {
            assert(sb@.take(pb@.len() as int)[i as int] != pb@[i as int]);
            return false;
        }
        i = i + 1;
    }
    assert(sb@.take(pb@.len() as int) =~= pb@);
    true
}

/// Whether the name is one of the start-up and runtime functions.
pub fn is_string_in_ini_funcs(option_string: &Option<String>) -> (r: bool)
    ensures
        r == match option_string {
            Some(s) => is_ini_func_name(s@),
            None => false,
        },
{
    if let Some(string_value) = option_string {
        let s: &str = string_value.as_str();
        return str_eq(s, "__wasm_call_ctors") || str_eq(s, "_start") || str_eq(
            s,
            "emscripten_stack_init",
        ) || str_eq(s, "emscripten_stack_get_free") || str_eq(s, "emscripten_stack_get_base")
            || str_eq(s, "emscripten_stack_get_end") || str_eq(s, "emscripten_stack_get_current")
            || str_eq(s, "__memcpy") || str_eq(s, "__memset") || str_eq(s, "__fwritex") || str_eq(
            s,
            "__stdio_write",
        ) || str_eq(s, "fmt_fp") || str_eq(s, "__ashlti3") || str_eq(s, "__addtf3");
    }
    false
}

/// Whether the name is one of the overflow-checking helpers.
pub fn is_overflow_helper(s: &str) -> (r: bool)
    ensures
        r == is_overflow_helper_name(s@),
{
    str_eq(s, "is_i32_sign_add_overflow") || str_eq(s, "is_i64_sign_add_overflow") || str_eq(
        s,
        "is_i32_sign_sub_overflow",
    ) || str_eq(s, "is_i64_sign_sub_overflow") || str_eq(s, "i32_is_mul_overflow") || str_eq(
        s,
        "i64_is_mul_overflow",
    )
}

} // verus!
