//! Sanitizer instrumentation of WebAssembly functions.
//!
//! Each pass rewrites the instruction lists of the functions of a module so that
//! an undefined behaviour detected at run time (a null store, an integer overflow,
//! a lossy truncation, a clobbered canary, ...) ends the program through WASI
//! `proc_exit` with the exit status of the sanitizer: 11 null reference, 12 and 13
//! signed and unsigned truncation, 14 float cast overflow, 15 missing return,
//! 16 sign change, 17 shift, 18 unsigned and 19 signed overflow, 20 float division
//! by zero, 21 heap canary, 22 stack canary.
//! The module model lives in `ir`; loading and saving binaries is left to callers.

pub mod ir;
pub mod names;
pub mod rules;
pub mod emit;
pub mod rewrite;
pub mod passes;
pub mod linking;
pub mod canary;
pub mod heap;
pub mod semantics;
