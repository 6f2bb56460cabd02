//! A model of the parts of a WebAssembly module that the passes read and write.
//!
//! Instructions that no pass inspects are carried as `Instr::Opaque`, a handle
//! that whoever built the module resolves again when writing it back.
//! Floating-point constants are held by their IEEE-754 bit patterns.

use vstd::prelude::*;

verus! {

#[derive(Clone, Copy, Debug, PartialEq, Eq, Structural)]
pub enum ValType {
    I32,
    I64,
    F32,
    F64,
}

/// A constant operand; `F32` and `F64` hold the bit patterns of the floats.
#[derive(Clone, Copy, Debug, PartialEq, Eq, Structural)]
pub enum Val {
    I32(i32),
    I64(i64),
    F32(u32),
    F64(u64),
}

#[derive(Clone, Copy, Debug, PartialEq, Eq, Structural)]
/// `local.get`, `local.set` (here `Put`) and `local.tee`.
pub enum LocalOp {
    Get,
    Put,
    Tee,
}

#[derive(Clone, Copy, Debug, PartialEq, Eq, Structural)]
/// `global.get` and `global.set` (here `Put`).
pub enum GlobalOp {
    Get,
    Put,
}

#[derive(Clone, Copy, Debug, PartialEq, Eq, Structural)]
pub struct Memarg {
    pub alignment_exp: u8,
    pub offset: u32,
}

#[derive(Clone, Copy, Debug, PartialEq, Eq, Structural)]
pub enum LoadOp {
    I32Load,
    I64Load,
    F32Load,
    F64Load,
    I32Load8S,
    I32Load8U,
    I32Load16S,
    I32Load16U,
    I64Load8S,
    I64Load8U,
    I64Load16S,
    I64Load16U,
    I64Load32S,
    I64Load32U,
}

#[derive(Clone, Copy, Debug, PartialEq, Eq, Structural)]
pub enum StoreOp {
    I32Store,
    I64Store,
    F32Store,
    F64Store,
    I32Store8,
    I32Store16,
    I64Store8,
    I64Store16,
    I64Store32,
}

/// The numeric operators that the passes look for or emit.
#[derive(Clone, Copy, Debug, PartialEq, Eq, Structural)]
pub enum NumericOp {
    I32Eqz,
    I32Eq,
    I32Ne,
    I32LtS,
    I32GtS,
    I32GeS,
    I32GeU,
    I64Eqz,
    I64Eq,
    I64LtS,
    I64GeS,
    I64GeU,
    F32Ne,
    F64Eq,
    I32Add,
    I32Sub,
    I32Mul,
    I32And,
    I32Or,
    I32Shl,
    I32ShrS,
    I64Add,
    I64Sub,
    I64Mul,
    I64Shl,
    I64ShrS,
    F32Div,
    I32WrapI64,
    I32TruncF32S,
    I32TruncF64S,
    I64ExtendI32S,
    I64ExtendI32U,
    F32DemoteF64,
    F64PromoteF32,
}

/// The result type of a block, `None` for a block that yields nothing.
#[derive(Clone, Copy, Debug, PartialEq, Eq, Structural)]
pub struct BlockType(pub Option<ValType>);

#[derive(Clone, Copy, Debug, PartialEq, Eq, Structural)]
pub enum Instr {
    Unreachable,
    Block(BlockType),
    Loop(BlockType),
    If(BlockType),
    Else,
    End,
    Br(u32),
    BrIf(u32),
    Return,
    Call(usize),
    Local(LocalOp, usize),
    Global(GlobalOp, usize),
    Load(LoadOp, Memarg),
    Store(StoreOp, Memarg),
    Const(Val),
    Numeric(NumericOp),
    /// An instruction that no pass inspects, by a handle of the module's builder.
    Opaque(u64),
}

pub struct Import {
    pub module: String,
    pub name: String,
}

pub struct Code {
    pub locals: Vec<ValType>,
    pub body: Vec<Instr>,
}

pub struct Function {
    pub name: Option<String>,
    pub params: Vec<ValType>,
    pub results: Vec<ValType>,
    pub import: Option<Import>,
    pub code: Option<Code>,
}

pub struct Global {
    pub ty: ValType,
    pub mutable: bool,
    pub init: Vec<Instr>,
}

pub struct Module {
    pub functions: Vec<Function>,
    pub globals: Vec<Global>,
}

pub struct CodeView {
    pub locals: Seq<ValType>,
    pub body: Seq<Instr>,
}

pub struct FunctionView {
    pub name: Option<Seq<char>>,
    pub params: Seq<ValType>,
    pub results: Seq<ValType>,
    pub import: Option<(Seq<char>, Seq<char>)>,
    pub code: Option<CodeView>,
}

pub struct GlobalView {
    pub ty: ValType,
    pub mutable: bool,
    pub init: Seq<Instr>,
}

pub struct ModuleView {
    pub functions: Seq<FunctionView>,
    pub globals: Seq<GlobalView>,
}

impl View for Code {
    type V = CodeView;

    open spec fn view(&self) -> CodeView {
        CodeView { locals: self.locals@, body: self.body@ }
    }
}

impl View for Function {
    type V = FunctionView;

    open spec fn view(&self) -> FunctionView {
        FunctionView {
            name: match &self.name {
                Some(n) => Some(n@),
                None => None,
            },
            params: self.params@,
            results: self.results@,
            import: match &self.import {
                Some(i) => Some((i.module@, i.name@)),
                None => None,
            },
            code: match &self.code {
                Some(c) => Some(c@),
                None => None,
            },
        }
    }
}

impl View for Global {
    type V = GlobalView;

    open spec fn view(&self) -> GlobalView {
        GlobalView { ty: self.ty, mutable: self.mutable, init: self.init@ }
    }
}

impl View for Module {
    type V = ModuleView;

    open spec fn view(&self) -> ModuleView {
        ModuleView {
            functions: self.functions@.map_values(|f: Function| f@),
            globals: self.globals@.map_values(|g: Global| g@),
        }
    }
}

/// Appends a fresh local of type `ty` and returns its index: locals are numbered
/// after the parameters.
pub fn add_fresh_local(locals: &mut Vec<ValType>, param_count: usize, ty: ValType) -> (idx: usize)
    requires
        param_count + old(locals)@.len() <= usize::MAX,
    ensures
        idx == param_count + old(locals)@.len(),
        final(locals)@ == old(locals)@.push(ty),
{
    let new_idx = param_count + locals.len();
    locals.push(ty);
    new_idx
}

/// A copy of a vector of plain values.
pub fn copy_vec<T: Copy>(v: &Vec<T>) -> (r: Vec<T>)
    ensures
        r@ == v@,
{
    let mut r: Vec<T> = Vec::new();
    let mut i: usize = 0;
    while i < v.len()
        invariant
            i <= v@.len(),
            r@ == v@.take(i as int),
        decreases v@.len() - i,
    {
        r.push(v[i]);
        i = i + 1;
        assert(r@ =~= v@.take(i as int));
    }
    assert(v@.take(v@.len() as int) =~= v@);
    r
}

/// The index of the first of the first `n` functions that is named `name`.
pub open spec fn first_named_in(fs: Seq<FunctionView>, name: Seq<char>, n: int) -> Option<int>
    decreases n,
{
    if n <= 0 {
        None
    } else {
        match first_named_in(fs, name, n - 1) {
            Some(i) => Some(i),
            None => if fs[n - 1].name == Some(name) {
                Some(n - 1)
            } else {
                None
            },
        }
    }
}

/// The index of the first function named `name`.
pub open spec fn first_named(fs: Seq<FunctionView>, name: Seq<char>) -> Option<int> {
    first_named_in(fs, name, fs.len() as int)
}

proof fn lemma_first_named_in_bounds(fs: Seq<FunctionView>, name: Seq<char>, n: int)
    ensures
        first_named_in(fs, name, n) matches Some(i) ==> 0 <= i < n && fs[i].name == Some(name),
    decreases n,
{
    if n > 0 {
        lemma_first_named_in_bounds(fs, name, n - 1);
    }
}

/// The first function named `name` is one of the functions, and is so named.
pub proof fn lemma_first_named_bounds(fs: Seq<FunctionView>, name: Seq<char>)
    ensures
        first_named(fs, name) matches Some(i) ==> 0 <= i < fs.len() && fs[i].name == Some(name),
{
    lemma_first_named_in_bounds(fs, name, fs.len() as int);
}

/// The two sequences name their functions alike.
pub open spec fn same_names(fs: Seq<FunctionView>, gs: Seq<FunctionView>) -> bool {
    fs.len() == gs.len() && forall|j: int| 0 <= j < fs.len() ==> #[trigger] fs[j].name == gs[j].name
}

proof fn lemma_first_named_in_same_names(fs: Seq<FunctionView>, gs: Seq<FunctionView>, name: Seq<char>, n: int)
    requires
        same_names(fs, gs),
        n <= fs.len(),
    ensures
        first_named_in(fs, name, n) == first_named_in(gs, name, n),
    decreases n,
{
    if n > 0 {
        lemma_first_named_in_same_names(fs, gs, name, n - 1);
        assert(fs[n - 1].name == gs[n - 1].name);
    }
}

/// Lookups by name only depend on the names.
pub proof fn lemma_first_named_same_names(fs: Seq<FunctionView>, gs: Seq<FunctionView>, name: Seq<char>)
    requires
        same_names(fs, gs),
    ensures
        first_named(fs, name) == first_named(gs, name),
{
    lemma_first_named_in_same_names(fs, gs, name, fs.len() as int);
}

proof fn lemma_first_named_stable(fs: Seq<FunctionView>, name: Seq<char>, n: int, m: int)
    requires
        n <= m,
        first_named_in(fs, name, n) is Some,
    ensures
        first_named_in(fs, name, m) == first_named_in(fs, name, n),
    decreases m - n,
{
    if n < m {
        lemma_first_named_stable(fs, name, n, m - 1);
    }
}

proof fn lemma_first_named_in_prefix(fs: Seq<FunctionView>, gs: Seq<FunctionView>, name: Seq<char>, n: int)
    requires
        n <= fs.len(),
        n <= gs.len(),
        forall|j: int| 0 <= j < n ==> #[trigger] gs[j] == fs[j],
    ensures
        first_named_in(gs, name, n) == first_named_in(fs, name, n),
    decreases n,
{
    if n > 0 {
        lemma_first_named_in_prefix(fs, gs, name, n - 1);
    }
}

/// Appending a function under another name does not change a lookup by `name`.
pub proof fn lemma_first_named_push(fs: Seq<FunctionView>, f: FunctionView, name: Seq<char>)
    requires
        f.name != Some(name),
    ensures
        first_named(fs.push(f), name) == first_named(fs, name),
{
    let gs = fs.push(f);
    lemma_first_named_in_prefix(fs, gs, name, fs.len() as int);
}

/// The index of the first function named `name`, or `None`.
pub fn find_func_by_name(name: &str, functions: &Vec<Function>) -> (r: Option<usize>)
    ensures
        r matches Some(i) ==> first_named(functions@.map_values(|f: Function| f@), name@) == Some(
            i as int,
        ),
        r is None ==> first_named(functions@.map_values(|f: Function| f@), name@) is None,
{
    let ghost fs = functions@.map_values(|f: Function| f@);
    let mut i: usize = 0;
    while i < functions.len()
        invariant
            i <= functions@.len(),
            fs == functions@.map_values(|f: Function| f@),
            first_named_in(fs, name@, i as int) is None,
        decreases functions@.len() - i,
    {
        let hit = match &functions[i].name {
            Some(n) => crate::names::str_eq(n.as_str(), name),
            None => false,
        };
        if hit {
            assert(fs[i as int].name == Some(name@));
            proof {
                lemma_first_named_stable(fs, name@, i + 1, fs.len() as int);
            }
            return Some(i);
        }
        assert(fs[i as int].name != Some(name@));
        i = i + 1;
    }
    None
}

/// The function with `prefix` put in front of its body; one without code is unchanged.
pub open spec fn with_prefix(f: FunctionView, prefix: Seq<Instr>) -> FunctionView {
    match f.code {
        Some(c) => FunctionView {
            code: Some(CodeView { locals: c.locals, body: prefix + c.body }),
            ..f
        },
        None => f,
    }
}

/// The body with `postfix` put in front of its last instruction (the closing `end`).
pub open spec fn postfixed(body: Seq<Instr>, postfix: Seq<Instr>) -> Seq<Instr> {
    if body.len() == 0 {
        postfix
    } else {
        body.drop_last() + postfix + seq![body.last()]
    }
}

/// The function with `postfix` put in front of its closing instruction; one without
/// code is unchanged.
pub open spec fn with_postfix(f: FunctionView, postfix: Seq<Instr>) -> FunctionView {
    match f.code {
        Some(c) => FunctionView {
            code: Some(CodeView { locals: c.locals, body: postfixed(c.body, postfix) }),
            ..f
        },
        None => f,
    }
}

/// The function with a fresh local of type `ty` appended.
pub open spec fn with_local(f: FunctionView, ty: ValType) -> FunctionView {
    match f.code {
        Some(c) => FunctionView {
            code: Some(CodeView { locals: c.locals.push(ty), body: c.body }),
            ..f
        },
        None => f,
    }
}

/// The index that the next fresh local of the function gets.
pub open spec fn next_local(f: FunctionView) -> nat {
    match f.code {
        Some(c) => f.params.len() + c.locals.len(),
        None => f.params.len(),
    }
}

impl Module {
    /// Appends a global and returns its index.
    pub fn add_global(&mut self, ty: ValType, mutable: bool, init: Vec<Instr>) -> (idx: usize)
        ensures
            idx == old(self)@.globals.len(),
            final(self)@.globals == old(self)@.globals.push(GlobalView { ty, mutable, init: init@ }),
            final(self)@.functions == old(self)@.functions,
    {
        let idx = self.globals.len();
        self.globals.push(Global { ty, mutable, init });
        assert(self@.globals =~= old(self)@.globals.push(GlobalView { ty, mutable, init: init@ }));
        idx
    }
}

impl Function {
    /// Puts `prefix` in front of the body.
    pub fn insert_prefix(&mut self, prefix: Vec<Instr>)
        ensures
            final(self)@ == with_prefix(old(self)@, prefix@),
    {
        if let Some(code) = &mut self.code {
            let mut p = prefix;
            let mut rest = Vec::new();
            std::mem::swap(&mut rest, &mut code.body);
            p.append(&mut rest);
            code.body = p;
        }
    }

    /// Puts `postfix` in front of the last instruction of the body.
    pub fn insert_postfix(&mut self, postfix: Vec<Instr>)
        ensures
            final(self)@ == with_postfix(old(self)@, postfix@),
    {
        if let Some(code) = &mut self.code {
            let ghost b0 = code.body@;
            let mut p = postfix;
            let last = code.body.pop();
            code.body.append(&mut p);
            if let Some(x) = last {
                code.body.push(x);
            }
            assert(code.body@ =~= postfixed(b0, postfix@));
        }
    }

    /// Appends a fresh local of type `ty` and returns its index.
    pub fn add_fresh_local(&mut self, ty: ValType) -> (idx: usize)
        requires
            old(self).code is Some,
            next_local(old(self)@) < usize::MAX,
        ensures
            idx == next_local(old(self)@),
            final(self)@ == with_local(old(self)@, ty),
    {
        let pc = self.params.len();
        if let Some(code) = &mut self.code {
            add_fresh_local(&mut code.locals, pc, ty)
        } else {
            0
        }
    }
}

} // verus!
