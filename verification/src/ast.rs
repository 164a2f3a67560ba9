//! The program tree the lint engine analyses.
//!
//! The engine consumes a fully type-checked program produced by a compiler
//! frontend.  The frontend's own tree types never appear here: the tree is
//! modelled as plain values holding exactly what detectors read — module
//! identifiers, function names, visibilities, declaration locations, and a
//! pre-order-traversable body expression tree whose call nodes expose the
//! callee's module identifier and name.

use vstd::prelude::*;

verus! {

/// Visibility tag of a function definition, as the frontend reports it.
#[derive(Clone, Copy, Debug, PartialEq, Eq, Structural)]
pub enum Visibility {
    /// Callable from anywhere, including outside the analysed unit.
    Public,
    /// Callable only from within its own module (private).
    Internal,
    /// Callable from declared friend modules (package-visible).
    Friend,
}

/// A frontend-native source position: an index into the file table plus a
/// byte offset within that file.  Detectors never interpret it directly;
/// they pass it through the location adapter.
#[derive(Clone, Copy, Debug, PartialEq, Eq, Structural)]
pub struct SourceLoc {
    /// Index into `Ast::files`.
    pub file: usize,
    /// Byte offset from the start of the file.
    pub offset: u32,
}

/// One source file of the analysed package: its path and the byte offset of
/// the start of each line, in order, beginning with line 1 at offset 0.
pub struct SourceFile {
    /// Absolute or package-relative path.
    pub path: String,
    /// `line_starts[i]` is the byte offset of the first byte of line `i + 1`.
    pub line_starts: Vec<u32>,
}

/// A node of a function-body expression tree.
///
/// The set of node kinds is closed: the traversal utility matches on every
/// variant, so "appears anywhere in the body" is exhaustive over nested call
/// arguments, branches of conditionals, loop bodies and block sequences.
pub enum Exp {
    /// Any node without children a detector cares about: a literal, a
    /// variable use, a builtin operation, and so on.
    Leaf,
    /// A direct call of `module::name` with the given argument expressions.
    Call { module: String, name: String, args: Vec<Exp> },
    /// A conditional with both branches.
    IfElse { cond: Box<Exp>, thn: Box<Exp>, els: Box<Exp> },
    /// A while loop.
    While { cond: Box<Exp>, body: Box<Exp> },
    /// An unconditional loop.
    Loop { body: Box<Exp> },
    /// A sequence of expressions.
    Block { items: Vec<Exp> },
}

/// A function definition: name, visibility, declaration location, body.
pub struct Function {
    pub name: String,
    pub visibility: Visibility,
    /// Location of the declaration, reported when an issue points at the
    /// function itself.
    pub loc: SourceLoc,
    pub body: Exp,
}

/// A module: identifier plus its function definitions in declaration order.
pub struct Module {
    pub ident: String,
    pub functions: Vec<Function>,
}

/// The whole analysed program: a file table and the modules in order.
/// Detectors hold only a read-only reference to it for the whole run.
pub struct Ast {
    pub files: Vec<SourceFile>,
    pub modules: Vec<Module>,
}

/// A source file is well-formed when its line table is non-empty, starts at
/// offset 0 and is strictly increasing.
pub open spec fn file_wf(f: SourceFile) -> bool {
    &&& f.line_starts@.len() > 0
    &&& f.line_starts@[0] == 0
    &&& forall|i: int, j: int|
        0 <= i < j < f.line_starts@.len() ==> f.line_starts@[i] < f.line_starts@[j]
}

/// A location is resolvable against the tree when its file index is in range.
pub open spec fn loc_wf(t: Ast, loc: SourceLoc) -> bool {
    loc.file < t.files@.len()
}

/// A module is well-formed when its function names are pairwise distinct and
/// every declaration location is resolvable.
pub open spec fn module_wf(t: Ast, m: Module) -> bool {
    &&& forall|i: int, j: int|
        0 <= i < j < m.functions@.len() ==> m.functions@[i].name@ != m.functions@[j].name@
    &&& forall|i: int| 0 <= i < m.functions@.len() ==> loc_wf(t, m.functions@[i].loc)
}

/// The shape invariant a type-checked program tree is expected to satisfy:
/// files are well-formed, module identifiers are pairwise distinct, and every
/// module is well-formed.  A detector that finds this violated cannot
/// complete its analysis and fails the run.
pub open spec fn wf(t: Ast) -> bool {
    &&& forall|i: int| 0 <= i < t.files@.len() ==> file_wf(t.files@[i])
    &&& forall|i: int, j: int|
        0 <= i < j < t.modules@.len() ==> t.modules@[i].ident@ != t.modules@[j].ident@
    &&& forall|i: int| 0 <= i < t.modules@.len() ==> module_wf(t, t.modules@[i])
}

/// Runtime check of `file_wf`.
pub fn check_file_wf(f: &SourceFile) -> (b: bool)
    ensures
        b == file_wf(*f),
{
    let n: usize = f.line_starts.len();
    if n == 0 {
        return false;
    }
    if f.line_starts[0] != 0u32 {
        return false;
    }
    let mut i: usize = 0;
    while i < n
        invariant
            n == f.line_starts@.len(),
            0 <= i <= n,
            forall|p: int, q: int| 0 <= p < q < f.line_starts@.len() && p < i ==> f.line_starts@[p]
                < f.line_starts@[q],
        decreases n - i,
    {
        let mut j: usize = i + 1;
        while j < n
            invariant
                n == f.line_starts@.len(),
                0 <= i < j <= n,
                forall|q: int| i < q < j ==> f.line_starts@[i as int] < f.line_starts@[q],
            decreases n - j,
        {
            if f.line_starts[i] >= f.line_starts[j] {
                return false;
            }
            j = j + 1;
        }
        i = i + 1;
    }
    true
}

/// Runtime check of `module_wf`.
pub fn check_module_wf(t: &Ast, m: &Module) -> (b: bool)
    ensures
        b == module_wf(*t, *m),
{
    let n: usize = m.functions.len();
    let mut i: usize = 0;
    while i < n
        invariant
            n == m.functions@.len(),
            0 <= i <= n,
            forall|p: int, q: int| 0 <= p < q < m.functions@.len() && p < i ==> m.functions@[p].name@
                != m.functions@[q].name@,
            forall|p: int| 0 <= p < i ==> loc_wf(*t, m.functions@[p].loc),
        decreases n - i,
    {
        if m.functions[i].loc.file >= t.files.len() {
            return false;
        }
        let mut j: usize = i + 1;
        while j < n
            invariant
                n == m.functions@.len(),
                0 <= i < j <= n,
                forall|q: int| i < q < j ==> m.functions@[i as int].name@ != m.functions@[q].name@,
            decreases n - j,
        {
            if m.functions[i].name == m.functions[j].name {
                return false;
            }
            j = j + 1;
        }
        i = i + 1;
    }
    true
}

/// Runtime check of the whole tree invariant `wf`.
pub fn check_wf(t: &Ast) -> (b: bool)
    ensures
        b == wf(*t),
{
    let nf: usize = t.files.len();
    let mut i: usize = 0;
    while i < nf
        invariant
            nf == t.files@.len(),
            0 <= i <= nf,
            forall|p: int| 0 <= p < i ==> file_wf(t.files@[p]),
        decreases nf - i,
    {
        if !check_file_wf(&t.files[i]) {
            return false;
        }
        i = i + 1;
    }
    let nm: usize = t.modules.len();
    let mut k: usize = 0;
    while k < nm
        invariant
            nm == t.modules@.len(),
            0 <= k <= nm,
            forall|p: int, q: int| 0 <= p < q < t.modules@.len() && p < k ==> t.modules@[p].ident@
                != t.modules@[q].ident@,
            forall|p: int| 0 <= p < k ==> module_wf(*t, t.modules@[p]),
        decreases nm - k,
    {
        if !check_module_wf(t, &t.modules[k]) {
            return false;
        }
        let mut j: usize = k + 1;
        while j < nm
            invariant
                nm == t.modules@.len(),
                0 <= k < j <= nm,
                forall|q: int| k < q < j ==> t.modules@[k as int].ident@ != t.modules@[q].ident@,
            decreases nm - j,
        {
            if t.modules[k].ident == t.modules[j].ident {
                return false;
            }
            j = j + 1;
        }
        k = k + 1;
    }
    true
}

} // verus!
