//! The traversal utility: a pre-order walk over a function-body expression
//! tree.
//!
//! This is the sole mechanism detectors use to inspect code.  The walk is
//! exhaustive — every node kind is descended into, including nested call
//! arguments, branches of conditionals, loop bodies and block sequences — so
//! "appears anywhere in the body" means membership in the pre-order node
//! sequence.  The walk is a pure read: the tree is never mutated.

use vstd::prelude::*;

use crate::ast::Ast;
use crate::ast::Exp;

verus! {

/// The pre-order node sequence of a tree: each node before its children,
/// children in order.
pub open spec fn preorder(e: Exp) -> Seq<Exp>
    decreases e,
{
    match e {
        Exp::Leaf => seq![e],
        Exp::Call { args, .. } => seq![e] + preorder_all(args@),
        Exp::IfElse { cond, thn, els } => seq![e] + preorder(*cond) + preorder(*thn) + preorder(
            *els,
        ),
        Exp::While { cond, body } => seq![e] + preorder(*cond) + preorder(*body),
        Exp::Loop { body } => seq![e] + preorder(*body),
        Exp::Block { items } => seq![e] + preorder_all(items@),
    }
}

/// The concatenated pre-order sequences of a list of sibling trees.
pub open spec fn preorder_all(es: Seq<Exp>) -> Seq<Exp>
    decreases es,
{
    if es.len() == 0 {
        Seq::empty()
    } else {
        preorder_all(es.drop_last()) + preorder(es.last())
    }
}

/// The trees a sequence of borrowed nodes points at.
pub open spec fn derefs(s: Seq<&Exp>) -> Seq<Exp> {
    s.map_values(|x: &Exp| *x)
}

/// Walks `e` in pre-order and appends a borrow of every visited node to
/// `out`, parents before children.  A detector inspects the returned
/// sequence in place of re-implementing tree recursion.
pub fn walk_preorder<'a>(e: &'a Exp, out: &mut Vec<&'a Exp>)
    ensures
        derefs(final(out)@) == derefs(old(out)@) + preorder(*e),
    decreases *e,
{
    out.push(e);
    proof {
        assert(derefs(out@) =~= derefs(old(out)@) + seq![*e]);
    }
    match e {
        Exp::Leaf => {
            proof {
                assert(derefs(out@) =~= derefs(old(out)@) + preorder(*e));
            }
        },
        Exp::Call { args, .. } => {
            walk_preorder_all(args, out);
            proof {
                assert(derefs(out@) =~= derefs(old(out)@) + preorder(*e));
            }
        },
        Exp::IfElse { cond, thn, els } => {
            walk_preorder(cond, out);
            walk_preorder(thn, out);
            walk_preorder(els, out);
            proof {
                assert(derefs(out@) =~= derefs(old(out)@) + preorder(*e));
            }
        },
        Exp::While { cond, body } => {
            walk_preorder(cond, out);
            walk_preorder(body, out);
            proof {
                assert(derefs(out@) =~= derefs(old(out)@) + preorder(*e));
            }
        },
        Exp::Loop { body } => {
            walk_preorder(body, out);
            proof {
                assert(derefs(out@) =~= derefs(old(out)@) + preorder(*e));
            }
        },
        Exp::Block { items } => {
            walk_preorder_all(items, out);
            proof {
                assert(derefs(out@) =~= derefs(old(out)@) + preorder(*e));
            }
        },
    }
}

/// Walks each tree of `es` in order, appending borrows of the visited nodes
/// to `out`.
pub fn walk_preorder_all<'a>(es: &'a Vec<Exp>, out: &mut Vec<&'a Exp>)
    ensures
        derefs(final(out)@) == derefs(old(out)@) + preorder_all(es@),
    decreases es@,
{
    let n: usize = es.len();
    let mut i: usize = 0;
    proof {
        assert(derefs(out@) =~= derefs(old(out)@) + preorder_all(es@.take(0)));
    }
    while i < n
        invariant
            n == es@.len(),
            0 <= i <= n,
            derefs(out@) == derefs(old(out)@) + preorder_all(es@.take(i as int)),
        decreases n - i,
    {
        let ghost prev = out@;
        walk_preorder(&es[i], out);
        proof {
            assert(es@.take(i + 1).drop_last() =~= es@.take(i as int));
            assert(es@.take(i + 1).last() == es@[i as int]);
            assert(preorder_all(es@.take(i + 1)) == preorder_all(es@.take(i as int)) + preorder(
                es@[i as int],
            ));
            assert(derefs(out@) =~= derefs(old(out)@) + preorder_all(es@.take(i + 1)));
        }
        i = i + 1;
    }
    proof {
        assert(es@.take(n as int) =~= es@);
    }
}

/// Does `e` name a direct call of `module::name`?
pub open spec fn is_call_to(e: Exp, module: Seq<char>, name: Seq<char>) -> bool {
    match e {
        Exp::Call { module: m, name: f, .. } => m@ == module && f@ == name,
        _ => false,
    }
}

/// Does a call of `module::name` appear anywhere in `body`?
pub open spec fn body_calls(body: Exp, module: Seq<char>, name: Seq<char>) -> bool {
    exists|i: int|
        0 <= i < preorder(body).len() && is_call_to(#[trigger] preorder(body)[i], module, name)
}

/// Does a call of `module::name` appear in any function body of any module
/// of the program?
pub open spec fn ast_calls(t: Ast, module: Seq<char>, name: Seq<char>) -> bool {
    exists|i: int, j: int|
        0 <= i < t.modules@.len() && 0 <= j < t.modules@[i].functions@.len() && body_calls(
            #[trigger] t.modules@[i].functions@[j].body,
            module,
            name,
        )
}

/// Scans one body for a direct call of `module::name`.
pub fn body_calls_exec(body: &Exp, module: &String, name: &String) -> (b: bool)
    ensures
        b == body_calls(*body, module@, name@),
{
    let mut nodes: Vec<&Exp> = Vec::new();
    walk_preorder(body, &mut nodes);
    let n: usize = nodes.len();
    proof {
        assert(derefs(nodes@) =~= preorder(*body));
    }
    let mut i: usize = 0;
    while i < n
        invariant
            n == nodes@.len(),
            derefs(nodes@) == preorder(*body),
            0 <= i <= n,
            forall|k: int| 0 <= k < i ==> !is_call_to(#[trigger] preorder(*body)[k], module@, name@),
        decreases n - i,
    {
        let node: &Exp = nodes[i];
        proof {
            assert(derefs(nodes@)[i as int] == *nodes@[i as int]);
            assert(*node == preorder(*body)[i as int]);
        }
        match node {
            Exp::Call { module: m, name: f, .. } => {
                if *m == *module && *f == *name {
                    proof {
                        assert(is_call_to(preorder(*body)[i as int], module@, name@));
                    }
                    return true;
                }
            },
            _ => {},
        }
        i = i + 1;
    }
    false
}

/// Scans every function body of every module for a direct call of
/// `module::name`.
pub fn ast_calls_exec(t: &Ast, module: &String, name: &String) -> (b: bool)
    ensures
        b == ast_calls(*t, module@, name@),
{
    let nm: usize = t.modules.len();
    let mut i: usize = 0;
    while i < nm
        invariant
            nm == t.modules@.len(),
            0 <= i <= nm,
            forall|p: int, q: int|
                0 <= p < i && 0 <= q < t.modules@[p].functions@.len() ==> !body_calls(
                    #[trigger] t.modules@[p].functions@[q].body,
                    module@,
                    name@,
                ),
        decreases nm - i,
    {
        let fs: &Vec<crate::ast::Function> = &t.modules[i].functions;
        let nf: usize = fs.len();
        let mut j: usize = 0;
        while j < nf
            invariant
                nm == t.modules@.len(),
                0 <= i < nm,
                fs == &t.modules@[i as int].functions,
                nf == fs@.len(),
                0 <= j <= nf,
                forall|q: int|
                    0 <= q < j ==> !body_calls(
                        #[trigger] t.modules@[i as int].functions@[q].body,
                        module@,
                        name@,
                    ),
            decreases nf - j,
        {
            if body_calls_exec(&fs[j].body, module, name) {
                return true;
            }
            j = j + 1;
        }
        i = i + 1;
    }
    false
}

} // verus!
