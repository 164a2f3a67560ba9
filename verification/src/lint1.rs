//! The unused-private-interface rule.
//!
//! Two passes over the program tree.  First, every function whose
//! visibility is the private variant is recorded under its fully qualified
//! name (module identifier plus function name — qualification keeps
//! same-named members of different modules apart), with its declaration
//! location, in declaration order.  Second, for each recorded name the
//! function bodies of the whole program are traversed in pre-order; a
//! direct call node referencing the name — a recursive self-call included —
//! marks it used.  Every name still unused denotes a private function
//! declared but never invoked anywhere, and yields one issue at severity
//! `Info` pointing at the declaration.  A use reachable only through
//! dispatch not represented as a direct call node is an accepted
//! false-negative of the pattern; a function with no callers that is not
//! private is never flagged, since its callers may be external to the
//! analysed unit.

use vstd::prelude::*;

use crate::ast::Ast;
use crate::ast::Function;
use crate::ast::Module;
use crate::ast::SourceLoc;
use crate::ast::Visibility;
use crate::ast::check_wf;
use crate::ast::file_wf;
use crate::ast::loc_wf;
use crate::ast::wf;
use crate::detector::AbstractDetector;
use crate::detector::Detector;
use crate::detector::DetectorKind;
use crate::detector::DetectorV;
use crate::issue::Context;
use crate::issue::DetectorInfo;
use crate::issue::DetectorInfoV;
use crate::issue::DetectorLevel;
use crate::issue::Issue;
use crate::issue::IssueLoc;
use crate::issue::IssueV;
use crate::issue::LintError;
use crate::issue::resolve_loc;
use crate::visitor::ast_calls;
use crate::visitor::ast_calls_exec;

verus! {

/// A recorded private declaration awaiting a caller: its fully qualified
/// name and its declaration location.
pub struct Decl {
    pub module: String,
    pub name: String,
    pub loc: SourceLoc,
}

/// Mathematical image of `Decl`.
pub ghost struct DeclV {
    pub module: Seq<char>,
    pub name: Seq<char>,
    pub loc: SourceLoc,
}

impl View for Decl {
    type V = DeclV;

    open spec fn view(&self) -> DeclV {
        DeclV { module: self.module@, name: self.name@, loc: self.loc }
    }
}

/// The private declarations of one module's function list, in declaration
/// order, qualified by the module identifier.
pub open spec fn private_decls_funs(mident: Seq<char>, fs: Seq<Function>) -> Seq<DeclV>
    decreases fs,
{
    if fs.len() == 0 {
        Seq::empty()
    } else {
        private_decls_funs(mident, fs.drop_last()) + if fs.last().visibility is Internal {
            seq![DeclV { module: mident, name: fs.last().name@, loc: fs.last().loc }]
        } else {
            Seq::empty()
        }
    }
}

/// The private declarations of the whole program, modules in order.
pub open spec fn private_decls(ms: Seq<Module>) -> Seq<DeclV>
    decreases ms,
{
    if ms.len() == 0 {
        Seq::empty()
    } else {
        private_decls(ms.drop_last()) + private_decls_funs(
            ms.last().ident@,
            ms.last().functions@,
        )
    }
}

/// The declarations of `decls` whose qualified name no call node anywhere
/// in `t` references, in order.
pub open spec fn unused_of(decls: Seq<DeclV>, t: Ast) -> Seq<DeclV>
    decreases decls,
{
    if decls.len() == 0 {
        Seq::empty()
    } else {
        unused_of(decls.drop_last(), t) + if ast_calls(
            t,
            decls.last().module,
            decls.last().name,
        ) {
            Seq::empty()
        } else {
            seq![decls.last()]
        }
    }
}

/// One issue per declaration, carrying the reporting rule's metadata
/// snapshot and the resolved declaration location.
pub open spec fn issues_of(decls: Seq<DeclV>, info: DetectorInfoV, t: Ast) -> Seq<IssueV>
    decreases decls,
{
    if decls.len() == 0 {
        Seq::empty()
    } else {
        issues_of(decls.drop_last(), info, t) + seq![
            IssueV { info: info, loc: resolve_loc(t, decls.last().loc) },
        ]
    }
}

/// Exactly what the rule reports on `t`: one issue for every private
/// function never referenced by a direct call node anywhere in the
/// program, in declaration order.
pub open spec fn unused_issues(t: Ast, info: DetectorInfoV) -> Seq<IssueV> {
    issues_of(unused_of(private_decls(t.modules@), t), info, t)
}

/// The metadata of the unused-private-interface rule.
pub open spec fn lint1_info() -> DetectorInfoV {
    DetectorInfoV {
        no: 4,
        wiki: ""@,
        title: "unused private interface"@,
        verbose: "Unused private interface exists."@,
        level: DetectorLevel::Info,
    }
}

/// The unused-private-interface detector.
pub struct Lint1;

impl AbstractDetector for Lint1 {
    open spec fn spec_info() -> DetectorInfoV {
        lint1_info()
    }

    open spec fn spec_kind() -> DetectorKind {
        DetectorKind::UnusedPrivate
    }

    open spec fn spec_issues(t: Ast, info: DetectorInfoV) -> Seq<IssueV> {
        unused_issues(t, info)
    }

    fn info() -> (r: DetectorInfo) {
        DetectorInfo {
            no: 4,
            wiki: "".to_owned(),
            title: "unused private interface".to_owned(),
            verbose: "Unused private interface exists.".to_owned(),
            level: DetectorLevel::Info,
        }
    }

    fn detector() -> (r: Detector) {
        Detector::new(Self::info(), DetectorKind::UnusedPrivate)
    }

    fn detect(context: &mut Context, ast: &Ast, detector: &mut Detector) -> (r: Result<
        (),
        LintError,
    >) {
        if !check_wf(ast) {
            return Err(LintError::MalformedTree);
        }
        // First pass: record every private function under its qualified
        // name, in declaration order.
        let mut pending: Vec<Decl> = Vec::new();
        let nm: usize = ast.modules.len();
        let mut i: usize = 0;
        proof {
            assert(pending@.map_values(|d: Decl| d@) =~= Seq::<DeclV>::empty());
            assert(ast.modules@.take(0) =~= Seq::<Module>::empty());
        }
        while i < nm
            invariant
                wf(*ast),
                nm == ast.modules@.len(),
                0 <= i <= nm,
                pending@.map_values(|d: Decl| d@) == private_decls(ast.modules@.take(i as int)),
                forall|p: int| 0 <= p < pending@.len() ==> loc_wf(*ast, (#[trigger] pending@[p]).loc),
            decreases nm - i,
        {
            let m: &Module = &ast.modules[i];
            let nf: usize = m.functions.len();
            let mut j: usize = 0;
            proof {
                assert(m.functions@.take(0) =~= Seq::<Function>::empty());
                assert(private_decls_funs(m.ident@, m.functions@.take(0)) =~= Seq::<DeclV>::empty());
            }
            while j < nf
                invariant
                    wf(*ast),
                    nm == ast.modules@.len(),
                    0 <= i < nm,
                    m == &ast.modules@[i as int],
                    nf == m.functions@.len(),
                    0 <= j <= nf,
                    pending@.map_values(|d: Decl| d@) == private_decls(ast.modules@.take(i as int))
                        + private_decls_funs(m.ident@, m.functions@.take(j as int)),
                    forall|p: int|
                        0 <= p < pending@.len() ==> loc_wf(*ast, (#[trigger] pending@[p]).loc),
                decreases nf - j,
            {
                proof {
                    assert(m.functions@.take(j + 1).drop_last() =~= m.functions@.take(j as int));
                    assert(m.functions@.take(j + 1).last() == m.functions@[j as int]);
                }
                let f: &Function = &m.functions[j];
                if f.visibility == Visibility::Internal {
                    let ghost before = pending@.map_values(|d: Decl| d@);
                    let decl = Decl { module: m.ident.clone(), name: f.name.clone(), loc: f.loc };
                    proof {
                        assert(loc_wf(*ast, f.loc));
                    }
                    pending.push(decl);
                    proof {
                        assert(pending@.map_values(|d: Decl| d@) =~= before.push(
                            DeclV { module: m.ident@, name: f.name@, loc: f.loc },
                        ));
                        assert(before.push(DeclV { module: m.ident@, name: f.name@, loc: f.loc })
                            =~= before + seq![
                            DeclV { module: m.ident@, name: f.name@, loc: f.loc },
                        ]);
                    }
                }
                j = j + 1;
            }
            proof {
                assert(m.functions@.take(nf as int) =~= m.functions@);
                assert(ast.modules@.take(i + 1).drop_last() =~= ast.modules@.take(i as int));
                assert(ast.modules@.take(i + 1).last() == ast.modules@[i as int]);
            }
            i = i + 1;
        }
        proof {
            assert(ast.modules@.take(nm as int) =~= ast.modules@);
        }
        // Second pass: traverse every function body for each recorded
        // name; emit one issue per name never referenced by a call node.
        let ghost decls = pending@.map_values(|d: Decl| d@);
        let np: usize = pending.len();
        let mut k: usize = 0;
        proof {
            assert(decls.take(0) =~= Seq::<DeclV>::empty());
        }
        while k < np
            invariant
                wf(*ast),
                np == pending@.len(),
                decls == pending@.map_values(|d: Decl| d@),
                decls == private_decls(ast.modules@),
                forall|p: int| 0 <= p < pending@.len() ==> loc_wf(*ast, (#[trigger] pending@[p]).loc),
                0 <= k <= np,
                context.issues@ == old(context).issues@ + issues_of(
                    unused_of(decls.take(k as int), *ast),
                    old(detector).info@,
                    *ast,
                ),
                detector@ == old(detector)@,
            decreases np - k,
        {
            proof {
                assert(decls.take(k + 1).drop_last() =~= decls.take(k as int));
                assert(decls.take(k + 1).last() == decls[k as int]);
                assert(decls[k as int] == pending@[k as int]@);
            }
            let d: &Decl = &pending[k];
            if !ast_calls_exec(ast, &d.module, &d.name) {
                proof {
                    assert(loc_wf(*ast, d.loc));
                    assert(file_wf(ast.files@[d.loc.file as int]));
                }
                let info_snap: DetectorInfo = detector.info.clone();
                let loc: IssueLoc = IssueLoc::from(ast, &d.loc);
                let ghost u = unused_of(decls.take(k as int), *ast);
                context.issues.add(Issue::new(info_snap, loc));
                proof {
                    assert(unused_of(decls.take(k + 1), *ast) =~= u + seq![decls[k as int]]);
                    assert((u + seq![decls[k as int]]).drop_last() =~= u);
                    assert(issues_of(u + seq![decls[k as int]], old(detector).info@, *ast)
                        =~= issues_of(u, old(detector).info@, *ast) + seq![
                        IssueV { info: old(detector).info@, loc: resolve_loc(*ast, decls[k as int].loc) },
                    ]);
                    assert(context.issues@ =~= old(context).issues@ + issues_of(
                        unused_of(decls.take(k + 1), *ast),
                        old(detector).info@,
                        *ast,
                    ));
                }
            } else {
                proof {
                    assert(unused_of(decls.take(k + 1), *ast) =~= unused_of(
                        decls.take(k as int),
                        *ast,
                    ));
                }
            }
            k = k + 1;
        }
        proof {
            assert(decls.take(np as int) =~= decls);
        }
        Ok(())
    }
}

} // verus!
