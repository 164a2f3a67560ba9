//! The engine's global guarantees, stated and proved over the same spec
//! functions the executable contracts use: determinism of a run,
//! order-independence of detectors, registry deduplication, and the
//! correctness of the unused-private-interface rule.

use vstd::prelude::*;

use crate::ast::Ast;
use crate::ast::Function;
use crate::ast::Module;
use crate::ast::wf;
use crate::detector::DetectorV;
use crate::detector::contains_no;
use crate::detector::default_detectors;
use crate::detector::registry_add;
use crate::issue::DetectorInfoV;
use crate::issue::IssueV;
use crate::issue::resolve_loc;
use crate::lint1::DeclV;
use crate::lint1::issues_of;
use crate::lint1::lint1_info;
use crate::lint1::private_decls;
use crate::lint1::private_decls_funs;
use crate::lint1::unused_issues;
use crate::lint1::unused_of;
use crate::orchestrator::detector_issues;
use crate::orchestrator::run_issues;
use crate::visitor::ast_calls;

verus! {

/// Determinism: the findings of a run are a function of the program tree
/// and the detector sequence alone, so two runs of the same detector set
/// over the same tree yield the same issue sequence in the same order.
pub proof fn lemma_run_deterministic(
    ds: Seq<DetectorV>,
    t: Ast,
    issues1: Seq<IssueV>,
    issues2: Seq<IssueV>,
)
    requires
        issues1 == run_issues(ds, t),
        issues2 == run_issues(ds, t),
    ensures
        issues1 == issues2,
{
}

/// Independence: registering two detectors in either order collects the
/// same two per-detector finding sequences, concatenated in registration
/// order — so the found set (as a multiset) does not depend on the order,
/// only the relative placement in the output does.
pub proof fn lemma_detectors_independent(a: DetectorV, b: DetectorV, t: Ast)
    ensures
        run_issues(seq![a, b], t) == detector_issues(a, t) + detector_issues(b, t),
        run_issues(seq![b, a], t) == detector_issues(b, t) + detector_issues(a, t),
        run_issues(seq![a, b], t).to_multiset() == run_issues(seq![b, a], t).to_multiset(),
{
    let ia = detector_issues(a, t);
    let ib = detector_issues(b, t);
    assert(seq![a, b].drop_last() =~= seq![a]);
    assert(seq![b, a].drop_last() =~= seq![b]);
    assert(seq![a].drop_last() =~= Seq::<DetectorV>::empty());
    assert(seq![b].drop_last() =~= Seq::<DetectorV>::empty());
    assert(run_issues(Seq::<DetectorV>::empty(), t) =~= Seq::<IssueV>::empty());
    assert(run_issues(seq![a], t) =~= ia);
    assert(run_issues(seq![b], t) =~= ib);
    assert(run_issues(seq![a, b], t) == ia + ib);
    assert(run_issues(seq![b, a], t) == ib + ia);
    vstd::seq_lib::lemma_seq_union_to_multiset_commutative(ia, ib);
    assert((ia + ib).to_multiset() == (ib + ia).to_multiset());
}

/// Registry deduplication: registering a detector whose identifier is
/// already present is a no-op, whatever else the registry holds.
pub proof fn lemma_registry_dedup(s: Seq<DetectorV>, d1: DetectorV, d2: DetectorV)
    requires
        d1.info.no == d2.info.no,
    ensures
        registry_add(registry_add(s, d1), d2) == registry_add(s, d1),
{
    let s1 = registry_add(s, d1);
    if contains_no(s, d1.info.no) {
        assert(s1 == s);
    } else {
        assert(s1 == s.push(d1));
        assert(s1[s.len() as int].info.no == d2.info.no);
    }
    assert(contains_no(s1, d2.info.no));
}

/// Registry deduplication, from empty: two detectors built from the same
/// rule identifier leave a single registered entry.
pub proof fn lemma_registry_dedup_len(d1: DetectorV, d2: DetectorV)
    requires
        d1.info.no == d2.info.no,
    ensures
        registry_add(registry_add(Seq::empty(), d1), d2).len() == 1,
{
    lemma_registry_dedup(Seq::empty(), d1, d2);
    assert(!contains_no(Seq::<DetectorV>::empty(), d1.info.no));
}

/// The built-in run, tied together: with the default registry the engine
/// reports exactly the unused-private-interface findings, under the
/// built-in rule's metadata.
pub proof fn lemma_default_run(t: Ast)
    ensures
        run_issues(default_detectors(), t) == unused_issues(t, lint1_info()),
{
    assert(default_detectors().drop_last() =~= Seq::<DetectorV>::empty());
    assert(run_issues(Seq::<DetectorV>::empty(), t) =~= Seq::<IssueV>::empty());
    assert(run_issues(default_detectors(), t) =~= unused_issues(t, lint1_info()));
}

/// How often a qualified name occurs in a declaration list.
pub open spec fn count_named(decls: Seq<DeclV>, m: Seq<char>, f: Seq<char>) -> nat
    decreases decls,
{
    if decls.len() == 0 {
        0
    } else {
        count_named(decls.drop_last(), m, f) + if decls.last().module == m && decls.last().name
            == f {
            1nat
        } else {
            0nat
        }
    }
}

/// How many functions of a function list are private and named `f`.
pub open spec fn priv_named_count(fs: Seq<Function>, f: Seq<char>) -> nat
    decreases fs,
{
    if fs.len() == 0 {
        0
    } else {
        priv_named_count(fs.drop_last(), f) + if fs.last().visibility is Internal
            && fs.last().name@ == f {
            1nat
        } else {
            0nat
        }
    }
}

/// The declarations the unused-private-interface rule flags on `t`: every
/// recorded private declaration whose qualified name no call node in the
/// program references.
pub open spec fn flagged_decls(t: Ast) -> Seq<DeclV> {
    unused_of(private_decls(t.modules@), t)
}

proof fn lemma_count_named_concat(a: Seq<DeclV>, b: Seq<DeclV>, m: Seq<char>, f: Seq<char>)
    ensures
        count_named(a + b, m, f) == count_named(a, m, f) + count_named(b, m, f),
    decreases b.len(),
{
    if b.len() == 0 {
        assert(a + b =~= a);
    } else {
        assert((a + b).drop_last() =~= a + b.drop_last());
        assert((a + b).last() == b.last());
        lemma_count_named_concat(a, b.drop_last(), m, f);
    }
}

/// Filtering by "is called somewhere" acts on each qualified name alone:
/// a called name keeps no occurrences, an uncalled one keeps all of them.
pub proof fn lemma_unused_count(decls: Seq<DeclV>, t: Ast, m: Seq<char>, f: Seq<char>)
    ensures
        count_named(unused_of(decls, t), m, f) == if ast_calls(t, m, f) {
            0nat
        } else {
            count_named(decls, m, f)
        },
    decreases decls.len(),
{
    if decls.len() == 0 {
        assert(unused_of(decls, t) =~= Seq::<DeclV>::empty());
    } else {
        let rest = decls.drop_last();
        let last = decls.last();
        lemma_unused_count(rest, t, m, f);
        let u = unused_of(rest, t);
        if ast_calls(t, last.module, last.name) {
            assert(unused_of(decls, t) =~= u);
        } else {
            assert(unused_of(decls, t) =~= u + seq![last]);
            lemma_count_named_concat(u, seq![last], m, f);
            assert(seq![last].drop_last() =~= Seq::<DeclV>::empty());
            assert(count_named(Seq::<DeclV>::empty(), m, f) == 0);
            assert(count_named(seq![last], m, f) == if last.module == m && last.name == f {
                1nat
            } else {
                0nat
            });
        }
    }
}

proof fn lemma_funs_count(mi: Seq<char>, fs: Seq<Function>, m: Seq<char>, f: Seq<char>)
    ensures
        count_named(private_decls_funs(mi, fs), m, f) == if mi == m {
            priv_named_count(fs, f)
        } else {
            0nat
        },
    decreases fs.len(),
{
    if fs.len() == 0 {
        assert(private_decls_funs(mi, fs) =~= Seq::<DeclV>::empty());
    } else {
        let rest = fs.drop_last();
        let last = fs.last();
        lemma_funs_count(mi, rest, m, f);
        let p = private_decls_funs(mi, rest);
        if last.visibility is Internal {
            let d = DeclV { module: mi, name: last.name@, loc: last.loc };
            assert(private_decls_funs(mi, fs) =~= p + seq![d]);
            lemma_count_named_concat(p, seq![d], m, f);
            assert(seq![d].drop_last() =~= Seq::<DeclV>::empty());
            assert(count_named(Seq::<DeclV>::empty(), m, f) == 0);
            assert(count_named(seq![d], m, f) == if d.module == m && d.name == f {
                1nat
            } else {
                0nat
            });
        } else {
            assert(private_decls_funs(mi, fs) =~= p);
        }
    }
}

/// How many private functions named `f` the modules named `m` declare.
pub open spec fn mods_priv_count(ms: Seq<Module>, m: Seq<char>, f: Seq<char>) -> nat
    decreases ms,
{
    if ms.len() == 0 {
        0
    } else {
        mods_priv_count(ms.drop_last(), m, f) + if ms.last().ident@ == m {
            priv_named_count(ms.last().functions@, f)
        } else {
            0nat
        }
    }
}

proof fn lemma_mods_count(ms: Seq<Module>, m: Seq<char>, f: Seq<char>)
    ensures
        count_named(private_decls(ms), m, f) == mods_priv_count(ms, m, f),
    decreases ms.len(),
{
    if ms.len() == 0 {
        assert(private_decls(ms) =~= Seq::<DeclV>::empty());
    } else {
        let rest = ms.drop_last();
        let last = ms.last();
        lemma_mods_count(rest, m, f);
        assert(private_decls(ms) =~= private_decls(rest) + private_decls_funs(
            last.ident@,
            last.functions@,
        ));
        lemma_count_named_concat(
            private_decls(rest),
            private_decls_funs(last.ident@, last.functions@),
            m,
            f,
        );
        lemma_funs_count(last.ident@, last.functions@, m, f);
    }
}

proof fn lemma_priv_named_count_zero(fs: Seq<Function>, f: Seq<char>)
    requires
        forall|k: int|
            0 <= k < fs.len() ==> !((#[trigger] fs[k]).visibility is Internal && fs[k].name@ == f),
    ensures
        priv_named_count(fs, f) == 0,
    decreases fs.len(),
{
    if fs.len() != 0 {
        lemma_priv_named_count_zero(fs.drop_last(), f);
    }
}

proof fn lemma_priv_named_count_one(fs: Seq<Function>, f: Seq<char>, j: int)
    requires
        forall|p: int, q: int| 0 <= p < q < fs.len() ==> fs[p].name@ != fs[q].name@,
        0 <= j < fs.len(),
        fs[j].visibility is Internal,
        fs[j].name@ == f,
    ensures
        priv_named_count(fs, f) == 1,
    decreases fs.len(),
{
    let rest = fs.drop_last();
    if j == fs.len() - 1 {
        lemma_priv_named_count_zero(rest, f);
    } else {
        lemma_priv_named_count_one(rest, f, j);
    }
}

proof fn lemma_mods_priv_count_zero(ms: Seq<Module>, m: Seq<char>, f: Seq<char>)
    requires
        forall|p: int|
            0 <= p < ms.len() && (#[trigger] ms[p].ident@) == m ==> (forall|k: int|
                0 <= k < ms[p].functions@.len() ==> !((#[trigger] ms[p].functions@[k]).visibility
                    is Internal && ms[p].functions@[k].name@ == f)),
    ensures
        mods_priv_count(ms, m, f) == 0,
    decreases ms.len(),
{
    if ms.len() != 0 {
        lemma_mods_priv_count_zero(ms.drop_last(), m, f);
        if ms.last().ident@ == m {
            lemma_priv_named_count_zero(ms.last().functions@, f);
        }
    }
}

proof fn lemma_mods_priv_count_one(ms: Seq<Module>, m: Seq<char>, f: Seq<char>, i: int, j: int)
    requires
        forall|p: int, q: int| 0 <= p < q < ms.len() ==> ms[p].ident@ != ms[q].ident@,
        0 <= i < ms.len(),
        ms[i].ident@ == m,
        forall|p: int, q: int|
            0 <= p < q < ms[i].functions@.len() ==> ms[i].functions@[p].name@
                != ms[i].functions@[q].name@,
        0 <= j < ms[i].functions@.len(),
        ms[i].functions@[j].visibility is Internal,
        ms[i].functions@[j].name@ == f,
    ensures
        mods_priv_count(ms, m, f) == 1,
    decreases ms.len(),
{
    let rest = ms.drop_last();
    if i == ms.len() - 1 {
        assert(forall|p: int| 0 <= p < rest.len() ==> (#[trigger] rest[p].ident@) != m);
        lemma_mods_priv_count_zero(rest, m, f);
        lemma_priv_named_count_one(ms[i].functions@, f, j);
    } else {
        lemma_mods_priv_count_one(rest, m, f, i, j);
        assert(ms.last().ident@ != m);
    }
}

/// Rule correctness, first part: a private function whose qualified name
/// no call node anywhere references is flagged exactly once.
pub proof fn lemma_unused_private_flagged_once(t: Ast, i: int, j: int)
    requires
        wf(t),
        0 <= i < t.modules@.len(),
        0 <= j < t.modules@[i].functions@.len(),
        t.modules@[i].functions@[j].visibility is Internal,
        !ast_calls(t, t.modules@[i].ident@, t.modules@[i].functions@[j].name@),
    ensures
        count_named(flagged_decls(t), t.modules@[i].ident@, t.modules@[i].functions@[j].name@)
            == 1,
{
    let m = t.modules@[i].ident@;
    let f = t.modules@[i].functions@[j].name@;
    lemma_unused_count(private_decls(t.modules@), t, m, f);
    lemma_mods_count(t.modules@, m, f);
    lemma_mods_priv_count_one(t.modules@, m, f, i, j);
}

/// Rule correctness, second part: a function called anywhere — a
/// recursive self-call included — is never flagged.
pub proof fn lemma_called_never_flagged(t: Ast, m: Seq<char>, f: Seq<char>)
    requires
        ast_calls(t, m, f),
    ensures
        count_named(flagged_decls(t), m, f) == 0,
{
    lemma_unused_count(private_decls(t.modules@), t, m, f);
}

/// Rule correctness, third part: a function that is not private is never
/// flagged, called or not — its callers may be external to the analysed
/// unit.
pub proof fn lemma_non_private_never_flagged(t: Ast, i: int, j: int)
    requires
        wf(t),
        0 <= i < t.modules@.len(),
        0 <= j < t.modules@[i].functions@.len(),
        !(t.modules@[i].functions@[j].visibility is Internal),
    ensures
        count_named(flagged_decls(t), t.modules@[i].ident@, t.modules@[i].functions@[j].name@)
            == 0,
{
    let m = t.modules@[i].ident@;
    let f = t.modules@[i].functions@[j].name@;
    lemma_unused_count(private_decls(t.modules@), t, m, f);
    if !ast_calls(t, m, f) {
        lemma_mods_count(t.modules@, m, f);
        assert forall|p: int| 0 <= p < t.modules@.len() && (#[trigger] t.modules@[p].ident@)
            == m implies (forall|k: int|
            0 <= k < t.modules@[p].functions@.len() ==> !((#[trigger] t.modules@[p].functions@[k]).visibility
                is Internal && t.modules@[p].functions@[k].name@ == f)) by {
            assert(p == i);
            assert forall|k: int|
                0 <= k < t.modules@[i].functions@.len() implies !((
            #[trigger] t.modules@[i].functions@[k]).visibility is Internal
                && t.modules@[i].functions@[k].name@ == f) by {
                if t.modules@[i].functions@[k].name@ == f {
                    assert(k == j);
                }
            }
        }
        lemma_mods_priv_count_zero(t.modules@, m, f);
    }
}

/// Each flagged declaration yields exactly one issue, in order, carrying
/// the reporting rule's metadata and the resolved declaration location.
pub proof fn lemma_one_issue_per_flagged(decls: Seq<DeclV>, info: DetectorInfoV, t: Ast)
    ensures
        issues_of(decls, info, t).len() == decls.len(),
        forall|k: int|
            0 <= k < decls.len() ==> #[trigger] issues_of(decls, info, t)[k] == (IssueV {
                info: info,
                loc: resolve_loc(t, decls[k].loc),
            }),
    decreases decls.len(),
{
    if decls.len() != 0 {
        lemma_one_issue_per_flagged(decls.drop_last(), info, t);
    }
}

/// The rule's whole output, tied together: its issue sequence is the
/// image of its flagged declarations.
pub proof fn lemma_unused_issues_shape(t: Ast, info: DetectorInfoV)
    ensures
        unused_issues(t, info).len() == flagged_decls(t).len(),
        forall|k: int|
            0 <= k < flagged_decls(t).len() ==> #[trigger] unused_issues(t, info)[k] == (IssueV {
                info: info,
                loc: resolve_loc(t, flagged_decls(t)[k].loc),
            }),
{
    lemma_one_issue_per_flagged(flagged_decls(t), info, t);
}

} // verus!
