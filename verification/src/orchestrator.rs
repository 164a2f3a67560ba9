//! The orchestrator: runs every registered detector, in registration
//! order, against one program tree, threading the shared context through
//! the sequence.
//!
//! A run is atomic: either every detector completes and the returned
//! context holds all resulting issues, or the first failing detector's
//! error is surfaced at once, no later detector runs, and no partial issue
//! list is returned at all.

use vstd::prelude::*;

use crate::ast::Ast;
use crate::ast::wf;
use crate::detector::AbstractDetector;
use crate::detector::Detector;
use crate::detector::DetectorKind;
use crate::detector::DetectorV;
use crate::detector::Detectors;
use crate::detector::default_detectors;
use crate::issue::Context;
use crate::issue::IssueV;
use crate::issue::LintError;
use crate::lint1::Lint1;
use crate::lint1::unused_issues;

verus! {

/// Configuration handed down by the invocation surface.  The orchestrator
/// receives it as a single value and does not parse it; no built-in rule
/// currently takes options.
#[derive(Clone, Copy, Debug, Default)]
pub struct LintConfig {}

/// The findings one registered detector reports on `t`.
pub open spec fn detector_issues(d: DetectorV, t: Ast) -> Seq<IssueV> {
    match d.kind {
        DetectorKind::UnusedPrivate => unused_issues(t, d.info),
    }
}

/// The findings a whole run collects: each detector's findings in
/// registration order, each detector's own findings in discovery order.
pub open spec fn run_issues(ds: Seq<DetectorV>, t: Ast) -> Seq<IssueV>
    decreases ds,
{
    if ds.len() == 0 {
        Seq::empty()
    } else {
        run_issues(ds.drop_last(), t) + detector_issues(ds.last(), t)
    }
}

/// The detector sequence a run uses: the given registry, or the canonical
/// built-in set when none is given.
pub open spec fn chosen_detectors(detectors: Option<Detectors>) -> Seq<DetectorV> {
    match detectors {
        Option::Some(ds) => ds@,
        Option::None => default_detectors(),
    }
}

/// Runs one registered detector: dispatches on its tag and hands it the
/// shared context, the read-only tree and its own metadata handle.
pub fn run_detector(context: &mut Context, ast: &Ast, d: &mut Detector) -> (r: Result<
    (),
    LintError,
>)
    ensures
        wf(*ast) ==> r is Ok && final(context).issues@ == old(context).issues@ + detector_issues(
            old(d)@,
            *ast,
        ),
        !wf(*ast) ==> r == Err::<(), LintError>(LintError::MalformedTree) && final(context).issues@
            == old(context).issues@,
        final(d)@ == old(d)@,
{
    match d.kind {
        DetectorKind::UnusedPrivate => Lint1::detect(context, ast, d),
    }
}

/// Runs every detector of the registry (the built-in set when none is
/// given) against the tree.  On success the returned context holds exactly
/// the concatenated findings of all detectors; on the first detector
/// failure the run stops and only the error is returned.
#[verifier::loop_isolation(false)]
pub fn run_lint(config: LintConfig, ast: &Ast, detectors: Option<Detectors>) -> (r: Result<
    Context,
    LintError,
>)
    ensures
        wf(*ast) ==> (r matches Ok(c) && c.issues@ == run_issues(chosen_detectors(detectors), *ast)),
        !wf(*ast) && chosen_detectors(detectors).len() > 0 ==> r == Err::<Context, LintError>(
            LintError::MalformedTree,
        ),
        !wf(*ast) && chosen_detectors(detectors).len() == 0 ==> (r matches Ok(c)
            && c.issues@ == Seq::<IssueV>::empty()),
{
    let ghost dsv = chosen_detectors(detectors);
    let ds: Detectors = match detectors {
        Option::Some(d) => d,
        Option::None => Detectors::default(),
    };
    let mut list: Vec<Detector> = ds.meta();
    let mut context: Context = Context::new();
    let n: usize = list.len();
    proof {
        assert(dsv.len() == list@.map_values(|d: Detector| d@).len());
    }
    let mut i: usize = 0;
    proof {
        assert(dsv.take(0) =~= Seq::<DetectorV>::empty());
    }
    while i < n
        invariant
            n == list@.len(),
            list@.map_values(|d: Detector| d@) == dsv,
            0 <= i <= n,
            dsv.len() == n,
            !wf(*ast) ==> i == 0,
            context.issues@ == run_issues(dsv.take(i as int), *ast),
        decreases n - i,
    {
        proof {
            assert(dsv.take(i + 1).drop_last() =~= dsv.take(i as int));
            assert(dsv.take(i + 1).last() == dsv[i as int]);
            assert(list@.map_values(|d: Detector| d@)[i as int] == dsv[i as int]);
        }
        let r = run_detector(&mut context, ast, &mut list[i]);
        match r {
            Result::Ok(()) => {
                proof {
                    assert(list@.map_values(|d: Detector| d@) =~= dsv);
                }
            },
            Result::Err(e) => {
                proof {
                    assert(i < dsv.len());
                }
                return Err(e);
            },
        }
        i = i + 1;
    }
    proof {
        assert(dsv.take(n as int) =~= dsv);
    }
    Ok(context)
}

} // verus!
