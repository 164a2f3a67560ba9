//! The issue data model: severity, detector metadata, resolved locations,
//! and the append-only issue collection threaded through a run.

use vstd::prelude::*;

use crate::ast::Ast;
use crate::ast::SourceFile;
use crate::ast::SourceLoc;
use crate::ast::file_wf;
use crate::ast::loc_wf;

verus! {

/// Ordered severity of a finding, used by the reporting layer for
/// filtering and sorting.
#[derive(Clone, Copy, Debug, PartialEq, Eq, Structural)]
pub enum DetectorLevel {
    Info,
    Warning,
    Error,
}

/// Immutable metadata of a rule: its stable numeric identifier (the durable
/// key external tooling uses to suppress or filter the rule — no two
/// registered detectors share one), a documentation reference, a short
/// title, a verbose description, and a severity.
pub struct DetectorInfo {
    pub no: u32,
    pub wiki: String,
    pub title: String,
    pub verbose: String,
    pub level: DetectorLevel,
}

/// Mathematical image of `DetectorInfo`.
pub ghost struct DetectorInfoV {
    pub no: u32,
    pub wiki: Seq<char>,
    pub title: Seq<char>,
    pub verbose: Seq<char>,
    pub level: DetectorLevel,
}

impl View for DetectorInfo {
    type V = DetectorInfoV;

    open spec fn view(&self) -> DetectorInfoV {
        DetectorInfoV {
            no: self.no,
            wiki: self.wiki@,
            title: self.title@,
            verbose: self.verbose@,
            level: self.level,
        }
    }
}

impl Clone for DetectorInfo {
    /// The snapshot of a rule's metadata stored inside each issue.
    fn clone(&self) -> (r: Self)
        ensures
            r@ == self@,
    {
        DetectorInfo {
            no: self.no,
            wiki: self.wiki.clone(),
            title: self.title.clone(),
            verbose: self.verbose.clone(),
            level: self.level,
        }
    }
}

/// A resolved, portable location: file path, 1-based line, 1-based column.
/// Once constructed it no longer needs the program tree or any compiler
/// state to be rendered.
pub struct IssueLoc {
    pub path: String,
    pub line: usize,
    pub col: u64,
}

/// Mathematical image of `IssueLoc`.
pub ghost struct IssueLocV {
    pub path: Seq<char>,
    pub line: int,
    pub col: int,
}

impl View for IssueLoc {
    type V = IssueLocV;

    open spec fn view(&self) -> IssueLocV {
        IssueLocV { path: self.path@, line: self.line as int, col: self.col as int }
    }
}

/// How many entries of `starts` are at most `off`.  Over a strictly
/// increasing line-start table this is the 1-based number of the line
/// containing byte offset `off`.
pub open spec fn count_le(starts: Seq<u32>, off: u32) -> nat
    decreases starts,
{
    if starts.len() == 0 {
        0
    } else {
        count_le(starts.drop_last(), off) + if starts.last() <= off {
            1nat
        } else {
            0nat
        }
    }
}

/// The portable location a frontend-native position resolves to: the path
/// of its file, the 1-based line holding the byte offset, and the 1-based
/// column within that line.
pub open spec fn resolve_loc(t: Ast, loc: SourceLoc) -> IssueLocV {
    if loc_wf(t, loc) {
        let f = t.files@[loc.file as int];
        let line = count_le(f.line_starts@, loc.offset) as int;
        IssueLocV {
            path: f.path@,
            line: line,
            col: loc.offset - f.line_starts@[line - 1] + 1,
        }
    } else {
        IssueLocV { path: Seq::empty(), line: 0, col: 0 }
    }
}

impl IssueLoc {
    /// The location adapter: converts a frontend-native position into a
    /// portable location, the one place the engine interprets source
    /// positions.
    pub fn from(ast: &Ast, loc: &SourceLoc) -> (r: IssueLoc)
        requires
            loc_wf(*ast, *loc),
            file_wf(ast.files@[loc.file as int]),
        ensures
            r@ == resolve_loc(*ast, *loc),
    {
        let f: &SourceFile = &ast.files[loc.file];
        let n: usize = f.line_starts.len();
        let mut cnt: usize = 0;
        let mut best: u32 = 0;
        let mut i: usize = 0;
        proof {
            assert(f.line_starts@.take(0) =~= Seq::<u32>::empty());
        }
        while i < n
            invariant
                f == &ast.files@[loc.file as int],
                file_wf(*f),
                n == f.line_starts@.len(),
                0 <= i <= n,
                cnt == count_le(f.line_starts@.take(i as int), loc.offset),
                cnt <= i,
                i >= 1 ==> cnt >= 1,
                forall|k: int| 0 <= k < cnt ==> f.line_starts@[k] <= loc.offset,
                forall|k: int| cnt <= k < i ==> f.line_starts@[k] > loc.offset,
                cnt >= 1 ==> cnt - 1 < n && best == f.line_starts@[cnt - 1] && best <= loc.offset,
            decreases n - i,
        {
            proof {
                assert(f.line_starts@.take(i + 1).drop_last() =~= f.line_starts@.take(i as int));
                assert(f.line_starts@.take(i + 1).last() == f.line_starts@[i as int]);
            }
            if f.line_starts[i] <= loc.offset {
                cnt = cnt + 1;
                best = f.line_starts[i];
            }
            i = i + 1;
        }
        proof {
            assert(f.line_starts@.take(n as int) =~= f.line_starts@);
        }
        let col: u64 = (loc.offset as u64) - (best as u64) + 1;
        IssueLoc { path: f.path.clone(), line: cnt, col: col }
    }
}

/// One finding: a snapshot of the reporting rule's metadata (valid after
/// the detector goes out of scope) plus a resolved location.
pub struct Issue {
    pub info: DetectorInfo,
    pub loc: IssueLoc,
}

/// Mathematical image of `Issue`.
pub ghost struct IssueV {
    pub info: DetectorInfoV,
    pub loc: IssueLocV,
}

impl View for Issue {
    type V = IssueV;

    open spec fn view(&self) -> IssueV {
        IssueV { info: self.info@, loc: self.loc@ }
    }
}

impl Issue {
    pub fn new(info: DetectorInfo, loc: IssueLoc) -> (r: Issue)
        ensures
            r@ == (IssueV { info: info@, loc: loc@ }),
    {
        Issue { info, loc }
    }
}

/// The insertion-ordered sequence of findings accumulated across all
/// detectors of a run.  It is append-only: entries are never reordered and
/// never deduplicated — the reporting layer decides on any such policy.
pub struct Issues {
    items: Vec<Issue>,
}

impl View for Issues {
    type V = Seq<IssueV>;

    closed spec fn view(&self) -> Seq<IssueV> {
        self.items@.map_values(|x: Issue| x@)
    }
}

impl Issues {
    pub fn new() -> (r: Issues)
        ensures
            r@ == Seq::<IssueV>::empty(),
    {
        let r = Issues { items: Vec::new() };
        proof {
            assert(r@ =~= Seq::<IssueV>::empty());
        }
        r
    }

    /// Appends one finding; everything already collected stays in place.
    pub fn add(&mut self, x: Issue)
        ensures
            final(self)@ == old(self)@.push(x@),
    {
        let ghost xv = x@;
        self.items.push(x);
        proof {
            assert(self@ =~= old(self)@.push(xv));
        }
    }

    pub fn len(&self) -> (n: usize)
        ensures
            n == self@.len(),
    {
        self.items.len()
    }

    pub fn is_empty(&self) -> (b: bool)
        ensures
            b == (self@.len() == 0),
    {
        self.items.len() == 0
    }

    pub fn get(&self, i: usize) -> (r: &Issue)
        requires
            i < self@.len(),
        ensures
            r@ == self@[i as int],
    {
        &self.items[i]
    }
}

/// The mutable state of a single run: the growing issue list.  Created once
/// per invocation, handed to every detector in sequence, and consumed into
/// the final report.
pub struct Context {
    pub issues: Issues,
}

impl Context {
    pub fn new() -> (r: Context)
        ensures
            r.issues@ == Seq::<IssueV>::empty(),
    {
        Context { issues: Issues::new() }
    }
}

/// A terminal failure of a run.  Every operation of the engine is a pure
/// computation over in-memory data, so failures are never transient and the
/// run is not retried.
#[derive(Clone, Copy, Debug, PartialEq, Eq, Structural)]
pub enum LintError {
    /// A detector found the program tree violating the shape invariant a
    /// type-checked program is expected to satisfy, and could not complete
    /// its analysis.
    MalformedTree,
}

} // verus!
