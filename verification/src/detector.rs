//! The detector contract and the registry of detectors.
//!
//! A detector is one independent rule: static metadata plus a detection
//! function over a shared mutable context and a read-only program tree.
//! The set of built-in rules is closed, so a registry entry carries a tag
//! naming its rule next to the metadata; dispatch is a match on the tag.

use vstd::prelude::*;

use crate::ast::Ast;
use crate::ast::wf;
use crate::issue::Context;
use crate::issue::DetectorInfo;
use crate::issue::DetectorInfoV;
use crate::issue::IssueV;
use crate::issue::LintError;

verus! {

/// Which built-in rule a registry entry runs.
#[derive(Clone, Copy, Debug, PartialEq, Eq, Structural)]
pub enum DetectorKind {
    /// The unused-private-interface rule.
    UnusedPrivate,
}

/// A registry entry: a rule's metadata plus the rule it dispatches to.
/// Two entries are the same detector exactly when their numeric
/// identifiers agree; the detection function plays no part in identity.
pub struct Detector {
    pub info: DetectorInfo,
    pub kind: DetectorKind,
}

/// Mathematical image of `Detector`.
pub ghost struct DetectorV {
    pub info: DetectorInfoV,
    pub kind: DetectorKind,
}

impl View for Detector {
    type V = DetectorV;

    open spec fn view(&self) -> DetectorV {
        DetectorV { info: self.info@, kind: self.kind }
    }
}

impl Detector {
    pub fn new(info: DetectorInfo, kind: DetectorKind) -> (r: Detector)
        ensures
            r@ == (DetectorV { info: info@, kind: kind }),
    {
        Detector { info, kind }
    }
}

/// The contract every rule implements.
///
/// `info` is pure and callable without any run context; `detect` appends
/// its findings to the shared context and fails only when it cannot
/// complete its analysis at all — zero findings is success.  What a rule
/// finds is a function of the program tree and of the metadata handle
/// alone, never of the findings already collected or of the other
/// registered rules: that is what makes detectors independent and
/// order-insensitive.
pub trait AbstractDetector {
    /// The rule's metadata, as a mathematical value.
    spec fn spec_info() -> DetectorInfoV;

    /// The registry tag this rule dispatches under.
    spec fn spec_kind() -> DetectorKind;

    /// Exactly the findings the rule reports on `t` when its metadata
    /// handle carries `info`, in the order it reports them.
    spec fn spec_issues(t: Ast, info: DetectorInfoV) -> Seq<IssueV>;

    fn info() -> (r: DetectorInfo)
        ensures
            r@ == Self::spec_info(),
    ;

    fn detector() -> (r: Detector)
        ensures
            r@ == (DetectorV { info: Self::spec_info(), kind: Self::spec_kind() }),
    ;

    fn detect(context: &mut Context, ast: &Ast, detector: &mut Detector) -> (r: Result<
        (),
        LintError,
    >)
        ensures
            wf(*ast) ==> r is Ok && final(context).issues@ == old(context).issues@
                + Self::spec_issues(*ast, old(detector).info@),
            !wf(*ast) ==> r == Err::<(), LintError>(LintError::MalformedTree) && final(context).issues@
                == old(context).issues@,
            final(detector)@ == old(detector)@,
    ;
}

/// The canonical built-in detector set: a fixed list baked in at
/// construction — currently the unused-private-interface rule alone.
pub open spec fn default_detectors() -> Seq<DetectorV> {
    seq![
        DetectorV { info: crate::lint1::lint1_info(), kind: DetectorKind::UnusedPrivate },
    ]
}

/// Does the sequence already hold a detector with identifier `no`?
pub open spec fn contains_no(s: Seq<DetectorV>, no: u32) -> bool {
    exists|i: int| 0 <= i < s.len() && #[trigger] s[i].info.no == no
}

/// What registering one detector leaves behind: the sequence unchanged
/// when a detector of the same identity is already present, else the
/// sequence with the new entry appended.
pub open spec fn registry_add(s: Seq<DetectorV>, d: DetectorV) -> Seq<DetectorV> {
    if contains_no(s, d.info.no) {
        s
    } else {
        s.push(d)
    }
}

/// The registry: detectors in registration order.  Iteration order is
/// insertion order; nothing more is promised, consistent with detector
/// independence.
pub struct Detectors(Vec<Detector>);

impl View for Detectors {
    type V = Seq<DetectorV>;

    closed spec fn view(&self) -> Seq<DetectorV> {
        self.0@.map_values(|d: Detector| d@)
    }
}

impl Default for Detectors {
    /// The registry holding the canonical built-in detector set.
    fn default() -> (r: Self)
        ensures
            r@ == default_detectors(),
    {
        let r = Detectors(vec![crate::lint1::Lint1::detector()]);
        proof {
            assert(r@ =~= default_detectors());
        }
        r
    }
}

impl Detectors {
    /// An empty registry.
    pub fn new() -> (r: Self)
        ensures
            r@ == Seq::<DetectorV>::empty(),
    {
        let r = Detectors(Vec::new());
        proof {
            assert(r@ =~= Seq::<DetectorV>::empty());
        }
        r
    }

    /// A registry built from an explicit list, for external registration.
    pub fn from(v: Vec<Detector>) -> (r: Self)
        ensures
            r@ == v@.map_values(|d: Detector| d@),
    {
        Detectors(v)
    }

    /// Consumes the registry into its entry list, in registration order.
    pub fn meta(self) -> (v: Vec<Detector>)
        ensures
            v@.map_values(|d: Detector| d@) == self@,
    {
        self.0
    }

    /// Is a detector with the same identity (same identifier) registered?
    pub fn contains(&self, x: &Detector) -> (b: bool)
        ensures
            b == contains_no(self@, x.info.no),
    {
        let n: usize = self.0.len();
        let mut i: usize = 0;
        while i < n
            invariant
                n == self.0@.len(),
                self@ == self.0@.map_values(|d: Detector| d@),
                0 <= i <= n,
                forall|k: int| 0 <= k < i ==> #[trigger] self@[k].info.no != x.info.no,
            decreases n - i,
        {
            proof {
                assert(self@[i as int] == self.0@[i as int]@);
            }
            if self.0[i].info.no == x.info.no {
                proof {
                    assert(self@[i as int].info.no == x.info.no);
                }
                return true;
            }
            i = i + 1;
        }
        false
    }

    /// Appends a detector unless one with the same identity is already
    /// registered; a duplicate is a silent no-op, not an error.
    pub fn add(&mut self, x: Detector)
        ensures
            final(self)@ == registry_add(old(self)@, x@),
    {
        if !self.contains(&x) {
            let ghost xv = x@;
            self.0.push(x);
            proof {
                assert(self@ =~= old(self)@.push(xv));
            }
        }
    }

    /// Iterates the registered detectors, for callers that inspect the
    /// registry without consuming it: the iterator yields exactly the
    /// registered detectors, each once, in registration order.
    pub fn iter(&self) -> (r: core::slice::Iter<'_, Detector>)
        ensures
            vstd::std_specs::slice::into_iter_elts(r).map_values(|d: Detector| d@) == self@,
    {
        self.0.iter()
    }

    pub fn len(&self) -> (n: usize)
        ensures
            n == self@.len(),
    {
        self.0.len()
    }

    pub fn is_empty(&self) -> (b: bool)
        ensures
            b == (self@.len() == 0),
    {
        self.0.len() == 0
    }
}

} // verus!
