//! A lint engine for smart-contract modules.
//!
//! The engine consumes a fully type-checked program tree (`ast::Ast`),
//! runs a set of independent, pluggable detectors over it, and returns a
//! structured, insertion-ordered collection of issues — severity, message
//! metadata, resolved location.  The surrounding tooling owns parsing,
//! package discovery and report rendering; the engine itself is a single
//! stateless pass over the given tree.

pub mod ast;
pub mod detector;
pub mod issue;
pub mod laws;
pub mod lint1;
pub mod orchestrator;
pub mod visitor;

use vstd::prelude::*;

use crate::ast::Ast;
use crate::ast::wf;
use crate::detector::default_detectors;
use crate::issue::Issues;
use crate::issue::LintError;
use crate::orchestrator::LintConfig;
use crate::orchestrator::run_issues;
use crate::orchestrator::run_lint;

verus! {

/// Everything the invocation surface hands down: package root, verbosity,
/// output format, and the engine's own configuration.  The engine never
/// parses arguments itself; the command-line layer fills this in and
/// converts.
#[derive(Debug, Default)]
pub struct Config {
    /// Root of the package to analyse.
    pub package_path: Option<String>,
    /// Verbose diagnostics in the reporting layer.
    pub verbose: bool,
    /// Configuration consumed by the lint engine.
    pub lint_config: LintConfig,
    /// Machine-readable instead of human-readable output.
    pub json: bool,
}

/// Runs the built-in detector set over the tree and returns the aggregated
/// issue collection, or the first detector's error with no partial issues.
pub fn move_lint(config: LintConfig, ast: &Ast) -> (r: Result<Issues, LintError>)
    ensures
        wf(*ast) ==> (r matches Ok(issues) && issues@ == run_issues(default_detectors(), *ast)),
        !wf(*ast) ==> r == Err::<Issues, LintError>(LintError::MalformedTree),
{
    match run_lint(config, ast, None) {
        Result::Ok(c) => Ok(c.issues),
        Result::Err(e) => Err(e),
    }
}

} // verus!

