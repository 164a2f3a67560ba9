//! End-to-end tests of the lint engine: the unused-private-interface rule,
//! the orchestrator, and the registry.

use move_lint::ast::{Ast, Exp, Function, Module, SourceFile, SourceLoc, Visibility};
use move_lint::detector::{AbstractDetector, Detector, DetectorKind, Detectors};
use move_lint::issue::{Context, DetectorInfo, DetectorLevel, Issue, IssueLoc, Issues, LintError};
use move_lint::lint1::Lint1;
use move_lint::move_lint;
use move_lint::orchestrator::{run_lint, LintConfig};

fn one_file() -> Vec<SourceFile> {
    vec![SourceFile { path: "sources/m.move".to_string(), line_starts: vec![0, 10, 20, 30] }]
}

fn leaf() -> Exp {
    Exp::Leaf
}

fn call(module: &str, name: &str, args: Vec<Exp>) -> Exp {
    Exp::Call { module: module.to_string(), name: name.to_string(), args }
}

fn func(name: &str, visibility: Visibility, offset: u32, body: Exp) -> Function {
    Function { name: name.to_string(), visibility, loc: SourceLoc { file: 0, offset }, body }
}

fn module(ident: &str, functions: Vec<Function>) -> Module {
    Module { ident: ident.to_string(), functions }
}

fn lint(ast: &Ast) -> Issues {
    move_lint(LintConfig::default(), ast).expect("run should succeed")
}

#[test]
fn unused_private_helper_flagged_once() {
    // One module M: private helper() never called, private util() called
    // once from public run().
    let ast = Ast {
        files: one_file(),
        modules: vec![module(
            "M",
            vec![
                func("helper", Visibility::Internal, 10, leaf()),
                func("util", Visibility::Internal, 20, leaf()),
                func("run", Visibility::Public, 0, call("M", "util", vec![])),
            ],
        )],
    };
    let issues = lint(&ast);
    assert_eq!(issues.len(), 1);
    let issue = issues.get(0);
    assert_eq!(issue.info.no, 4);
    assert_eq!(issue.info.title, "unused private interface");
    assert_eq!(issue.info.verbose, "Unused private interface exists.");
    assert_eq!(issue.info.level, DetectorLevel::Info);
    // helper is declared at offset 10: line 2, column 1 of sources/m.move.
    assert_eq!(issue.loc.path, "sources/m.move");
    assert_eq!(issue.loc.line, 2);
    assert_eq!(issue.loc.col, 1);
}

#[test]
fn empty_program_yields_no_issues() {
    let ast = Ast { files: vec![], modules: vec![] };
    let issues = lint(&ast);
    assert_eq!(issues.len(), 0);
    assert!(issues.is_empty());
}

#[test]
fn recursive_private_function_not_flagged() {
    // A private function calling itself counts as used.
    let ast = Ast {
        files: one_file(),
        modules: vec![module(
            "M",
            vec![func("rec", Visibility::Internal, 0, call("M", "rec", vec![]))],
        )],
    };
    let issues = lint(&ast);
    assert_eq!(issues.len(), 0);
}

#[test]
fn public_and_friend_functions_never_flagged() {
    // Nothing calls anything, but only the private function is reported.
    let ast = Ast {
        files: one_file(),
        modules: vec![module(
            "M",
            vec![
                func("exposed", Visibility::Public, 0, leaf()),
                func("shared", Visibility::Friend, 10, leaf()),
                func("hidden", Visibility::Internal, 20, leaf()),
            ],
        )],
    };
    let issues = lint(&ast);
    assert_eq!(issues.len(), 1);
    assert_eq!(issues.get(0).loc.line, 3);
}

#[test]
fn qualified_names_keep_modules_apart() {
    // Two modules each declare a private `f`; only A::f is called, so
    // exactly B::f is flagged.
    let ast = Ast {
        files: one_file(),
        modules: vec![
            module("A", vec![func("f", Visibility::Internal, 0, leaf())]),
            module(
                "B",
                vec![
                    func("f", Visibility::Internal, 10, leaf()),
                    func("go", Visibility::Public, 20, call("A", "f", vec![])),
                ],
            ),
        ],
    };
    let issues = lint(&ast);
    assert_eq!(issues.len(), 1);
    // B::f is declared at offset 10: line 2.
    assert_eq!(issues.get(0).loc.line, 2);
}

#[test]
fn call_nested_deep_in_body_counts_as_use() {
    // The call sits inside a block, under a conditional, inside a while
    // body, as a call argument: the pre-order traversal still reaches it.
    let deep = Exp::Block {
        items: vec![
            leaf(),
            Exp::IfElse {
                cond: Box::new(leaf()),
                thn: Box::new(Exp::While {
                    cond: Box::new(leaf()),
                    body: Box::new(Exp::Loop {
                        body: Box::new(call("other", "outer", vec![call("M", "buried", vec![])])),
                    }),
                }),
                els: Box::new(leaf()),
            },
        ],
    };
    let ast = Ast {
        files: one_file(),
        modules: vec![module(
            "M",
            vec![
                func("buried", Visibility::Internal, 10, leaf()),
                func("top", Visibility::Public, 0, deep),
            ],
        )],
    };
    let issues = lint(&ast);
    assert_eq!(issues.len(), 0);
}

#[test]
fn issues_come_in_declaration_order() {
    let ast = Ast {
        files: one_file(),
        modules: vec![
            module("A", vec![func("a1", Visibility::Internal, 20, leaf())]),
            module(
                "B",
                vec![
                    func("b1", Visibility::Internal, 0, leaf()),
                    func("b2", Visibility::Internal, 10, leaf()),
                ],
            ),
        ],
    };
    let issues = lint(&ast);
    assert_eq!(issues.len(), 3);
    assert_eq!(issues.get(0).loc.line, 3); // A::a1 at offset 20
    assert_eq!(issues.get(1).loc.line, 1); // B::b1 at offset 0
    assert_eq!(issues.get(2).loc.line, 2); // B::b2 at offset 10
}

#[test]
fn two_runs_give_identical_issue_sequences() {
    // Determinism: a fixed tree and a fixed detector set give the same
    // ordered issue list every run.
    let build = || Ast {
        files: one_file(),
        modules: vec![module(
            "M",
            vec![
                func("one", Visibility::Internal, 0, leaf()),
                func("two", Visibility::Internal, 10, leaf()),
            ],
        )],
    };
    let first = lint(&build());
    let second = lint(&build());
    assert_eq!(first.len(), second.len());
    for i in 0..first.len() {
        let a = first.get(i);
        let b = second.get(i);
        assert_eq!(a.info.no, b.info.no);
        assert_eq!(a.loc.path, b.loc.path);
        assert_eq!(a.loc.line, b.loc.line);
        assert_eq!(a.loc.col, b.loc.col);
    }
}

fn renamed_rule(no: u32) -> Detector {
    Detector::new(
        DetectorInfo {
            no,
            wiki: String::new(),
            title: "unused private interface".to_string(),
            verbose: "Unused private interface exists.".to_string(),
            level: DetectorLevel::Info,
        },
        DetectorKind::UnusedPrivate,
    )
}

#[test]
fn registration_order_changes_no_findings() {
    // Independence: two detectors find the same issues whichever comes
    // first; only the relative order in the output follows registration.
    let ast = Ast {
        files: one_file(),
        modules: vec![module("M", vec![func("dead", Visibility::Internal, 10, leaf())])],
    };
    let ab = run_lint(
        LintConfig::default(),
        &ast,
        Some(Detectors::from(vec![renamed_rule(4), renamed_rule(7)])),
    )
    .expect("run should succeed");
    let ba = run_lint(
        LintConfig::default(),
        &ast,
        Some(Detectors::from(vec![renamed_rule(7), renamed_rule(4)])),
    )
    .expect("run should succeed");
    assert_eq!(ab.issues.len(), 2);
    assert_eq!(ba.issues.len(), 2);
    let mut seen_ab: Vec<(u32, usize)> = (0..ab.issues.len())
        .map(|i| (ab.issues.get(i).info.no, ab.issues.get(i).loc.line))
        .collect();
    let mut seen_ba: Vec<(u32, usize)> = (0..ba.issues.len())
        .map(|i| (ba.issues.get(i).info.no, ba.issues.get(i).loc.line))
        .collect();
    // Same membership as sets.
    seen_ab.sort();
    seen_ba.sort();
    assert_eq!(seen_ab, seen_ba);
    // Output order follows registration order.
    assert_eq!(ab.issues.get(0).info.no, 4);
    assert_eq!(ab.issues.get(1).info.no, 7);
    assert_eq!(ba.issues.get(0).info.no, 7);
    assert_eq!(ba.issues.get(1).info.no, 4);
}

#[test]
fn registry_deduplicates_by_identifier() {
    let mut regs = Detectors::new();
    assert!(regs.is_empty());
    regs.add(renamed_rule(4));
    regs.add(renamed_rule(4));
    assert_eq!(regs.len(), 1);
    regs.add(renamed_rule(9));
    assert_eq!(regs.len(), 2);
    assert!(regs.contains(&renamed_rule(4)));
    assert!(regs.contains(&renamed_rule(9)));
    assert!(!regs.contains(&renamed_rule(5)));
}

#[test]
fn registry_construction_round_trip() {
    let regs = Detectors::from(vec![renamed_rule(4), renamed_rule(9)]);
    assert_eq!(regs.len(), 2);
    assert!(!regs.is_empty());
    let nos: Vec<u32> = regs.iter().map(|d| d.info.no).collect();
    assert_eq!(nos, vec![4, 9]);
    let list = regs.meta();
    assert_eq!(list.len(), 2);
    assert_eq!(list[0].info.no, 4);
    assert_eq!(list[1].info.no, 9);
    let default = Detectors::default();
    assert_eq!(default.len(), 1);
    assert!(default.contains(&renamed_rule(4)));
}

#[test]
fn malformed_tree_fails_atomically() {
    // Two modules under the same identifier violate the shape invariant a
    // type-checked program satisfies: the run fails outright and no issue
    // list is returned at all.
    let ast = Ast {
        files: one_file(),
        modules: vec![
            module("M", vec![func("dead", Visibility::Internal, 0, leaf())]),
            module("M", vec![func("gone", Visibility::Internal, 10, leaf())]),
        ],
    };
    let result = move_lint(LintConfig::default(), &ast);
    assert!(matches!(result, Err(LintError::MalformedTree)));
}

#[test]
fn malformed_tree_with_no_detectors_finds_nothing() {
    // With nothing registered no detector inspects the tree, so even a
    // malformed tree yields an empty, successful run.
    let ast = Ast {
        files: one_file(),
        modules: vec![
            module("M", vec![func("dead", Visibility::Internal, 0, leaf())]),
            module("M", vec![func("gone", Visibility::Internal, 10, leaf())]),
        ],
    };
    let context = run_lint(LintConfig::default(), &ast, Some(Detectors::new()))
        .expect("empty run should succeed");
    assert_eq!(context.issues.len(), 0);
}

#[test]
fn duplicate_issues_are_preserved() {
    // Two identically-named rules report the same finding twice; the
    // collection keeps both entries distinct.
    let ast = Ast {
        files: one_file(),
        modules: vec![module("M", vec![func("dead", Visibility::Internal, 10, leaf())])],
    };
    let context = run_lint(
        LintConfig::default(),
        &ast,
        Some(Detectors::from(vec![renamed_rule(4), renamed_rule(4)])),
    )
    .expect("run should succeed");
    assert_eq!(context.issues.len(), 2);
    assert_eq!(context.issues.get(0).loc.line, 2);
    assert_eq!(context.issues.get(1).loc.line, 2);
}

#[test]
fn rule_metadata_is_stable() {
    let info = Lint1::info();
    assert_eq!(info.no, 4);
    assert_eq!(info.wiki, "");
    assert_eq!(info.title, "unused private interface");
    assert_eq!(info.verbose, "Unused private interface exists.");
    assert_eq!(info.level, DetectorLevel::Info);
    let d = Lint1::detector();
    assert_eq!(d.info.no, 4);
    assert!(matches!(d.kind, DetectorKind::UnusedPrivate));
}

#[test]
fn detect_appends_to_an_existing_context() {
    let ast = Ast {
        files: one_file(),
        modules: vec![module("M", vec![func("dead", Visibility::Internal, 10, leaf())])],
    };
    let mut context = Context::new();
    context.issues.add(Issue::new(
        Lint1::info(),
        IssueLoc { path: "earlier.move".to_string(), line: 1, col: 1 },
    ));
    let mut handle = Lint1::detector();
    Lint1::detect(&mut context, &ast, &mut handle).expect("detect should succeed");
    // The earlier finding is untouched; the new one is appended after it.
    assert_eq!(context.issues.len(), 2);
    assert_eq!(context.issues.get(0).loc.path, "earlier.move");
    assert_eq!(context.issues.get(1).loc.path, "sources/m.move");
    assert_eq!(context.issues.get(1).loc.line, 2);
}
