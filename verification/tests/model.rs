//! Unit tests of the program-tree model, the well-formedness checks, the
//! location adapter and the pre-order traversal.

use move_lint::ast::{
    check_file_wf, check_module_wf, check_wf, Ast, Exp, Function, Module, SourceFile, SourceLoc,
    Visibility,
};
use move_lint::issue::{DetectorInfo, DetectorLevel, Issue, IssueLoc, Issues};
use move_lint::visitor::{body_calls_exec, walk_preorder};

fn file(path: &str, line_starts: Vec<u32>) -> SourceFile {
    SourceFile { path: path.to_string(), line_starts }
}

fn plain_func(name: &str, visibility: Visibility, body: Exp) -> Function {
    Function {
        name: name.to_string(),
        visibility,
        loc: SourceLoc { file: 0, offset: 0 },
        body,
    }
}

#[test]
fn file_wf_accepts_a_proper_line_table() {
    assert!(check_file_wf(&file("a.move", vec![0, 7, 9, 40])));
    assert!(check_file_wf(&file("a.move", vec![0])));
}

#[test]
fn file_wf_rejects_bad_line_tables() {
    // Empty, not starting at zero, not strictly increasing.
    assert!(!check_file_wf(&file("a.move", vec![])));
    assert!(!check_file_wf(&file("a.move", vec![3, 7])));
    assert!(!check_file_wf(&file("a.move", vec![0, 9, 7])));
    assert!(!check_file_wf(&file("a.move", vec![0, 7, 7])));
}

#[test]
fn module_wf_rejects_duplicate_function_names() {
    let ast = Ast { files: vec![file("a.move", vec![0])], modules: vec![] };
    let good = Module {
        ident: "M".to_string(),
        functions: vec![
            plain_func("f", Visibility::Public, Exp::Leaf),
            plain_func("g", Visibility::Public, Exp::Leaf),
        ],
    };
    let bad = Module {
        ident: "M".to_string(),
        functions: vec![
            plain_func("f", Visibility::Public, Exp::Leaf),
            plain_func("f", Visibility::Internal, Exp::Leaf),
        ],
    };
    assert!(check_module_wf(&ast, &good));
    assert!(!check_module_wf(&ast, &bad));
}

#[test]
fn module_wf_rejects_out_of_range_file_index() {
    let ast = Ast { files: vec![file("a.move", vec![0])], modules: vec![] };
    let stray = Module {
        ident: "M".to_string(),
        functions: vec![Function {
            name: "f".to_string(),
            visibility: Visibility::Public,
            loc: SourceLoc { file: 5, offset: 0 },
            body: Exp::Leaf,
        }],
    };
    assert!(!check_module_wf(&ast, &stray));
}

#[test]
fn tree_wf_rejects_duplicate_module_idents() {
    let dup = Ast {
        files: vec![file("a.move", vec![0])],
        modules: vec![
            Module { ident: "M".to_string(), functions: vec![] },
            Module { ident: "M".to_string(), functions: vec![] },
        ],
    };
    assert!(!check_wf(&dup));
    let ok = Ast {
        files: vec![file("a.move", vec![0])],
        modules: vec![
            Module { ident: "M".to_string(), functions: vec![] },
            Module { ident: "N".to_string(), functions: vec![] },
        ],
    };
    assert!(check_wf(&ok));
}

#[test]
fn location_adapter_resolves_lines_and_columns() {
    let ast = Ast { files: vec![file("pkg/a.move", vec![0, 5, 12])], modules: vec![] };
    let at = |offset: u32| IssueLoc::from(&ast, &SourceLoc { file: 0, offset });
    let start = at(0);
    assert_eq!(start.path, "pkg/a.move");
    assert_eq!(start.line, 1);
    assert_eq!(start.col, 1);
    let mid = at(7);
    assert_eq!(mid.line, 2);
    assert_eq!(mid.col, 3);
    let line_start = at(12);
    assert_eq!(line_start.line, 3);
    assert_eq!(line_start.col, 1);
    let last_line = at(100);
    assert_eq!(last_line.line, 3);
    assert_eq!(last_line.col, 89);
    let end_of_first = at(4);
    assert_eq!(end_of_first.line, 1);
    assert_eq!(end_of_first.col, 5);
}

fn call_to(module: &str, name: &str, args: Vec<Exp>) -> Exp {
    Exp::Call { module: module.to_string(), name: name.to_string(), args }
}

#[test]
fn preorder_walk_visits_parents_before_children() {
    // Block [ Call A::a ( Leaf ), IfElse( Leaf, Leaf, Leaf ) ]
    let tree = Exp::Block {
        items: vec![
            call_to("A", "a", vec![Exp::Leaf]),
            Exp::IfElse {
                cond: Box::new(Exp::Leaf),
                thn: Box::new(Exp::Leaf),
                els: Box::new(Exp::Leaf),
            },
        ],
    };
    let mut nodes: Vec<&Exp> = Vec::new();
    walk_preorder(&tree, &mut nodes);
    assert_eq!(nodes.len(), 7);
    assert!(matches!(nodes[0], Exp::Block { .. }));
    assert!(matches!(nodes[1], Exp::Call { .. }));
    assert!(matches!(nodes[2], Exp::Leaf));
    assert!(matches!(nodes[3], Exp::IfElse { .. }));
    assert!(matches!(nodes[4], Exp::Leaf));
    assert!(matches!(nodes[5], Exp::Leaf));
    assert!(matches!(nodes[6], Exp::Leaf));
}

#[test]
fn body_calls_looks_into_every_child() {
    let body = Exp::While {
        cond: Box::new(Exp::Leaf),
        body: Box::new(Exp::Loop {
            body: Box::new(call_to("A", "a", vec![call_to("B", "b", vec![])])),
        }),
    };
    let m_a = "A".to_string();
    let f_a = "a".to_string();
    let m_b = "B".to_string();
    let f_b = "b".to_string();
    let f_c = "c".to_string();
    assert!(body_calls_exec(&body, &m_a, &f_a));
    assert!(body_calls_exec(&body, &m_b, &f_b));
    assert!(!body_calls_exec(&body, &m_b, &f_c));
    assert!(!body_calls_exec(&body, &f_c, &f_b));
}

#[test]
fn issue_collection_keeps_insertion_order() {
    let info = |no: u32| DetectorInfo {
        no,
        wiki: String::new(),
        title: "t".to_string(),
        verbose: "v".to_string(),
        level: DetectorLevel::Warning,
    };
    let loc = |line: usize| IssueLoc { path: "a.move".to_string(), line, col: 1 };
    let mut issues = Issues::new();
    assert!(issues.is_empty());
    issues.add(Issue::new(info(2), loc(9)));
    issues.add(Issue::new(info(1), loc(3)));
    issues.add(Issue::new(info(2), loc(9)));
    assert_eq!(issues.len(), 3);
    assert_eq!(issues.get(0).info.no, 2);
    assert_eq!(issues.get(0).loc.line, 9);
    assert_eq!(issues.get(1).info.no, 1);
    assert_eq!(issues.get(1).loc.line, 3);
    assert_eq!(issues.get(2).info.no, 2);
    assert_eq!(issues.get(0).info.level, DetectorLevel::Warning);
}
