//! The rule registry and dispatch, exercised on concrete node sequences.

use svlint::linter::{all_pass, file_passes, lint_file, Config, Failed, Linter, RuleResult};
use svlint::syntax::{
    ElseGenerate, GenerateBlock, IfGenerate, Locate, Node, NodeKind, SyntaxTree, UniquePriority,
};
use svlint::exit_code;
use svlint::rules::generate_keyword::GenerateKeyword;

fn loc(line: u32) -> Locate {
    Locate { offset: 0, line, len: 1 }
}

fn node(line: u32, kind: NodeKind) -> Node {
    Node { locate: loc(line), kind }
}

fn tree_of(nodes: Vec<Node>) -> SyntaxTree {
    SyntaxTree { nodes }
}

fn only(name: &str) -> Config {
    let mut c = Config::new();
    assert!(c.set(name, true));
    c
}

fn names(failures: &Vec<Failed>) -> Vec<&str> {
    failures.iter().map(|f| f.name.as_str()).collect()
}

#[test]
fn generate_keyword_compliant_and_violating() {
    let linter = Linter::new(only("generate_keyword"));
    let good = tree_of(vec![node(1, NodeKind::Other), node(2, NodeKind::ModuleDeclarationNonansi)]);
    assert!(lint_file(&linter, &good).is_empty());

    let bad = tree_of(vec![node(1, NodeKind::Other), node(3, NodeKind::GenerateRegion)]);
    let failures = lint_file(&linter, &bad);
    assert_eq!(names(&failures), vec!["generate_keyword"]);
    assert_eq!(failures[0].locate, loc(3));
    assert_eq!(failures[0].hint, "`generate`/`endgenerate` must be omitted");
}

#[test]
fn non_ansi_module_compliant_and_violating() {
    let linter = Linter::new(only("non_ansi_module"));
    let good = tree_of(vec![node(1, NodeKind::Other)]);
    assert!(lint_file(&linter, &good).is_empty());

    let bad = tree_of(vec![node(7, NodeKind::ModuleDeclarationNonansi)]);
    let failures = lint_file(&linter, &bad);
    assert_eq!(names(&failures), vec!["non_ansi_module"]);
    assert_eq!(failures[0].reason, "non-ANSI-style has duplicated port declaration");
}

#[test]
fn unique_keyword_compliant_and_violating() {
    let linter = Linter::new(only("unique_keyword"));
    let good = tree_of(vec![
        node(1, NodeKind::UniquePriority(UniquePriority::Priority)),
        node(2, NodeKind::UniquePriority(UniquePriority::Unique0)),
    ]);
    assert!(lint_file(&linter, &good).is_empty());

    let bad = tree_of(vec![node(4, NodeKind::UniquePriority(UniquePriority::Unique))]);
    let failures = lint_file(&linter, &bad);
    assert_eq!(names(&failures), vec!["unique_keyword"]);
}

#[test]
fn generate_if_labels() {
    let linter = Linter::new(only("generate_if_with_label"));

    let labeled_both = node(
        1,
        NodeKind::IfGenerateConstruct(IfGenerate {
            then_block: GenerateBlock::Multiple { labeled: true },
            else_branch: Some(ElseGenerate {
                keyword_locate: loc(9),
                block: GenerateBlock::Multiple { labeled: true },
            }),
        }),
    );
    assert!(lint_file(&linter, &tree_of(vec![labeled_both])).is_empty());

    // a label missing on the `if` block fails at the construct itself
    let unlabeled_then = node(
        2,
        NodeKind::IfGenerateConstruct(IfGenerate {
            then_block: GenerateBlock::Multiple { labeled: false },
            else_branch: None,
        }),
    );
    let failures = lint_file(&linter, &tree_of(vec![unlabeled_then]));
    assert_eq!(names(&failures), vec!["generate_if_with_label"]);
    assert_eq!(failures[0].locate, loc(2));

    // a missing `begin` block fails as well
    let bare_then = node(
        3,
        NodeKind::IfGenerateConstruct(IfGenerate {
            then_block: GenerateBlock::Single,
            else_branch: None,
        }),
    );
    assert_eq!(lint_file(&linter, &tree_of(vec![bare_then])).len(), 1);

    // a label missing on the `else` block fails at the `else` keyword
    let unlabeled_else = node(
        4,
        NodeKind::IfGenerateConstruct(IfGenerate {
            then_block: GenerateBlock::Multiple { labeled: true },
            else_branch: Some(ElseGenerate {
                keyword_locate: loc(11),
                block: GenerateBlock::Multiple { labeled: false },
            }),
        }),
    );
    let failures = lint_file(&linter, &tree_of(vec![unlabeled_else]));
    assert_eq!(failures[0].locate, loc(11));

    // an `else` chaining into a nested conditional is exempt
    let chained_else = node(
        5,
        NodeKind::IfGenerateConstruct(IfGenerate {
            then_block: GenerateBlock::Multiple { labeled: true },
            else_branch: Some(ElseGenerate {
                keyword_locate: loc(12),
                block: GenerateBlock::Single,
            }),
        }),
    );
    assert!(lint_file(&linter, &tree_of(vec![chained_else])).is_empty());
}

#[test]
fn single_enabled_rule_reports_only_itself() {
    let linter = Linter::new(only("generate_keyword"));
    let mixed = tree_of(vec![
        node(1, NodeKind::GenerateRegion),
        node(2, NodeKind::ModuleDeclarationNonansi),
        node(3, NodeKind::UniquePriority(UniquePriority::Unique)),
        node(4, NodeKind::GenerateRegion),
    ]);
    let failures = lint_file(&linter, &mixed);
    assert_eq!(names(&failures), vec!["generate_keyword", "generate_keyword"]);
}

#[test]
fn dispatch_is_node_then_rule_order() {
    let mut config = Config::new();
    config.set("generate_keyword", true);
    config.set("non_ansi_module", true);
    let linter = Linter::new(config);
    let tree = tree_of(vec![
        node(1, NodeKind::ModuleDeclarationNonansi),
        node(2, NodeKind::GenerateRegion),
    ]);
    let failures = lint_file(&linter, &tree);
    assert_eq!(names(&failures), vec!["non_ansi_module", "generate_keyword"]);
    assert_eq!(failures[0].locate, loc(1));
    assert_eq!(failures[1].locate, loc(2));
}

#[test]
fn disabled_rules_stay_silent() {
    let linter = Linter::new(Config::new());
    let tree = tree_of(vec![node(1, NodeKind::GenerateRegion)]);
    assert!(lint_file(&linter, &tree).is_empty());
}

#[test]
fn enable_all_enables_every_rule() {
    let linter = Linter::new(Config::new().enable_all());
    let tree = tree_of(vec![
        node(1, NodeKind::GenerateRegion),
        node(2, NodeKind::ModuleDeclarationNonansi),
    ]);
    assert_eq!(lint_file(&linter, &tree).len(), 2);
}

#[test]
fn unknown_config_name_is_ignored() {
    let mut c = Config::new();
    assert!(!c.set("no_such_rule", true));
    assert_eq!(c, Config::new());
}

#[test]
fn linting_twice_gives_identical_output() {
    let linter = Linter::new(Config::new().enable_all());
    let tree = tree_of(vec![
        node(1, NodeKind::GenerateRegion),
        node(2, NodeKind::Other),
        node(3, NodeKind::UniquePriority(UniquePriority::Unique)),
    ]);
    let first = lint_file(&linter, &tree);
    let second = lint_file(&linter, &tree);
    assert_eq!(first.len(), second.len());
    for (a, b) in first.iter().zip(second.iter()) {
        assert_eq!(a.name, b.name);
        assert_eq!(a.hint, b.hint);
        assert_eq!(a.reason, b.reason);
        assert_eq!(a.locate, b.locate);
    }
}

#[test]
fn verdicts_and_exit_codes() {
    let no_failures: Vec<Failed> = Vec::new();
    assert!(file_passes(&no_failures));

    let linter = Linter::new(Config::new().enable_all());
    let bad = tree_of(vec![node(1, NodeKind::GenerateRegion)]);
    let failures = lint_file(&linter, &bad);
    assert!(!file_passes(&failures));

    assert!(all_pass(&vec![true, true, true]));
    assert!(!all_pass(&vec![true, false, true]));
    assert!(all_pass(&Vec::new()));

    assert_eq!(exit_code(false, true), 0);
    assert_eq!(exit_code(false, false), 1);
    assert_eq!(exit_code(true, true), 2);
    assert_eq!(exit_code(true, false), 2);
}

#[test]
fn rule_result_locations() {
    let tree = tree_of(vec![node(1, NodeKind::GenerateRegion)]);
    let r = GenerateKeyword.check(&tree, &tree.nodes[0]);
    assert_eq!(r, RuleResult::Fail);
    assert_eq!(GenerateKeyword.name(), "generate_keyword");
    assert_eq!(GenerateKeyword.reason(), "");
}
