//! End-to-end scenarios across resolution, configuration and dispatch, plus
//! the smaller decision helpers.

use svlint::diag::{parse_error_message, ParseFailure};
use svlint::filelist::{resolve_filelist, FilelistState};
use svlint::linter::{file_passes, lint_file, Config, Linter};
use svlint::defines::DefineTable;
use svlint::opt::{first_existing, initial_filelist_state, Opt};
use svlint::syntax::{Locate, Node, NodeKind, SyntaxTree};
use svlint::exit_code;

#[test]
fn manifest_define_then_lint_generate_keyword() {
    // A manifest defining WIDTH=8 and listing design.sv, with only the
    // generate_keyword rule enabled: a tree holding a generate region fails
    // with a diagnostic naming that rule; without the region the run passes
    // with exit code 0.
    let fs = vec![("design.f".to_string(), "+define+WIDTH=8\ndesign.sv\n".to_string())];
    let env: Vec<(String, String)> = Vec::new();
    let st = resolve_filelist(&fs, "design.f", &env, 16, FilelistState::new()).unwrap();
    assert_eq!(st.files, vec!["design.sv"]);
    let width = st.defines.lookup("WIDTH").unwrap();
    assert_eq!(width.as_ref().unwrap().text.as_deref(), Some("8"));

    let mut config = Config::new();
    config.set("generate_keyword", true);
    let linter = Linter::new(config);

    let with_region = SyntaxTree {
        nodes: vec![
            Node { locate: Locate { offset: 0, line: 1, len: 6 }, kind: NodeKind::Other },
            Node { locate: Locate { offset: 10, line: 2, len: 8 }, kind: NodeKind::GenerateRegion },
        ],
    };
    let failures = lint_file(&linter, &with_region);
    assert_eq!(failures.len(), 1);
    assert_eq!(failures[0].name, "generate_keyword");
    let pass = file_passes(&failures);
    assert!(!pass);
    assert_eq!(exit_code(false, pass), 1);

    let without_region = SyntaxTree {
        nodes: vec![Node { locate: Locate { offset: 0, line: 1, len: 6 }, kind: NodeKind::Other }],
    };
    let failures = lint_file(&linter, &without_region);
    let pass = file_passes(&failures);
    assert!(pass);
    assert_eq!(exit_code(false, pass), 0);
}

#[test]
fn parse_error_messages() {
    assert_eq!(
        parse_error_message(&ParseFailure::IncludeNotFound { path: "inc.svh".to_string() }),
        Some("failed to include 'inc.svh'".to_string())
    );
    assert_eq!(
        parse_error_message(&ParseFailure::DefineArgNotFound { name: "A".to_string() }),
        Some("define argument 'A' is not found".to_string())
    );
    assert_eq!(
        parse_error_message(&ParseFailure::DefineNotFound { name: "B".to_string() }),
        Some("define 'B' is not found".to_string())
    );
    assert_eq!(
        parse_error_message(&ParseFailure::SyntaxError { path: "x.sv".to_string(), offset: 3 }),
        None
    );
    assert_eq!(
        parse_error_message(&ParseFailure::Other { message: "boom".to_string() }),
        Some("boom".to_string())
    );
}

#[test]
fn options_seed_the_initial_state() {
    let mut opt = Opt::new();
    assert_eq!(opt.config, ".svlint.toml");
    opt.files.push("top.sv".to_string());
    opt.includes.push("rtl/inc".to_string());
    let st = initial_filelist_state(&opt, DefineTable::new());
    assert_eq!(st.files, vec!["top.sv"]);
    assert_eq!(st.incdirs, vec!["rtl/inc"]);
    assert_eq!(st.defines.entry_count(), 0);
}

#[test]
fn config_search_picks_the_nearest_candidate() {
    assert_eq!(first_existing(&vec![false, true, true]), Some(1));
    assert_eq!(first_existing(&vec![true]), Some(0));
    assert_eq!(first_existing(&vec![false, false]), None);
    assert_eq!(first_existing(&Vec::new()), None);
}
