//! Manifest resolution: directives, environment expansion, nesting and
//! define overrides, exercised on concrete manifests.

use svlint::defines::{Define, DefineTable};
use svlint::filelist::{resolve_filelist, FilelistError, FilelistState};

fn fs_of(entries: &[(&str, &str)]) -> Vec<(String, String)> {
    entries.iter().map(|(p, t)| (p.to_string(), t.to_string())).collect()
}

fn env_of(entries: &[(&str, &str)]) -> Vec<(String, String)> {
    entries.iter().map(|(n, v)| (n.to_string(), v.to_string())).collect()
}

fn resolve(fs: &Vec<(String, String)>, path: &str, env: &Vec<(String, String)>) -> FilelistState {
    resolve_filelist(fs, path, env, 64, FilelistState::new()).expect("resolution failed")
}

fn text_of(d: &Option<Define>) -> Option<&str> {
    d.as_ref().and_then(|d| d.text.as_deref())
}

#[test]
fn files_in_read_order() {
    let fs = fs_of(&[("list.f", "a.sv\nb.sv\n\n// comment\nc.sv\n")]);
    let st = resolve(&fs, "list.f", &env_of(&[]));
    assert_eq!(st.files, vec!["a.sv", "b.sv", "c.sv"]);
    assert!(st.incdirs.is_empty());
}

#[test]
fn incdir_splits_on_plus() {
    let fs = fs_of(&[("list.f", "+incdir+one+two\n+incdir+three\n")]);
    let st = resolve(&fs, "list.f", &env_of(&[]));
    assert_eq!(st.incdirs, vec!["one", "two", "three"]);
    assert!(st.files.is_empty());
}

#[test]
fn define_with_and_without_text() {
    let fs = fs_of(&[("list.f", "+define+WIDTH=8+DEBUG\n")]);
    let st = resolve(&fs, "list.f", &env_of(&[]));
    let w = st.defines.lookup("WIDTH").expect("WIDTH undefined");
    assert_eq!(text_of(w), Some("8"));
    let d = st.defines.lookup("DEBUG").expect("DEBUG undefined");
    assert!(d.is_none());
    assert!(st.defines.lookup("OTHER").is_none());
}

#[test]
fn define_text_keeps_later_equals_signs() {
    let fs = fs_of(&[("list.f", "+define+EXPR=a=b\n")]);
    let st = resolve(&fs, "list.f", &env_of(&[]));
    let e = st.defines.lookup("EXPR").expect("EXPR undefined");
    assert_eq!(text_of(e), Some("a=b"));
}

#[test]
fn define_override_last_write_wins() {
    let fs = fs_of(&[("list.f", "+define+X=1\n+define+X=2\n")]);
    let st = resolve(&fs, "list.f", &env_of(&[]));
    let x = st.defines.lookup("X").expect("X undefined");
    assert_eq!(text_of(x), Some("2"));
}

#[test]
fn define_override_across_nested_manifests() {
    let fs = fs_of(&[("a.f", "+define+X=1\n-f b.f\n"), ("b.f", "+define+X=2\n")]);
    let st = resolve(&fs, "a.f", &env_of(&[]));
    let x = st.defines.lookup("X").expect("X undefined");
    assert_eq!(text_of(x), Some("2"));
}

#[test]
fn nested_manifest_inlines_in_order() {
    let fs = fs_of(&[
        ("a.f", "a1.sv\n-f b.f\na2.sv\n"),
        ("b.f", "b1.sv\n+incdir+binc\nb2.sv\n"),
    ]);
    let st = resolve(&fs, "a.f", &env_of(&[]));
    assert_eq!(st.files, vec!["a1.sv", "b1.sv", "b2.sv", "a2.sv"]);
    assert_eq!(st.incdirs, vec!["binc"]);
}

#[test]
fn nesting_matches_manual_concatenation() {
    // Resolving `a.f` (which -f-includes `b.f` between its own lines) equals
    // resolving a manifest holding a's first lines, then b's resolved
    // content, then a's remaining lines.
    let fs = fs_of(&[
        ("a.f", "a1.sv\n+define+X=a\n-f b.f\na2.sv\n"),
        ("b.f", "b1.sv\n+define+X=b\n+incdir+bi\n"),
        ("manual.f", "a1.sv\n+define+X=a\nb1.sv\n+define+X=b\n+incdir+bi\na2.sv\n"),
    ]);
    let nested = resolve(&fs, "a.f", &env_of(&[]));
    let manual = resolve(&fs, "manual.f", &env_of(&[]));
    assert_eq!(nested.files, manual.files);
    assert_eq!(nested.incdirs, manual.incdirs);
    assert_eq!(
        text_of(nested.defines.lookup("X").unwrap()),
        text_of(manual.defines.lookup("X").unwrap())
    );
}

#[test]
fn missing_manifest_is_reported() {
    let fs = fs_of(&[("a.f", "-f b.f\n")]);
    match resolve_filelist(&fs, "a.f", &env_of(&[]), 64, FilelistState::new()) {
        Err(FilelistError::MissingFile(p)) => assert_eq!(p, "b.f"),
        other => panic!("expected a missing file, got {:?}", other.is_ok()),
    }
}

#[test]
fn cyclic_manifest_exhausts_fuel() {
    let fs = fs_of(&[("a.f", "-f a.f\n")]);
    match resolve_filelist(&fs, "a.f", &env_of(&[]), 8, FilelistState::new()) {
        Err(FilelistError::TooDeep) => {}
        other => panic!("expected nesting exhaustion, got {:?}", other.is_ok()),
    }
}

#[test]
fn env_brace_and_paren_expand_identically() {
    let fs = fs_of(&[
        ("brace.f", "${ROOT}/top.sv\n"),
        ("paren.f", "$(ROOT)/top.sv\n"),
    ]);
    let env = env_of(&[("ROOT", "/rtl")]);
    let b = resolve(&fs, "brace.f", &env);
    let p = resolve(&fs, "paren.f", &env);
    assert_eq!(b.files, vec!["/rtl/top.sv"]);
    assert_eq!(b.files, p.files);
}

#[test]
fn undefined_env_stays_verbatim() {
    let fs = fs_of(&[("list.f", "${NOSUCH}/top.sv\n$(NOSUCH)/bot.sv\n")]);
    let st = resolve(&fs, "list.f", &env_of(&[]));
    assert_eq!(st.files, vec!["${NOSUCH}/top.sv", "$(NOSUCH)/bot.sv"]);
}

#[test]
fn env_expansion_inside_directives() {
    let fs = fs_of(&[("list.f", "+incdir+${ROOT}/inc\n+define+HOME=${ROOT}\n")]);
    let env = env_of(&[("ROOT", "/rtl")]);
    let st = resolve(&fs, "list.f", &env);
    assert_eq!(st.incdirs, vec!["/rtl/inc"]);
    let h = st.defines.lookup("HOME").expect("HOME undefined");
    assert_eq!(text_of(h), Some("/rtl"));
}

#[test]
fn unknown_directives_are_ignored() {
    let fs = fs_of(&[("list.f", "+libext+.v\n-y somedir\n--unknown\n+define\nreal.sv\n")]);
    let st = resolve(&fs, "list.f", &env_of(&[]));
    // `+define` without a trailing `+` still dispatches as a define
    // directive: splitting `+define` on `+` yields the bare identifiers
    // `` and `define`.
    assert_eq!(st.files, vec!["real.sv"]);
    assert!(st.incdirs.is_empty());
    assert!(st.defines.lookup("define").is_some());
    assert!(st.defines.lookup("X").is_none());
}

#[test]
fn comments_and_blanks_change_nothing() {
    let fs = fs_of(&[("list.f", "// header\n\n   \n//+define+X=1\n")]);
    let st = resolve(&fs, "list.f", &env_of(&[]));
    assert!(st.files.is_empty());
    assert!(st.incdirs.is_empty());
    assert!(st.defines.lookup("X").is_none());
}

#[test]
fn resolution_is_deterministic() {
    let fs = fs_of(&[("a.f", "x.sv\n-f b.f\n+define+K=v\n"), ("b.f", "+incdir+i\ny.sv\n")]);
    let env = env_of(&[("HOME", "/h")]);
    let first = resolve(&fs, "a.f", &env);
    let second = resolve(&fs, "a.f", &env);
    assert_eq!(first.files, second.files);
    assert_eq!(first.incdirs, second.incdirs);
    assert_eq!(
        text_of(first.defines.lookup("K").unwrap()),
        text_of(second.defines.lookup("K").unwrap())
    );
}

#[test]
fn define_table_insert_and_lookup() {
    let mut t = DefineTable::new();
    t.insert(
        "A".to_string(),
        Some(Define { identifier: "A".to_string(), text: Some("1".to_string()) }),
    );
    t.insert("A".to_string(), None);
    let a = t.lookup("A").expect("A undefined");
    assert!(a.is_none());
    assert!(t.lookup("B").is_none());
}
