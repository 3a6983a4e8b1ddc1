//! Manifest ("filelist") resolution.
//!
//! A manifest lists, one per line, source file paths, `+incdir+` include
//! directories, `+define+` macro definitions and `-f` references to further
//! manifests. Resolution expands environment-variable references, dispatches
//! each line on its directive and recursively merges nested manifests into a
//! single ordered result, last definition winning.
//!
//! All outside state is handed in as plain values: the environment as a list
//! of name/value pairs, and the file system as a list of path/content pairs,
//! so that the whole resolution is a function of its arguments. The caller
//! performs the actual reads and retries with more content when resolution
//! reports a missing file.

use vstd::prelude::*;

use crate::defines::{Define, DefineTable, DefineView, value_view};
use crate::strutil::{
    find_from, has_prefix, split_char, strip_all, trim_spec, views_of,
    find_char, split_str, starts_with, strip_all_prefix, trim,
};

verus! {

/// First value paired with `key`, scanning left to right.
pub open spec fn assoc_lookup(s: Seq<(String, String)>, key: Seq<char>) -> Option<Seq<char>>
    decreases s.len()
{
    if s.len() == 0 {
        None
    } else if s[0].0@ == key {
        Some(s[0].1@)
    } else {
        assoc_lookup(s.drop_first(), key)
    }
}

proof fn lemma_assoc_lookup_at(s: Seq<(String, String)>, key: Seq<char>, i: int)
    requires
        0 <= i < s.len(),
        s[i].0@ == key,
        forall|k: int| 0 <= k < i ==> s[k].0@ != key,
    ensures
        assoc_lookup(s, key) == Some(s[i].1@),
    decreases i,
{
    if i > 0 {
        lemma_assoc_lookup_at(s.drop_first(), key, i - 1);
    }
}

proof fn lemma_assoc_lookup_none(s: Seq<(String, String)>, key: Seq<char>)
    requires
        forall|k: int| 0 <= k < s.len() ==> s[k].0@ != key,
    ensures
        assoc_lookup(s, key) is None,
    decreases s.len(),
{
    if s.len() > 0 {
        lemma_assoc_lookup_none(s.drop_first(), key);
    }
}

/// First value paired with `key`, as executable code.
pub fn assoc_get<'a>(s: &'a Vec<(String, String)>, key: &str) -> (r: Option<&'a String>)
    ensures
        match r {
            Some(v) => assoc_lookup(s@, key@) == Some(v@),
            None => assoc_lookup(s@, key@) is None,
        },
{
    let mut i: usize = 0;
    while i < s.len()
        invariant
            0 <= i <= s@.len(),
            forall|k: int| 0 <= k < i ==> s@[k].0@ != key@,
        decreases s@.len() - i,
    {
        if crate::strutil::str_eq(s[i].0.as_str(), key) {
            proof {
                lemma_assoc_lookup_at(s@, key@, i as int);
            }
            return Some(&s[i].1);
        }
        i += 1;
    }
    proof {
        lemma_assoc_lookup_none(s@, key@);
    }
    None
}

/// No closing bracket of either reference form occurs in `s`.
pub open spec fn has_no_closer(s: Seq<char>) -> bool {
    forall|k: int| 0 <= k < s.len() ==> s[k] != '}' && s[k] != ')'
}

/// The closing bracket matching an opening one.
pub open spec fn close_of(open: char) -> char {
    if open == '{' {
        '}'
    } else {
        ')'
    }
}

/// End of the environment-variable token opened at `i`: the first closing
/// bracket after the opener.
pub open spec fn token_end(s: Seq<char>, i: int) -> int {
    find_from(s, close_of(s[i + 1]), i + 2)
}

/// Does a complete `${NAME}` or `$(NAME)` token, with a non-empty name,
/// start at `i`?
pub open spec fn token_at(s: Seq<char>, i: int) -> bool {
    &&& s[i] == '$'
    &&& i + 1 < s.len()
    &&& (s[i + 1] == '{' || s[i + 1] == '(')
    &&& i + 3 <= token_end(s, i) < s.len()
}

/// The suffix of `s` from `i` with every environment-variable reference
/// `${NAME}` or `$(NAME)` replaced by its value, scanning left to right; a
/// reference whose name the environment does not hold stays verbatim, and
/// substituted text is not scanned again.
pub open spec fn expand_from(s: Seq<char>, env: Seq<(String, String)>, i: int) -> Seq<char>
    decreases s.len() - i when 0 <= i <= s.len()
{
    if i >= s.len() {
        Seq::empty()
    } else if token_at(s, i) {
        let j = token_end(s, i);
        let name = s.subrange(i + 2, j);
        (match assoc_lookup(env, name) {
            Some(v) => v,
            None => s.subrange(i, j + 1),
        }) + expand_from(s, env, j + 1)
    } else {
        seq![s[i]] + expand_from(s, env, i + 1)
    }
}

/// `s` with every environment-variable reference expanded.
pub open spec fn expand_env(s: Seq<char>, env: Seq<(String, String)>) -> Seq<char> {
    expand_from(s, env, 0)
}

/// Expands every `${NAME}` and `$(NAME)` reference in `s` from `env`,
/// leaving references to names `env` does not hold unexpanded.
pub fn expand_line(s: &str, env: &Vec<(String, String)>) -> (r: String)
    ensures
        r@ == expand_env(s@, env@),
{
    let len = s.unicode_len();
    let mut out = String::new();
    let mut i: usize = 0;
    while i < len
        invariant
            0 <= i <= len,
            len == s@.len(),
            out@ + expand_from(s@, env@, i as int) == expand_env(s@, env@),
        decreases len - i,
    {
        let ghost pre = out@;
        let c = s.get_char(i);
        let mut token = false;
        if c == '$' && i + 1 < len {
            let op = s.get_char(i + 1);
            if op == '{' || op == '(' {
                let close = if op == '{' {
                    '}'
                } else {
                    ')'
                };
                let j = find_char(s, close, i + 2);
                if j < len && j >= i + 3 {
                    token = true;
                    assert(token_at(s@, i as int) && token_end(s@, i as int) == j as int);
                    let name = s.substring_char(i + 2, j);
                    match assoc_get(env, name) {
                        Some(v) => out.append(v.as_str()),
                        None => {
                            let verbatim = s.substring_char(i, j + 1);
                            out.append(verbatim);
                        }
                    }
                    i = j + 1;
                }
            }
        }
        if !token {
            assert(!token_at(s@, i as int));
            let piece = s.substring_char(i, i + 1);
            out.append(piece);
            proof {
                assert(piece@ =~= seq![s@[i as int]]);
            }
            i += 1;
        }
    }
    proof {
        assert(expand_from(s@, env@, len as int) =~= Seq::<char>::empty());
        assert(out@ =~= out@ + expand_from(s@, env@, len as int));
    }
    out
}

/// The state a manifest resolution accumulates: source files and include
/// directories in read order, and the define table, last write winning.
pub struct FilelistState {
    pub files: Vec<String>,
    pub incdirs: Vec<String>,
    pub defines: DefineTable,
}

/// The mathematical content of a [`FilelistState`].
#[verifier::ext_equal]
pub struct FilelistView {
    pub files: Seq<Seq<char>>,
    pub incdirs: Seq<Seq<char>>,
    pub defines: Map<Seq<char>, Option<DefineView>>,
}

impl View for FilelistState {
    type V = FilelistView;

    open spec fn view(&self) -> FilelistView {
        FilelistView {
            files: views_of(self.files@),
            incdirs: views_of(self.incdirs@),
            defines: self.defines@,
        }
    }
}

impl FilelistState {
    /// An empty resolution state.
    pub fn new() -> (r: FilelistState)
        ensures
            r@.files == Seq::<Seq<char>>::empty(),
            r@.incdirs == Seq::<Seq<char>>::empty(),
            r@.defines == Map::<Seq<char>, Option<DefineView>>::empty(),
    {
        let r = FilelistState { files: Vec::new(), incdirs: Vec::new(), defines: DefineTable::new() };
        proof {
            assert(views_of(r.files@) =~= Seq::<Seq<char>>::empty());
            assert(views_of(r.incdirs@) =~= Seq::<Seq<char>>::empty());
        }
        r
    }
}

/// The table entry described by one `+define+` segment: `NAME=TEXT` defines
/// `NAME` with body `TEXT` (the text begins after the first `=`), a bare
/// `NAME` defines it without a body.
pub open spec fn define_entry(seg: Seq<char>) -> (Seq<char>, Option<DefineView>) {
    let p = find_from(seg, '=', 0);
    if p < seg.len() {
        (
            seg.subrange(0, p),
            Some(
                DefineView {
                    identifier: seg.subrange(0, p),
                    text: Some(seg.subrange(p + 1, seg.len() as int)),
                },
            ),
        )
    } else {
        (seg, None)
    }
}

/// Folds the `+define+` segments into the table, in order, later segments
/// overriding earlier ones.
pub open spec fn apply_defines(
    m: Map<Seq<char>, Option<DefineView>>,
    segs: Seq<Seq<char>>,
) -> Map<Seq<char>, Option<DefineView>>
    decreases segs.len()
{
    if segs.len() == 0 {
        m
    } else {
        apply_defines(m.insert(define_entry(segs[0]).0, define_entry(segs[0]).1), segs.drop_first())
    }
}

/// The effect of one manifest line that is not a nested `-f` reference.
///
/// The line is trimmed; blank lines and `//` comments change nothing. After
/// environment expansion, `+incdir+` appends its `+`-separated directories,
/// `+define+` inserts its `+`-separated definitions, any other line starting
/// with `+` or `-` is ignored as an unknown directive, and anything else is a
/// source file path.
pub open spec fn line_step(
    st: FilelistView,
    raw: Seq<char>,
    env: Seq<(String, String)>,
) -> FilelistView {
    let t = trim_spec(raw);
    if t.len() == 0 || has_prefix(t, "//"@) {
        st
    } else {
        let e = expand_env(t, env);
        if has_prefix(e, "+incdir"@) {
            FilelistView { incdirs: st.incdirs + split_char(strip_all(e, "+incdir+"@), '+'), ..st }
        } else if has_prefix(e, "+define"@) {
            FilelistView {
                defines: apply_defines(st.defines, split_char(strip_all(e, "+define+"@), '+')),
                ..st
            }
        } else if has_prefix(e, "-f "@) {
            st
        } else if has_prefix(e, "-"@) || has_prefix(e, "+"@) {
            st
        } else {
            FilelistView { files: st.files.push(e), ..st }
        }
    }
}

/// The nested manifest path a line refers to, when the line is a `-f`
/// directive after trimming and expansion.
pub open spec fn nested_of(raw: Seq<char>, env: Seq<(String, String)>) -> Option<Seq<char>> {
    let t = trim_spec(raw);
    if t.len() == 0 || has_prefix(t, "//"@) {
        None
    } else {
        let e = expand_env(t, env);
        if has_prefix(e, "+incdir"@) || has_prefix(e, "+define"@) {
            None
        } else if has_prefix(e, "-f "@) {
            Some(strip_all(e, "-f "@))
        } else {
            None
        }
    }
}

/// Applies one manifest line to the state, or returns the nested manifest
/// path when the line is a `-f` reference (leaving the state unchanged).
pub fn step_line(st: &mut FilelistState, raw: &str, env: &Vec<(String, String)>) -> (r: Option<
    String,
>)
    ensures
        match r {
            Some(p) => nested_of(raw@, env@) == Some(p@) && final(st)@ == old(st)@,
            None => nested_of(raw@, env@) is None && final(st)@ == line_step(old(st)@, raw@, env@),
        },
{
    proof {
        reveal_strlit("+incdir+");
        reveal_strlit("+define+");
        reveal_strlit("-f ");
    }
    let t = trim(raw);
    if t.unicode_len() == 0 || starts_with(t, "//") {
        assert(st@ =~~= line_step(st@, raw@, env@));
        return None;
    }
    let e = expand_line(t, env);
    if starts_with(e.as_str(), "+incdir") {
        let rest = strip_all_prefix(e.as_str(), "+incdir+");
        let mut dirs = split_str(rest, '+');
        let ghost pre = st.incdirs@;
        let ghost dv = views_of(dirs@);
        st.incdirs.append(&mut dirs);
        proof {
            assert(views_of(st.incdirs@) =~= views_of(pre) + dv);
            assert(st@ =~~= line_step(old(st)@, raw@, env@));
        }
        None
    } else if starts_with(e.as_str(), "+define") {
        let rest = strip_all_prefix(e.as_str(), "+define+");
        let segs = split_str(rest, '+');
        let ghost sv = views_of(segs@);
        let ghost m0 = st.defines@;
        proof {
            assert(sv.skip(0) =~= sv);
        }
        let mut k: usize = 0;
        while k < segs.len()
            invariant
                0 <= k <= segs@.len(),
                sv == views_of(segs@),
                st.files@ == old(st).files@,
                st.incdirs@ == old(st).incdirs@,
                apply_defines(st.defines@, sv.skip(k as int)) == apply_defines(m0, sv),
            decreases segs@.len() - k,
        {
            let seg: &String = &segs[k];
            let ghost segv = seg@;
            let seglen = seg.as_str().unicode_len();
            let p = find_char(seg.as_str(), '=', 0);
            if p < seglen {
                let identifier = seg.as_str().substring_char(0, p).to_owned();
                let text = seg.as_str().substring_char(p + 1, seglen).to_owned();
                let def = Define { identifier: identifier.clone(), text: Some(text) };
                assert(value_view(Some(def)) == define_entry(segv).1);
                st.defines.insert(identifier, Some(def));
            } else {
                let identifier = seg.as_str().substring_char(0, seglen).to_owned();
                assert(identifier@ =~= segv);
                st.defines.insert(identifier, None);
            }
            proof {
                assert(sv.skip(k as int).drop_first() =~= sv.skip(k as int + 1));
            }
            k += 1;
        }
        proof {
            assert(sv.skip(segs@.len() as int) =~= Seq::<Seq<char>>::empty());
            assert(st@ =~~= line_step(old(st)@, raw@, env@));
        }
        None
    } else if starts_with(e.as_str(), "-f ") {
        let p = strip_all_prefix(e.as_str(), "-f ");
        Some(p.to_owned())
    } else if starts_with(e.as_str(), "-") || starts_with(e.as_str(), "+") {
        assert(st@ =~~= line_step(old(st)@, raw@, env@));
        None
    } else {
        let ghost pre = st.files@;
        st.files.push(e);
        proof {
            assert(views_of(st.files@) =~= views_of(pre).push(st.files@.last()@));
            assert(st@ =~~= line_step(old(st)@, raw@, env@));
        }
        None
    }
}

/// The outcome of resolving a manifest: the final state, a manifest that the
/// given file system does not hold, or nesting deeper than the given bound.
pub enum ResolveOut {
    Done(FilelistView),
    Missing(Seq<char>),
    Deep,
}

/// Resolves the manifest at `path`: looks its text up in `fs`, then folds
/// its lines into `st` in read order, recursing on `-f` references with one
/// unit of `fuel` spent per nesting level.
pub open spec fn resolve_spec(
    fs: Seq<(String, String)>,
    path: Seq<char>,
    env: Seq<(String, String)>,
    fuel: nat,
    st: FilelistView,
) -> ResolveOut
    decreases fuel, 1nat, 0nat,
{
    if fuel == 0 {
        ResolveOut::Deep
    } else {
        match assoc_lookup(fs, path) {
            None => ResolveOut::Missing(path),
            Some(text) => resolve_lines_spec(fs, split_char(text, '\n'), env, fuel, st),
        }
    }
}

/// Folds manifest lines into the state in read order; a `-f` line resolves
/// the nested manifest at that point, threading the state through it.
pub open spec fn resolve_lines_spec(
    fs: Seq<(String, String)>,
    lines: Seq<Seq<char>>,
    env: Seq<(String, String)>,
    fuel: nat,
    st: FilelistView,
) -> ResolveOut
    decreases fuel, 0nat, lines.len(),
{
    if lines.len() == 0 {
        ResolveOut::Done(st)
    } else {
        match nested_of(lines[0], env) {
            Some(p) => {
                if fuel == 0 {
                    ResolveOut::Deep
                } else {
                    match resolve_spec(fs, p, env, (fuel - 1) as nat, st) {
                        ResolveOut::Done(st2) => resolve_lines_spec(
                            fs,
                            lines.drop_first(),
                            env,
                            fuel,
                            st2,
                        ),
                        out => out,
                    }
                }
            }
            None => resolve_lines_spec(fs, lines.drop_first(), env, fuel, line_step(st, lines[0], env)),
        }
    }
}

/// Why a manifest resolution stopped.
#[derive(Debug, Clone, PartialEq, Eq)]
pub enum FilelistError {
    /// The given file system holds no text for this manifest path; the
    /// caller may read it and retry.
    MissingFile(String),
    /// Nesting exhausted the recursion bound.
    TooDeep,
}

/// Resolves the manifest at `path` against the in-memory file system `fs`
/// and environment `env`, folding its directives into `st`.
pub fn resolve_filelist(
    fs: &Vec<(String, String)>,
    path: &str,
    env: &Vec<(String, String)>,
    fuel: u64,
    st: FilelistState,
) -> (r: Result<FilelistState, FilelistError>)
    ensures
        match r {
            Ok(out) => resolve_spec(fs@, path@, env@, fuel as nat, st@) == ResolveOut::Done(out@),
            Err(FilelistError::MissingFile(p)) => resolve_spec(fs@, path@, env@, fuel as nat, st@)
                == ResolveOut::Missing(p@),
            Err(FilelistError::TooDeep) => resolve_spec(fs@, path@, env@, fuel as nat, st@)
                == ResolveOut::Deep,
        },
    decreases fuel,
{
    if fuel == 0 {
        return Err(FilelistError::TooDeep);
    }
    let text = match assoc_get(fs, path) {
        Some(t) => t,
        None => {
            return Err(FilelistError::MissingFile(path.to_owned()));
        }
    };
    let ghost tv = text@;
    let lines = split_str(text.as_str(), '\n');
    let ghost lv = views_of(lines@);
    proof {
        assert(lv.skip(0) =~= lv);
        assert(resolve_spec(fs@, path@, env@, fuel as nat, st@) == resolve_lines_spec(
            fs@,
            split_char(tv, '\n'),
            env@,
            fuel as nat,
            st@,
        ));
    }
    let mut cur = st;
    let mut i: usize = 0;
    while i < lines.len()
        invariant
            0 <= i <= lines@.len(),
            fuel >= 1,
            lv == views_of(lines@),
            resolve_lines_spec(fs@, lv.skip(i as int), env@, fuel as nat, cur@) == resolve_spec(
                fs@,
                path@,
                env@,
                fuel as nat,
                st@,
            ),
        decreases lines@.len() - i,
    {
        proof {
            assert(lv.skip(i as int)[0] == lv[i as int]);
            assert(lv.skip(i as int).drop_first() =~= lv.skip(i as int + 1));
        }
        let line: &String = &lines[i];
        match step_line(&mut cur, line.as_str(), env) {
            None => {},
            Some(p) => {
                match resolve_filelist(fs, p.as_str(), env, fuel - 1, cur) {
                    Ok(next) => {
                        cur = next;
                    },
                    Err(e) => {
                        return Err(e);
                    },
                }
            },
        }
        i += 1;
    }
    proof {
        assert(lv.skip(lines@.len() as int) =~= Seq::<Seq<char>>::empty());
    }
    Ok(cur)
}

} // verus!
