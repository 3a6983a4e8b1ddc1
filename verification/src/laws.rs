//! Laws of the resolver and the linter: properties that relate several
//! functions, stated over the same spec functions their contracts use and
//! proved once for all inputs.

use vstd::prelude::*;

use crate::defines::DefineView;
use crate::filelist::{
    apply_defines, assoc_lookup, expand_env, has_no_closer, line_step, nested_of, resolve_lines_spec,
    resolve_spec, token_at, token_end, FilelistView, ResolveOut,
};
use crate::linter::{failure_of, node_failures, rule_apply, rule_name, tree_failures, FailedView, RuleId};
use crate::strutil::{has_prefix, lemma_find_from_is, trim_spec};
use crate::syntax::Node;

verus! {

/// Folding manifest lines is compositional: resolving `l1 + l2` is resolving
/// `l1`, then resolving `l2` from the state it reached; an error in `l1` is
/// the whole result.
pub proof fn lemma_resolve_lines_append(
    fs: Seq<(String, String)>,
    l1: Seq<Seq<char>>,
    l2: Seq<Seq<char>>,
    env: Seq<(String, String)>,
    fuel: nat,
    st: FilelistView,
)
    ensures
        resolve_lines_spec(fs, l1 + l2, env, fuel, st) == (match resolve_lines_spec(
            fs,
            l1,
            env,
            fuel,
            st,
        ) {
            ResolveOut::Done(st2) => resolve_lines_spec(fs, l2, env, fuel, st2),
            out => out,
        }),
    decreases l1.len(),
{
    if l1.len() == 0 {
        assert(l1 + l2 =~= l2);
    } else {
        assert((l1 + l2)[0] == l1[0]);
        assert((l1 + l2).drop_first() =~= l1.drop_first() + l2);
        match nested_of(l1[0], env) {
            Some(p) => {
                if fuel != 0 {
                    match resolve_spec(fs, p, env, (fuel - 1) as nat, st) {
                        ResolveOut::Done(st2) => {
                            lemma_resolve_lines_append(fs, l1.drop_first(), l2, env, fuel, st2);
                        },
                        _ => {},
                    }
                }
            },
            None => {
                lemma_resolve_lines_append(
                    fs,
                    l1.drop_first(),
                    l2,
                    env,
                    fuel,
                    line_step(st, l1[0], env),
                );
            },
        }
    }
}

/// Filelist resolution is associative under nesting: a manifest whose lines
/// are `pre`, then a `-f` reference to `nested`, then `post`, resolves to
/// exactly what folding `pre`, then the nested manifest's fully resolved
/// content, then `post` resolves to, in that order.
pub proof fn lemma_nested_resolution_associative(
    fs: Seq<(String, String)>,
    pre: Seq<Seq<char>>,
    fline: Seq<char>,
    post: Seq<Seq<char>>,
    nested: Seq<char>,
    env: Seq<(String, String)>,
    fuel: nat,
    st: FilelistView,
)
    requires
        nested_of(fline, env) == Some(nested),
        fuel >= 1,
    ensures
        resolve_lines_spec(fs, pre + seq![fline] + post, env, fuel, st) == (match resolve_lines_spec(
            fs,
            pre,
            env,
            fuel,
            st,
        ) {
            ResolveOut::Done(st1) => match resolve_spec(fs, nested, env, (fuel - 1) as nat, st1) {
                ResolveOut::Done(st2) => resolve_lines_spec(fs, post, env, fuel, st2),
                out => out,
            },
            out => out,
        }),
{
    assert(pre + seq![fline] + post =~= pre + (seq![fline] + post));
    lemma_resolve_lines_append(fs, pre, seq![fline] + post, env, fuel, st);
    match resolve_lines_spec(fs, pre, env, fuel, st) {
        ResolveOut::Done(st1) => {
            assert((seq![fline] + post)[0] == fline);
            assert((seq![fline] + post).drop_first() =~= post);
        },
        _ => {},
    }
}

/// Folding `+define+` segments is compositional in the same way: segments
/// read later are applied to the table the earlier ones built.
pub proof fn lemma_apply_defines_append(
    m: Map<Seq<char>, Option<DefineView>>,
    s1: Seq<Seq<char>>,
    s2: Seq<Seq<char>>,
)
    ensures
        apply_defines(m, s1 + s2) == apply_defines(apply_defines(m, s1), s2),
    decreases s1.len(),
{
    if s1.len() == 0 {
        assert(s1 + s2 =~= s2);
    } else {
        assert((s1 + s2)[0] == s1[0]);
        assert((s1 + s2).drop_first() =~= s1.drop_first() + s2);
        lemma_apply_defines_append(
            m.insert(
                crate::filelist::define_entry(s1[0]).0,
                crate::filelist::define_entry(s1[0]).1,
            ),
            s1.drop_first(),
            s2,
        );
    }
}

/// Define override determinism: two `+define+` segments that define the same
/// identifier, applied in read order, leave exactly the later definition in
/// effect, whatever the table held before and whatever the earlier said.
pub proof fn lemma_define_override_in_directive(
    m: Map<Seq<char>, Option<DefineView>>,
    first: Seq<char>,
    second: Seq<char>,
)
    requires
        crate::filelist::define_entry(first).0 == crate::filelist::define_entry(second).0,
    ensures
        apply_defines(m, seq![first, second]) == apply_defines(m, seq![second]),
{
    let e1 = crate::filelist::define_entry(first);
    let e2 = crate::filelist::define_entry(second);
    let m1 = m.insert(e1.0, e1.1);
    assert(seq![first, second].drop_first() =~= seq![second]);
    assert(seq![second].drop_first() =~= Seq::<Seq<char>>::empty());
    assert(apply_defines(m, seq![first, second]) == apply_defines(m1, seq![second]));
    assert(apply_defines(m1, seq![second]) == apply_defines(
        m1.insert(e2.0, e2.1),
        Seq::<Seq<char>>::empty(),
    ));
    assert(apply_defines(m, seq![second]) == apply_defines(
        m.insert(e2.0, e2.1),
        Seq::<Seq<char>>::empty(),
    ));
    crate::defines::lemma_define_override(m, e2.0, e1.1, e2.1);
}

/// A `${NAME}` and a `$(NAME)` reference expand identically: both to the
/// environment's value of `NAME`. The name must not contain a closing
/// bracket, as such a reference never parses as one token.
pub proof fn lemma_env_expansion_forms(
    name: Seq<char>,
    env: Seq<(String, String)>,
    value: Seq<char>,
)
    requires
        name.len() > 0,
        has_no_closer(name),
        assoc_lookup(env, name) == Some(value),
    ensures
        expand_env(seq!['$', '{'] + name + seq!['}'], env) == value,
        expand_env(seq!['$', '('] + name + seq![')'], env) == value,
{
    lemma_expand_token(seq!['$', '{'] + name + seq!['}'], name, env, '{', '}');
    lemma_expand_token(seq!['$', '('] + name + seq![')'], name, env, '(', ')');
}

/// A reference to a name the environment does not hold stays unexpanded,
/// verbatim, in both forms.
pub proof fn lemma_env_expansion_unset(name: Seq<char>, env: Seq<(String, String)>)
    requires
        name.len() > 0,
        has_no_closer(name),
        assoc_lookup(env, name) is None,
    ensures
        expand_env(seq!['$', '{'] + name + seq!['}'], env) == seq!['$', '{'] + name + seq!['}'],
        expand_env(seq!['$', '('] + name + seq![')'], env) == seq!['$', '('] + name + seq![')'],
{
    lemma_expand_token(seq!['$', '{'] + name + seq!['}'], name, env, '{', '}');
    lemma_expand_token(seq!['$', '('] + name + seq![')'], name, env, '(', ')');
}

/// A line that is exactly one bracketed reference is one token: it expands
/// to the value when the environment holds the name, and to itself when not.
proof fn lemma_expand_token(
    s: Seq<char>,
    name: Seq<char>,
    env: Seq<(String, String)>,
    opener: char,
    closer: char,
)
    requires
        name.len() > 0,
        has_no_closer(name),
        opener == '{' && closer == '}' || opener == '(' && closer == ')',
        s == seq!['$', opener] + name + seq![closer],
    ensures
        expand_env(s, env) == (match assoc_lookup(env, name) {
            Some(v) => v,
            None => s,
        }),
{
    let j = 2 + name.len() as int;
    assert(s.len() == name.len() + 3);
    assert(s[0] == '$');
    assert(s[1] == opener);
    assert(s[j] == closer);
    assert(forall|k: int| 2 <= k < j ==> s[k] == name[k - 2]);
    assert(forall|k: int| 2 <= k < j ==> s[k] != closer);
    lemma_find_from_is(s, closer, 2, j);
    assert(token_end(s, 0) == j);
    assert(token_at(s, 0));
    assert(s.subrange(2, j) =~= name);
    assert(crate::filelist::expand_from(s, env, j + 1) =~= Seq::<char>::empty());
    match assoc_lookup(env, name) {
        Some(v) => {
            assert(expand_env(s, env) =~= v);
        },
        None => {
            assert(s.subrange(0, j + 1) =~= s);
            assert(expand_env(s, env) =~= s);
        },
    }
}

/// An unknown manifest directive — a token starting with `+` or `-` that
/// matches no known form — never raises an error and never changes the
/// state: in particular, it adds no file.
pub proof fn lemma_unknown_directive_ignored(
    st: FilelistView,
    raw: Seq<char>,
    env: Seq<(String, String)>,
)
    requires
        ({
            let e = expand_env(trim_spec(raw), env);
            &&& (has_prefix(e, "-"@) || has_prefix(e, "+"@))
            &&& !has_prefix(e, "+incdir"@)
            &&& !has_prefix(e, "+define"@)
            &&& !has_prefix(e, "-f "@)
        }),
    ensures
        line_step(st, raw, env) == st,
        nested_of(raw, env) is None,
{
}

/// With exactly one rule enabled, every reported failure names that rule,
/// and the tree passes exactly when that rule passes every node.
pub proof fn lemma_single_rule(r: RuleId, nodes: Seq<Node>)
    ensures
        forall|k: int|
            0 <= k < tree_failures(seq![r], nodes).len() ==> (#[trigger] tree_failures(
                seq![r],
                nodes,
            )[k]).name == rule_name(r),
        tree_failures(seq![r], nodes).len() == 0 <==> (forall|k: int|
            0 <= k < nodes.len() ==> rule_apply(r, #[trigger] nodes[k]) is Pass),
    decreases nodes.len(),
{
    let rules = seq![r];
    assert(rules.drop_first() =~= Seq::<RuleId>::empty());
    if nodes.len() > 0 {
        lemma_single_rule(r, nodes.drop_first());
        let head = node_failures(rules, nodes[0]);
        let tail = tree_failures(rules, nodes.drop_first());
        assert(node_failures(rules.drop_first(), nodes[0]) =~= Seq::<FailedView>::empty());
        if rule_apply(r, nodes[0]) is Pass {
            assert(head =~= Seq::<FailedView>::empty());
        } else {
            assert(head =~= seq![failure_of(r, nodes[0])]);
        }
        assert(tree_failures(rules, nodes) == head + tail);
        assert forall|k: int|
            0 <= k < tree_failures(rules, nodes).len() implies (#[trigger] tree_failures(
            rules,
            nodes,
        )[k]).name == rule_name(r) by {
            if k < head.len() {
                assert(tree_failures(rules, nodes)[k] == head[0]);
            } else {
                assert(tree_failures(rules, nodes)[k] == tail[k - head.len()]);
            }
        }
        if tree_failures(rules, nodes).len() == 0 {
            assert(head.len() == 0 && tail.len() == 0);
            assert forall|k: int| 0 <= k < nodes.len() implies rule_apply(
                r,
                #[trigger] nodes[k],
            ) is Pass by {
                if k > 0 {
                    assert(nodes[k] == nodes.drop_first()[k - 1]);
                }
            }
        } else if forall|k: int| 0 <= k < nodes.len() ==> rule_apply(r, #[trigger] nodes[k]) is Pass {
            assert(rule_apply(r, nodes[0]) is Pass);
            assert forall|k: int| 0 <= k < nodes.drop_first().len() implies rule_apply(
                r,
                #[trigger] nodes.drop_first()[k],
            ) is Pass by {
                assert(nodes.drop_first()[k] == nodes[k + 1]);
            }
            assert(tail.len() == 0);
            assert(false);
        }
    }
}

} // verus!
