//! The rule registry and dispatch.
//!
//! A [`Linter`] owns the set of enabled rules, built from a [`Config`]. Its
//! [`Linter::check`] dispatches one node to every enabled rule, in
//! registration order, and returns a [`Failed`] record for every rule the
//! node violates; [`lint_file`] does so for every node of a tree in order. A
//! file passes exactly when no dispatched (node, rule) pair fails, and a run
//! passes exactly when every file does.

use vstd::prelude::*;

use crate::rules::generate_if_with_label::{generate_if_with_label_spec, GenerateIfWithLabel};
use crate::rules::generate_keyword::{generate_keyword_spec, GenerateKeyword};
use crate::rules::non_ansi_module::{non_ansi_module_spec, NonAnsiModule};
use crate::rules::unique_keyword::{unique_keyword_spec, UniqueKeyword};
use crate::syntax::{Locate, Node, SyntaxTree};

verus! {

/// What a rule says of one node: compliant (or irrelevant), non-compliant at
/// the dispatched node, or non-compliant at an overridden location (used when
/// the offending sub-construct differs from the dispatched node).
#[derive(Debug, Clone, Copy, PartialEq, Eq)]
pub enum RuleResult {
    Pass,
    Fail,
    FailLocate(Locate),
}

/// The built-in rules, by their stable, case-sensitive names.
#[derive(Debug, Clone, Copy, PartialEq, Eq)]
pub enum RuleId {
    GenerateIfWithLabel,
    GenerateKeyword,
    NonAnsiModule,
    UniqueKeyword,
}

/// Which built-in rules a run enables; one flag per rule name.
#[derive(Debug, Clone, Copy, PartialEq, Eq, Structural)]
pub struct Config {
    pub generate_if_with_label: bool,
    pub generate_keyword: bool,
    pub non_ansi_module: bool,
    pub unique_keyword: bool,
}

/// `c` with the flag called `name` set to `enabled`; unknown names change
/// nothing.
pub open spec fn config_with(c: Config, name: Seq<char>, enabled: bool) -> Config {
    Config {
        generate_if_with_label: if name == "generate_if_with_label"@ {
            enabled
        } else {
            c.generate_if_with_label
        },
        generate_keyword: if name == "generate_keyword"@ {
            enabled
        } else {
            c.generate_keyword
        },
        non_ansi_module: if name == "non_ansi_module"@ {
            enabled
        } else {
            c.non_ansi_module
        },
        unique_keyword: if name == "unique_keyword"@ {
            enabled
        } else {
            c.unique_keyword
        },
    }
}

/// Is `name` the name of a built-in rule?
pub open spec fn known_rule(name: Seq<char>) -> bool {
    ||| name == "generate_if_with_label"@
    ||| name == "generate_keyword"@
    ||| name == "non_ansi_module"@
    ||| name == "unique_keyword"@
}

impl Config {
    /// A configuration with every rule disabled.
    pub fn new() -> (r: Config)
        ensures
            r == (Config {
                generate_if_with_label: false,
                generate_keyword: false,
                non_ansi_module: false,
                unique_keyword: false,
            }),
    {
        Config {
            generate_if_with_label: false,
            generate_keyword: false,
            non_ansi_module: false,
            unique_keyword: false,
        }
    }

    /// This configuration with every rule enabled, used when no configuration
    /// file was found.
    pub fn enable_all(self) -> (r: Config)
        ensures
            r == (Config {
                generate_if_with_label: true,
                generate_keyword: true,
                non_ansi_module: true,
                unique_keyword: true,
            }),
    {
        Config {
            generate_if_with_label: true,
            generate_keyword: true,
            non_ansi_module: true,
            unique_keyword: true,
        }
    }

    /// Sets the flag called `name`, returning whether the name was known; an
    /// unknown rule name is ignored and changes nothing.
    pub fn set(&mut self, name: &str, enabled: bool) -> (r: bool)
        ensures
            *final(self) == config_with(*old(self), name@, enabled),
            r == known_rule(name@),
    {
        let mut known = false;
        if crate::strutil::str_eq(name, "generate_if_with_label") {
            self.generate_if_with_label = enabled;
            known = true;
        }
        if crate::strutil::str_eq(name, "generate_keyword") {
            self.generate_keyword = enabled;
            known = true;
        }
        if crate::strutil::str_eq(name, "non_ansi_module") {
            self.non_ansi_module = enabled;
            known = true;
        }
        if crate::strutil::str_eq(name, "unique_keyword") {
            self.unique_keyword = enabled;
            known = true;
        }
        known
    }
}

/// The result the rule called `r` gives for `node`.
pub open spec fn rule_apply(r: RuleId, node: Node) -> RuleResult {
    match r {
        RuleId::GenerateIfWithLabel => generate_if_with_label_spec(node),
        RuleId::GenerateKeyword => generate_keyword_spec(node),
        RuleId::NonAnsiModule => non_ansi_module_spec(node),
        RuleId::UniqueKeyword => unique_keyword_spec(node),
    }
}

/// The stable name of a rule.
pub open spec fn rule_name(r: RuleId) -> Seq<char> {
    match r {
        RuleId::GenerateIfWithLabel => "generate_if_with_label"@,
        RuleId::GenerateKeyword => "generate_keyword"@,
        RuleId::NonAnsiModule => "non_ansi_module"@,
        RuleId::UniqueKeyword => "unique_keyword"@,
    }
}

/// The hint of a rule.
pub open spec fn rule_hint(r: RuleId) -> Seq<char> {
    match r {
        RuleId::GenerateIfWithLabel => "`generate if` must have label"@,
        RuleId::GenerateKeyword => "`generate`/`endgenerate` must be omitted"@,
        RuleId::NonAnsiModule => "module declaration must be ANSI-style"@,
        RuleId::UniqueKeyword => "`unique` is forbidden"@,
    }
}

/// The reason of a rule.
pub open spec fn rule_reason(r: RuleId) -> Seq<char> {
    match r {
        RuleId::GenerateIfWithLabel => "the hierarchiral path can't be determined"@,
        RuleId::GenerateKeyword => ""@,
        RuleId::NonAnsiModule => "non-ANSI-style has duplicated port declaration"@,
        RuleId::UniqueKeyword => "this causes mismatch between simulaton and synthesis"@,
    }
}

/// One reported violation: the failing rule's name, hint and reason, and the
/// source location, which is the dispatched node's own unless the rule
/// overrode it.
#[derive(Debug, Clone)]
pub struct Failed {
    pub name: String,
    pub hint: String,
    pub reason: String,
    pub locate: Locate,
}

/// The mathematical content of a [`Failed`].
#[verifier::ext_equal]
pub struct FailedView {
    pub name: Seq<char>,
    pub hint: Seq<char>,
    pub reason: Seq<char>,
    pub locate: Locate,
}

impl View for Failed {
    type V = FailedView;

    open spec fn view(&self) -> FailedView {
        FailedView { name: self.name@, hint: self.hint@, reason: self.reason@, locate: self.locate }
    }
}

/// The views of a sequence of failures.
pub open spec fn failed_views(s: Seq<Failed>) -> Seq<FailedView> {
    s.map_values(|f: Failed| f@)
}

/// The record reported when rule `r` fails on `node`.
pub open spec fn failure_of(r: RuleId, node: Node) -> FailedView {
    FailedView {
        name: rule_name(r),
        hint: rule_hint(r),
        reason: rule_reason(r),
        locate: match rule_apply(r, node) {
            RuleResult::FailLocate(l) => l,
            _ => node.locate,
        },
    }
}

/// The failures of one node against the rules, in rule order.
pub open spec fn node_failures(rules: Seq<RuleId>, node: Node) -> Seq<FailedView>
    decreases rules.len()
{
    if rules.len() == 0 {
        Seq::empty()
    } else {
        (if rule_apply(rules[0], node) is Pass {
            Seq::empty()
        } else {
            seq![failure_of(rules[0], node)]
        }) + node_failures(rules.drop_first(), node)
    }
}

/// The failures of a whole tree: every node against every rule, in node-
/// then-rule order.
pub open spec fn tree_failures(rules: Seq<RuleId>, nodes: Seq<Node>) -> Seq<FailedView>
    decreases nodes.len()
{
    if nodes.len() == 0 {
        Seq::empty()
    } else {
        node_failures(rules, nodes[0]) + tree_failures(rules, nodes.drop_first())
    }
}

/// The rules a configuration enables, in registration order.
pub open spec fn active_rules(c: Config) -> Seq<RuleId> {
    (if c.generate_if_with_label {
        seq![RuleId::GenerateIfWithLabel]
    } else {
        Seq::empty()
    }) + (if c.generate_keyword {
        seq![RuleId::GenerateKeyword]
    } else {
        Seq::empty()
    }) + (if c.non_ansi_module {
        seq![RuleId::NonAnsiModule]
    } else {
        Seq::empty()
    }) + (if c.unique_keyword {
        seq![RuleId::UniqueKeyword]
    } else {
        Seq::empty()
    })
}

/// Applies the rule called `r` to one node.
fn apply_rule(r: RuleId, syntax_tree: &SyntaxTree, node: &Node) -> (res: RuleResult)
    ensures
        res == rule_apply(r, *node),
{
    match r {
        RuleId::GenerateIfWithLabel => GenerateIfWithLabel.check(syntax_tree, node),
        RuleId::GenerateKeyword => GenerateKeyword.check(syntax_tree, node),
        RuleId::NonAnsiModule => NonAnsiModule.check(syntax_tree, node),
        RuleId::UniqueKeyword => UniqueKeyword.check(syntax_tree, node),
    }
}

/// The name of the rule called `r`.
fn name_of(r: RuleId) -> (res: String)
    ensures
        res@ == rule_name(r),
{
    match r {
        RuleId::GenerateIfWithLabel => GenerateIfWithLabel.name(),
        RuleId::GenerateKeyword => GenerateKeyword.name(),
        RuleId::NonAnsiModule => NonAnsiModule.name(),
        RuleId::UniqueKeyword => UniqueKeyword.name(),
    }
}

/// The hint of the rule called `r`.
fn hint_of(r: RuleId) -> (res: String)
    ensures
        res@ == rule_hint(r),
{
    match r {
        RuleId::GenerateIfWithLabel => GenerateIfWithLabel.hint(),
        RuleId::GenerateKeyword => GenerateKeyword.hint(),
        RuleId::NonAnsiModule => NonAnsiModule.hint(),
        RuleId::UniqueKeyword => UniqueKeyword.hint(),
    }
}

/// The reason of the rule called `r`.
fn reason_of(r: RuleId) -> (res: String)
    ensures
        res@ == rule_reason(r),
{
    match r {
        RuleId::GenerateIfWithLabel => GenerateIfWithLabel.reason(),
        RuleId::GenerateKeyword => GenerateKeyword.reason(),
        RuleId::NonAnsiModule => NonAnsiModule.reason(),
        RuleId::UniqueKeyword => UniqueKeyword.reason(),
    }
}

/// The rule registry: the enabled rules, in registration order. At most one
/// instance of each rule is active, since each configuration flag contributes
/// its rule once.
pub struct Linter {
    pub rules: Vec<RuleId>,
}

impl Linter {
    /// Builds the registry, enabling exactly the rules whose configuration
    /// flag is set. At most one instance per rule name is ever active.
    pub fn new(config: Config) -> (r: Linter)
        ensures
            r.rules@ == active_rules(config),
            forall|i: int, j: int|
                0 <= i < j < r.rules@.len() ==> r.rules@[i] != r.rules@[j],
    {
        let mut rules: Vec<RuleId> = Vec::new();
        if config.generate_if_with_label {
            rules.push(RuleId::GenerateIfWithLabel);
        }
        if config.generate_keyword {
            rules.push(RuleId::GenerateKeyword);
        }
        if config.non_ansi_module {
            rules.push(RuleId::NonAnsiModule);
        }
        if config.unique_keyword {
            rules.push(RuleId::UniqueKeyword);
        }
        proof {
            assert(rules@ =~= active_rules(config));
        }
        Linter { rules }
    }

    /// Dispatches one node to every enabled rule, in registration order, and
    /// returns the failures.
    pub fn check(&self, syntax_tree: &SyntaxTree, node: &Node) -> (r: Vec<Failed>)
        ensures
            failed_views(r@) == node_failures(self.rules@, *node),
    {
        let mut out: Vec<Failed> = Vec::new();
        let ghost rs = self.rules@;
        proof {
            assert(rs.skip(0) =~= rs);
            assert(failed_views(out@) =~= Seq::<FailedView>::empty());
        }
        let mut i: usize = 0;
        while i < self.rules.len()
            invariant
                0 <= i <= rs.len(),
                rs == self.rules@,
                failed_views(out@) + node_failures(rs.skip(i as int), *node) == node_failures(
                    rs,
                    *node,
                ),
            decreases rs.len() - i,
        {
            proof {
                assert(rs.skip(i as int)[0] == rs[i as int]);
                assert(rs.skip(i as int).drop_first() =~= rs.skip(i as int + 1));
            }
            let rule = self.rules[i];
            let res = apply_rule(rule, syntax_tree, node);
            match res {
                RuleResult::Pass => {},
                RuleResult::Fail => {
                    let ghost pre = out@;
                    out.push(
                        Failed {
                            name: name_of(rule),
                            hint: hint_of(rule),
                            reason: reason_of(rule),
                            locate: node.locate,
                        },
                    );
                    proof {
                        assert(failed_views(out@) =~= failed_views(pre).push(out@.last()@));
                    }
                },
                RuleResult::FailLocate(locate) => {
                    let ghost pre = out@;
                    out.push(
                        Failed {
                            name: name_of(rule),
                            hint: hint_of(rule),
                            reason: reason_of(rule),
                            locate,
                        },
                    );
                    proof {
                        assert(failed_views(out@) =~= failed_views(pre).push(out@.last()@));
                    }
                },
            }
            i += 1;
        }
        proof {
            assert(rs.skip(rs.len() as int) =~= Seq::<RuleId>::empty());
            assert(failed_views(out@) =~= failed_views(out@) + node_failures(
                rs.skip(rs.len() as int),
                *node,
            ));
        }
        out
    }
}

/// Dispatches every node of a tree, in order, to every enabled rule and
/// collects the failures in node-then-rule order. The file passes exactly
/// when the result is empty.
pub fn lint_file(linter: &Linter, syntax_tree: &SyntaxTree) -> (r: Vec<Failed>)
    ensures
        failed_views(r@) == tree_failures(linter.rules@, syntax_tree.nodes@),
{
    let mut out: Vec<Failed> = Vec::new();
    let ghost ns = syntax_tree.nodes@;
    proof {
        assert(ns.skip(0) =~= ns);
        assert(failed_views(out@) =~= Seq::<FailedView>::empty());
    }
    let mut i: usize = 0;
    while i < syntax_tree.nodes.len()
        invariant
            0 <= i <= ns.len(),
            ns == syntax_tree.nodes@,
            failed_views(out@) + tree_failures(linter.rules@, ns.skip(i as int)) == tree_failures(
                linter.rules@,
                ns,
            ),
        decreases ns.len() - i,
    {
        proof {
            assert(ns.skip(i as int)[0] == ns[i as int]);
            assert(ns.skip(i as int).drop_first() =~= ns.skip(i as int + 1));
        }
        let ghost pre = out@;
        let mut part = linter.check(syntax_tree, &syntax_tree.nodes[i]);
        let ghost pv = part@;
        out.append(&mut part);
        proof {
            assert(failed_views(out@) =~= failed_views(pre) + failed_views(pv));
        }
        i += 1;
    }
    proof {
        assert(ns.skip(ns.len() as int) =~= Seq::<Node>::empty());
        assert(failed_views(out@) =~= failed_views(out@) + tree_failures(
            linter.rules@,
            ns.skip(ns.len() as int),
        ));
    }
    out
}

/// A file passes exactly when it produced no failure.
pub fn file_passes(failures: &Vec<Failed>) -> (r: bool)
    ensures
        r == (failures@.len() == 0),
{
    failures.len() == 0
}

/// A run passes exactly when every file passed: the conjunction of the
/// per-file verdicts.
pub fn all_pass(results: &Vec<bool>) -> (r: bool)
    ensures
        r == (forall|i: int| 0 <= i < results@.len() ==> results@[i]),
{
    let mut i: usize = 0;
    while i < results.len()
        invariant
            0 <= i <= results@.len(),
            forall|k: int| 0 <= k < i ==> results@[k],
        decreases results@.len() - i,
    {
        if !results[i] {
            return false;
        }
        i += 1;
    }
    true
}

} // verus!
