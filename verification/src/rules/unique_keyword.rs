//! Forbids the `unique` qualifier keyword.

use vstd::prelude::*;

use crate::linter::RuleResult;
use crate::syntax::{Node, NodeKind, SyntaxTree, UniquePriority};

verus! {

/// What [`UniqueKeyword::check`] returns: fail on every `unique` keyword,
/// pass on every other node (`unique0` and `priority` included).
pub open spec fn unique_keyword_spec(node: Node) -> RuleResult {
    match node.kind {
        NodeKind::UniquePriority(UniquePriority::Unique) => RuleResult::Fail,
        _ => RuleResult::Pass,
    }
}

pub struct UniqueKeyword;

impl UniqueKeyword {
    pub fn check(&self, _syntax_tree: &SyntaxTree, node: &Node) -> (r: RuleResult)
        ensures
            r == unique_keyword_spec(*node),
    {
        match node.kind {
            NodeKind::UniquePriority(UniquePriority::Unique) => RuleResult::Fail,
            _ => RuleResult::Pass,
        }
    }

    pub fn name(&self) -> (r: String)
        ensures
            r@ == "unique_keyword"@,
    {
        "unique_keyword".to_owned()
    }

    pub fn hint(&self) -> (r: String)
        ensures
            r@ == "`unique` is forbidden"@,
    {
        "`unique` is forbidden".to_owned()
    }

    pub fn reason(&self) -> (r: String)
        ensures
            r@ == "this causes mismatch between simulaton and synthesis"@,
    {
        "this causes mismatch between simulaton and synthesis".to_owned()
    }
}

} // verus!
