//! Forbids explicit `generate`/`endgenerate` regions.

use vstd::prelude::*;

use crate::linter::RuleResult;
use crate::syntax::{Node, NodeKind, SyntaxTree};

verus! {

/// What [`GenerateKeyword::check`] returns: fail on every generate region,
/// pass on every other node.
pub open spec fn generate_keyword_spec(node: Node) -> RuleResult {
    match node.kind {
        NodeKind::GenerateRegion => RuleResult::Fail,
        _ => RuleResult::Pass,
    }
}

pub struct GenerateKeyword;

impl GenerateKeyword {
    pub fn check(&self, _syntax_tree: &SyntaxTree, node: &Node) -> (r: RuleResult)
        ensures
            r == generate_keyword_spec(*node),
    {
        match node.kind {
            NodeKind::GenerateRegion => RuleResult::Fail,
            _ => RuleResult::Pass,
        }
    }

    pub fn name(&self) -> (r: String)
        ensures
            r@ == "generate_keyword"@,
    {
        "generate_keyword".to_owned()
    }

    pub fn hint(&self) -> (r: String)
        ensures
            r@ == "`generate`/`endgenerate` must be omitted"@,
    {
        "`generate`/`endgenerate` must be omitted".to_owned()
    }

    pub fn reason(&self) -> (r: String)
        ensures
            r@ == ""@,
    {
        "".to_owned()
    }
}

} // verus!
