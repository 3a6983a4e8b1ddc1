//! Requires a label on the branches of a conditional generate construct.

use vstd::prelude::*;

use crate::linter::RuleResult;
use crate::syntax::{GenerateBlock, Node, NodeKind, SyntaxTree};

verus! {

/// What [`GenerateIfWithLabel::check`] returns. For a conditional generate
/// construct: the `then` branch must be a block carrying a label, failing on
/// the construct itself otherwise; an `else` branch that is itself a block
/// must also carry a label, failing at the `else` keyword otherwise. An
/// `else` that chains into a nested conditional is exempt here, since that
/// construct is checked as a node of its own. Every other node passes.
pub open spec fn generate_if_with_label_spec(node: Node) -> RuleResult {
    match node.kind {
        NodeKind::IfGenerateConstruct(g) => match g.then_block {
            GenerateBlock::Multiple { labeled } => if labeled {
                match g.else_branch {
                    Some(e) => match e.block {
                        GenerateBlock::Multiple { labeled: else_labeled } => if else_labeled {
                            RuleResult::Pass
                        } else {
                            RuleResult::FailLocate(e.keyword_locate)
                        },
                        GenerateBlock::Single => RuleResult::Pass,
                    },
                    None => RuleResult::Pass,
                }
            } else {
                RuleResult::Fail
            },
            GenerateBlock::Single => RuleResult::Fail,
        },
        _ => RuleResult::Pass,
    }
}

pub struct GenerateIfWithLabel;

impl GenerateIfWithLabel {
    pub fn check(&self, _syntax_tree: &SyntaxTree, node: &Node) -> (r: RuleResult)
        ensures
            r == generate_if_with_label_spec(*node),
    {
        match node.kind {
            NodeKind::IfGenerateConstruct(g) => match g.then_block {
                GenerateBlock::Multiple { labeled } => if labeled {
                    match g.else_branch {
                        Some(e) => match e.block {
                            GenerateBlock::Multiple { labeled: else_labeled } => if else_labeled {
                                RuleResult::Pass
                            } else {
                                // the label of the `else` block is missing:
                                // point the diagnostic at the keyword
                                RuleResult::FailLocate(e.keyword_locate)
                            },
                            GenerateBlock::Single => RuleResult::Pass,
                        },
                        None => RuleResult::Pass,
                    }
                } else {
                    // the label of the `if` block is missing
                    RuleResult::Fail
                },
                // the `begin` of the `if` branch is missing
                GenerateBlock::Single => RuleResult::Fail,
            },
            _ => RuleResult::Pass,
        }
    }

    pub fn name(&self) -> (r: String)
        ensures
            r@ == "generate_if_with_label"@,
    {
        "generate_if_with_label".to_owned()
    }

    pub fn hint(&self) -> (r: String)
        ensures
            r@ == "`generate if` must have label"@,
    {
        "`generate if` must have label".to_owned()
    }

    pub fn reason(&self) -> (r: String)
        ensures
            r@ == "the hierarchiral path can't be determined"@,
    {
        "the hierarchiral path can't be determined".to_owned()
    }
}

} // verus!
