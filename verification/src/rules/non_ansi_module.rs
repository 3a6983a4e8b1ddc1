//! Forbids non-ANSI-style module declarations.

use vstd::prelude::*;

use crate::linter::RuleResult;
use crate::syntax::{Node, NodeKind, SyntaxTree};

verus! {

/// What [`NonAnsiModule::check`] returns: fail on every non-ANSI module
/// declaration, pass on every other node.
pub open spec fn non_ansi_module_spec(node: Node) -> RuleResult {
    match node.kind {
        NodeKind::ModuleDeclarationNonansi => RuleResult::Fail,
        _ => RuleResult::Pass,
    }
}

pub struct NonAnsiModule;

impl NonAnsiModule {
    pub fn check(&self, _syntax_tree: &SyntaxTree, node: &Node) -> (r: RuleResult)
        ensures
            r == non_ansi_module_spec(*node),
    {
        match node.kind {
            NodeKind::ModuleDeclarationNonansi => RuleResult::Fail,
            _ => RuleResult::Pass,
        }
    }

    pub fn name(&self) -> (r: String)
        ensures
            r@ == "non_ansi_module"@,
    {
        "non_ansi_module".to_owned()
    }

    pub fn hint(&self) -> (r: String)
        ensures
            r@ == "module declaration must be ANSI-style"@,
    {
        "module declaration must be ANSI-style".to_owned()
    }

    pub fn reason(&self) -> (r: String)
        ensures
            r@ == "non-ANSI-style has duplicated port declaration"@,
    {
        "non-ANSI-style has duplicated port declaration".to_owned()
    }
}

} // verus!
