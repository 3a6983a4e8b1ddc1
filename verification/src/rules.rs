//! The built-in lint rules. Each rule is a stateless predicate over one
//! syntax-tree node in the context of the whole tree; it returns a
//! [`crate::linter::RuleResult`] and must pass every node variant it does not
//! care about. Rules are mutually independent: none may read another's
//! outcome, and none retains state between invocations.

pub mod generate_if_with_label;
pub mod generate_keyword;
pub mod non_ansi_module;
pub mod unique_keyword;
