//! The library's model of a parsed SystemVerilog syntax tree.
//!
//! The parser proper is an outside collaborator; what the lint rules read of
//! its output is modelled here as plain tagged variants: each node records
//! its source location and the one piece of structure a rule can inspect.
//! The caller converts the parser's nodes into this shape, one [`Node`] per
//! tree node in pre-order, so that dispatch stays decoupled from the full
//! grammar.

use vstd::prelude::*;

verus! {

/// A source location: byte offset, line number, and length in bytes.
#[derive(Debug, Clone, Copy, PartialEq, Eq)]
pub struct Locate {
    pub offset: usize,
    pub line: u32,
    pub len: usize,
}

/// The body of a generate-construct branch: either a single item, or a
/// `begin`/`end` block that may carry a label.
#[derive(Debug, Clone, Copy, PartialEq, Eq)]
pub enum GenerateBlock {
    /// A single generate item without `begin`/`end`.
    Single,
    /// A `begin`/`end` block; `labeled` records whether it carries a label.
    Multiple { labeled: bool },
}

/// The `else` branch of a conditional generate construct.
#[derive(Debug, Clone, Copy, PartialEq, Eq)]
pub struct ElseGenerate {
    /// The location of the `else` keyword itself.
    pub keyword_locate: Locate,
    /// What follows the keyword. A nested conditional generate chained onto
    /// the `else` is modelled as [`GenerateBlock::Single`]: its own construct
    /// is dispatched as a node of its own.
    pub block: GenerateBlock,
}

/// A conditional (`if`) generate construct.
#[derive(Debug, Clone, Copy, PartialEq, Eq)]
pub struct IfGenerate {
    pub then_block: GenerateBlock,
    pub else_branch: Option<ElseGenerate>,
}

/// The `unique`, `unique0` and `priority` qualifier keywords.
#[derive(Debug, Clone, Copy, PartialEq, Eq)]
pub enum UniquePriority {
    Unique,
    Unique0,
    Priority,
}

/// The node variants the rules distinguish; every other construct of the
/// grammar is [`NodeKind::Other`].
#[derive(Debug, Clone, Copy, PartialEq, Eq)]
pub enum NodeKind {
    IfGenerateConstruct(IfGenerate),
    GenerateRegion,
    ModuleDeclarationNonansi,
    UniquePriority(UniquePriority),
    Other,
}

/// One syntax-tree node: its location and its modelled structure.
#[derive(Debug, Clone, Copy, PartialEq, Eq)]
pub struct Node {
    pub locate: Locate,
    pub kind: NodeKind,
}

/// A parsed file's tree, as the sequence of its nodes in pre-order. The
/// caller enumerates every node, nested and optional children included; the
/// linter performs no traversal of its own.
#[derive(Debug, Clone)]
pub struct SyntaxTree {
    pub nodes: Vec<Node>,
}

} // verus!
