use vstd::prelude::*;

verus! {

/// One node of a parsed YAML document: the generic tree of scalars,
/// sequences and mappings that the runbook grammar is matched against.
///
/// Numbers keep only what the grammar ever reads of them: a non-negative
/// integer, a negative integer, or some other number (a float), whose
/// value the grammar never inspects.
#[derive(Debug, PartialEq, Eq)]
pub enum Node {
    Null,
    Bool(bool),
    UInt(u64),
    NegInt(i64),
    Float,
    Text(String),
    Sequence(Vec<Node>),
    Mapping(Vec<(Node, Node)>),
    Tagged(Box<Node>),
}

impl Node {
    /// A numeric scalar in any of its three encodings.
    pub open spec fn is_number(self) -> bool {
        self is UInt || self is NegInt || self is Float
    }
}

} // verus!
