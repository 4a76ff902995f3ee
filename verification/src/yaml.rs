use vstd::prelude::*;
use crate::node::Node;

verus! {

/// A source position reported by the YAML parser for a failure, exactly
/// as the parser gives it (serde_yaml reports 1-based lines and columns).
#[derive(Debug, Clone, Copy, PartialEq, Eq)]
pub struct SourceMark {
    pub line: usize,
    pub column: usize,
}

/// A failed attempt to read a document as YAML: the parser's own
/// description of the failure and, when the parser supplied one, the
/// position at which it happened.
#[derive(Debug, PartialEq, Eq)]
pub struct ParseFail {
    pub message: String,
    pub mark: Option<SourceMark>,
}

/// What the YAML parser makes of one document text. The parse is a
/// function of the text alone: the same text always yields the same
/// tree, or fails with the same message and mark.
pub uninterp spec fn yaml_parse_of(text: Seq<char>) -> Result<Node, ParseFail>;

#[verifier::external_type_specification]
#[verifier::external_body]
pub struct ExYamlValue(serde_yaml::Value);

#[verifier::external_type_specification]
#[verifier::external_body]
pub struct ExYamlNumber(serde_yaml::Number);

/// Relies on serde_yaml::Number: as_u64 and as_i64 succeed exactly when
/// the number is representable in the respective type, per its docs, so
/// a number that is neither is kept only as "some other number".
#[verifier::external_body]
fn node_of_number(n: serde_yaml::Number) -> Node {
    match (n.as_u64(), n.as_i64()) {
        (Some(u), _) => Node::UInt(u),
        (None, Some(i)) => Node::NegInt(i),
        (None, None) => Node::Float,
    }
}

/// Relies on serde_yaml::Value: each variant of the parsed tree is told
/// apart, one arm per variant, and its contents are moved into the
/// library's own node type.
#[verifier::external_body]
fn node_of_value(v: serde_yaml::Value) -> Node {
    match v {
        serde_yaml::Value::Null => Node::Null,
        serde_yaml::Value::Bool(b) => Node::Bool(b),
        serde_yaml::Value::Number(n) => node_of_number(n),
        serde_yaml::Value::String(s) => Node::Text(s),
        serde_yaml::Value::Sequence(xs) => Node::Sequence(xs.into_iter().map(node_of_value).collect()),
        serde_yaml::Value::Mapping(es) => Node::Mapping(es.into_iter().map(|(k, w)| (node_of_value(k), node_of_value(w))).collect()),
        serde_yaml::Value::Tagged(t) => Node::Tagged(Box::new(node_of_value(t.value))),
    }
}

/// Relies on serde_yaml::from_str: parsing is deterministic in the text,
/// and on failure serde_yaml::Error::location reports the position of the
/// failure when one is known (1-based line and column, per its source).
#[verifier::external_body]
pub(crate) fn parse_yaml_tree(text: &str) -> (r: Result<Node, ParseFail>)
    ensures
        r == yaml_parse_of(text@),
{
    match serde_yaml::from_str::<serde_yaml::Value>(text) {
        Ok(v) => Ok(node_of_value(v)),
        Err(e) => Err(ParseFail {
            message: e.to_string(),
            mark: e.location().map(|l| SourceMark { line: l.line(), column: l.column() }),
        }),
    }
}

} // verus!
