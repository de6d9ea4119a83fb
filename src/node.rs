//! The untyped document tree that the decode and encode boundaries exchange.

use vstd::prelude::*;
use crate::error::{Unexpected, unexpected_text};
use crate::text::{decimal, signed_decimal};

verus! {

/// A node of a YAML-like document: a scalar, a sequence or a mapping.
#[derive(Debug, PartialEq, Eq)]
pub enum Node {
    Unit,
    Bool(bool),
    Unsigned(u64),
    Signed(i64),
    /// A floating-point number, as the decimal text that denotes it.
    Float(String),
    Str(String),
    Sequence(Vec<Node>),
    /// The entries of a mapping, in document order.
    Mapping(Vec<(String, Node)>),
}

/// `u` names the node `n` in a diagnostic.
pub open spec fn names(u: Unexpected, n: Node) -> bool {
    match n {
        Node::Unit => u == Unexpected::Unit,
        Node::Bool(b) => u == Unexpected::Bool(b),
        Node::Unsigned(x) => u == Unexpected::Unsigned(x),
        Node::Signed(x) => u == Unexpected::Signed(x),
        Node::Float(f) => match u {
            Unexpected::Float(g) => g@ == f@,
            _ => false,
        },
        Node::Str(s) => match u {
            Unexpected::Str(t) => t@ == s@,
            _ => false,
        },
        Node::Sequence(_) => u == Unexpected::Sequence,
        Node::Mapping(_) => u == Unexpected::Mapping,
    }
}

/// How the node `n` is named in a diagnostic.
pub open spec fn node_text(n: Node) -> Seq<char> {
    match n {
        Node::Unit => "unit value"@,
        Node::Bool(b) => "boolean `"@ + (if b { "true"@ } else { "false"@ }) + "`"@,
        Node::Unsigned(x) => "integer `"@ + decimal(x as nat) + "`"@,
        Node::Signed(x) => "integer `"@ + signed_decimal(x as int) + "`"@,
        Node::Float(f) => "floating point `"@ + f@ + "`"@,
        Node::Str(s) => "string \""@ + s@ + "\""@,
        Node::Sequence(_) => "sequence"@,
        Node::Mapping(_) => "map"@,
    }
}

/// A description of a node reads as [`node_text`].
pub proof fn lemma_names_text(u: Unexpected, n: Node)
    requires
        names(u, n),
    ensures
        unexpected_text(u) == node_text(n),
{
}

impl Node {
    /// How this node is named in a diagnostic.
    pub fn unexpected(&self) -> (r: Unexpected)
        ensures
            names(r, *self),
    {
        match self {
            Node::Unit => Unexpected::Unit,
            Node::Bool(b) => Unexpected::Bool(*b),
            Node::Unsigned(x) => Unexpected::Unsigned(*x),
            Node::Signed(x) => Unexpected::Signed(*x),
            Node::Float(f) => Unexpected::Float(String::from_str(f.as_str())),
            Node::Str(s) => Unexpected::Str(String::from_str(s.as_str())),
            Node::Sequence(_) => Unexpected::Sequence,
            Node::Mapping(_) => Unexpected::Mapping,
        }
    }
}

} // verus!
