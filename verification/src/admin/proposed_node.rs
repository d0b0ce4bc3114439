//! A node as a circuit proposal names it.

use vstd::prelude::*;
use crate::text::texts;

verus! {

/// What an optional key holds, as bytes.
pub open spec fn key_view(key: Option<Vec<u8>>) -> Option<Seq<u8>> {
    match key {
        Some(bytes) => Some(bytes@),
        None => None,
    }
}

/// A node as contracts see it: its identifier, the endpoints at which it can
/// be reached, and its public key if it has one.
pub struct NodeView {
    pub node_id: Seq<char>,
    pub endpoints: Seq<Seq<char>>,
    pub public_key: Option<Seq<u8>>,
}

/// A node that a proposal wants in a circuit.
#[derive(Debug, Clone, PartialEq, Eq)]
pub struct ProposedNode {
    node_id: String,
    endpoints: Vec<String>,
    public_key: Option<Vec<u8>>,
}

impl View for ProposedNode {
    type V = NodeView;

    closed spec fn view(&self) -> NodeView {
        NodeView {
            node_id: self.node_id@,
            endpoints: texts(self.endpoints@),
            public_key: key_view(self.public_key),
        }
    }
}

/// A copy of an optional key.
pub fn copy_key(key: &Option<Vec<u8>>) -> (copy: Option<Vec<u8>>)
    ensures
        key_view(copy) == key_view(*key),
{
    match key {
        Some(bytes) => Some(bytes.clone()),
        None => None,
    }
}

impl ProposedNode {
    /// A proposed node with these parts.
    pub fn new(node_id: String, endpoints: Vec<String>, public_key: Option<Vec<u8>>) -> (node:
        Self)
        ensures
            node@ == (NodeView {
                node_id: node_id@,
                endpoints: texts(endpoints@),
                public_key: key_view(public_key),
            }),
    {
        ProposedNode { node_id, endpoints, public_key }
    }

    /// The identifier of the node.
    pub fn node_id(&self) -> (id: &str)
        ensures
            id@ == self@.node_id,
    {
        self.node_id.as_str()
    }

    /// The endpoints of the node.
    pub fn endpoints(&self) -> (endpoints: &[String])
        ensures
            texts(endpoints@) == self@.endpoints,
    {
        self.endpoints.as_slice()
    }

    /// The public key of the node, if it has one.
    pub fn public_key(&self) -> (key: &Option<Vec<u8>>)
        ensures
            key_view(*key) == self@.public_key,
    {
        &self.public_key
    }
}

} // verus!
