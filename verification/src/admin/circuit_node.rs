//! The nodes of a circuit, and how they are built.

use vstd::prelude::*;
use vstd::string::StringExecFns;
use crate::admin::proposed_node::NodeView;
use crate::admin::proposed_node::ProposedNode;
use crate::admin::proposed_node::copy_key;
use crate::admin::proposed_node::key_view;
use crate::error::InvalidStateError;
use crate::text::copy_texts;
use crate::text::texts;

verus! {

/// A node that is part of a circuit.
#[derive(Clone, Debug, PartialEq, Eq)]
pub struct CircuitNode {
    id: String,
    endpoints: Vec<String>,
    public_key: Option<Vec<u8>>,
}

impl View for CircuitNode {
    type V = NodeView;

    closed spec fn view(&self) -> NodeView {
        NodeView {
            node_id: self.id@,
            endpoints: texts(self.endpoints@),
            public_key: key_view(self.public_key),
        }
    }
}

impl CircuitNode {
    /// Returns the ID of the node
    pub fn node_id(&self) -> (id: &str)
        ensures
            id@ == self@.node_id,
    {
        self.id.as_str()
    }

    /// Returns the list of endpoints that belong to the node
    pub fn endpoints(&self) -> (endpoints: &[String])
        ensures
            texts(endpoints@) == self@.endpoints,
    {
        self.endpoints.as_slice()
    }

    /// Returns the public key that belongs to the node
    pub fn public_key(&self) -> (key: &Option<Vec<u8>>)
        ensures
            key_view(*key) == self@.public_key,
    {
        &self.public_key
    }
}

impl From<&ProposedNode> for CircuitNode {
    /// The circuit node that a proposed node becomes: the same identifier,
    /// endpoints and key.
    fn from(proposed_node: &ProposedNode) -> (node: Self)
        ensures
            node@ == proposed_node@,
    {
        CircuitNode {
            id: proposed_node.node_id().to_owned(),
            endpoints: copy_texts(proposed_node.endpoints()),
            public_key: copy_key(proposed_node.public_key()),
        }
    }
}

impl vstd::std_specs::convert::FromSpecImpl<&ProposedNode> for CircuitNode {
    open spec fn obeys_from_spec() -> bool {
        false
    }

    open spec fn from_spec(proposed_node: &ProposedNode) -> Self {
        arbitrary()
    }
}

impl From<ProposedNode> for CircuitNode {
    /// The circuit node that a proposed node becomes: the same identifier,
    /// endpoints and key.
    fn from(node: ProposedNode) -> (circuit_node: Self)
        ensures
            circuit_node@ == node@,
    {
        CircuitNode {
            id: node.node_id().to_owned(),
            endpoints: copy_texts(node.endpoints()),
            public_key: copy_key(node.public_key()),
        }
    }
}

impl vstd::std_specs::convert::FromSpecImpl<ProposedNode> for CircuitNode {
    open spec fn obeys_from_spec() -> bool {
        false
    }

    open spec fn from_spec(node: ProposedNode) -> Self {
        arbitrary()
    }
}

/// Builder for creating a `CircuitNode`
#[derive(Clone)]
pub struct CircuitNodeBuilder {
    node_id: Option<String>,
    endpoints: Option<Vec<String>>,
    public_key: Option<Vec<u8>>,
}

/// What a builder holds, as contracts see it: each part is there or is
/// not.
pub struct BuilderView {
    pub node_id: Option<Seq<char>>,
    pub endpoints: Option<Seq<Seq<char>>>,
    pub public_key: Option<Seq<u8>>,
}

/// What an optional text holds, as characters.
pub open spec fn id_view(id: Option<String>) -> Option<Seq<char>> {
    match id {
        Some(text) => Some(text@),
        None => None,
    }
}

/// What an optional text list holds, as characters.
pub open spec fn endpoints_view(endpoints: Option<Vec<String>>) -> Option<Seq<Seq<char>>> {
    match endpoints {
        Some(list) => Some(texts(list@)),
        None => None,
    }
}

impl View for CircuitNodeBuilder {
    type V = BuilderView;

    closed spec fn view(&self) -> BuilderView {
        BuilderView {
            node_id: id_view(self.node_id),
            endpoints: endpoints_view(self.endpoints),
            public_key: key_view(self.public_key),
        }
    }
}

impl Default for CircuitNodeBuilder {
    /// A builder in which nothing is set.
    fn default() -> (builder: Self)
        ensures
            builder@ == (BuilderView { node_id: None, endpoints: None, public_key: None }),
    {
        CircuitNodeBuilder { node_id: None, endpoints: None, public_key: None }
    }
}

/// Why a builder cannot build, or `None` if it can: the identifier is asked
/// for first, then the endpoints.
pub open spec fn build_error(builder: BuilderView) -> Option<Seq<char>> {
    if builder.node_id is None {
        Some("unable to build, missing field: `node_id`"@)
    } else if builder.endpoints is None {
        Some("unable to build, missing field: `endpoints`"@)
    } else {
        None
    }
}

impl CircuitNodeBuilder {
    /// Creates a `CircuitNodeBuilder`
    pub fn new() -> (builder: Self)
        ensures
            builder@ == (BuilderView { node_id: None, endpoints: None, public_key: None }),
    {
        CircuitNodeBuilder::default()
    }

    /// Returns the unique node ID
    pub fn node_id(&self) -> (id: Option<String>)
        ensures
            id_view(id) == self@.node_id,
    {
        self.node_id.clone()
    }

    /// Returns the list of endpoints for the node
    pub fn endpoints(&self) -> (endpoints: Option<Vec<String>>)
        ensures
            endpoints_view(endpoints) == self@.endpoints,
    {
        match &self.endpoints {
            Some(list) => Some(copy_texts(list.as_slice())),
            None => None,
        }
    }

    /// Returns the public key for the node
    pub fn public_key(&self) -> (key: Option<Vec<u8>>)
        ensures
            key_view(key) == self@.public_key,
    {
        copy_key(&self.public_key)
    }

    /// Sets the node ID
    ///
    /// # Arguments
    ///
    ///  * `node_id` - The unique node ID for node
    pub fn with_node_id(self, node_id: &str) -> (builder: CircuitNodeBuilder)
        ensures
            builder@ == (BuilderView { node_id: Some(node_id@), ..self@ }),
    {
        CircuitNodeBuilder {
            node_id: Some(node_id.to_owned()),
            endpoints: self.endpoints,
            public_key: self.public_key,
        }
    }

    /// Sets the endpoints
    ///
    /// # Arguments
    ///
    ///  * `endpoints` - The list of endpoints for the node
    pub fn with_endpoints(self, endpoints: &[String]) -> (builder: CircuitNodeBuilder)
        ensures
            builder@ == (BuilderView { endpoints: Some(texts(endpoints@)), ..self@ }),
    {
        CircuitNodeBuilder {
            node_id: self.node_id,
            endpoints: Some(copy_texts(endpoints)),
            public_key: self.public_key,
        }
    }

    /// Sets the public key
    ///
    /// # Arguments
    ///
    ///  * `public_key` - The bytes of the node's public key
    pub fn with_public_key(self, public_key: &[u8]) -> (builder: CircuitNodeBuilder)
        ensures
            builder@ == (BuilderView { public_key: Some(public_key@), ..self@ }),
    {
        CircuitNodeBuilder {
            node_id: self.node_id,
            endpoints: self.endpoints,
            public_key: Some(vstd::slice::slice_to_vec(public_key)),
        }
    }

    /// Builds the `CircuitNode`
    ///
    /// Returns an error if the node ID or endpoints are not set
    pub fn build(self) -> (built: Result<CircuitNode, InvalidStateError>)
        ensures
            match built {
                Ok(node) => {
                    &&& build_error(self@) is None
                    &&& node@ == (NodeView {
                        node_id: self@.node_id.unwrap(),
                        endpoints: self@.endpoints.unwrap(),
                        public_key: self@.public_key,
                    })
                },
                Err(err) => build_error(self@) == Some(err.message_text()),
            },
    {
        let node_id = match self.node_id {
            Some(node_id) => node_id,
            None => {
                return Err(
                    InvalidStateError::with_message(
                        String::from_str("unable to build, missing field: `node_id`"),
                    ),
                );
            },
        };
        let endpoints = match self.endpoints {
            Some(endpoints) => endpoints,
            None => {
                return Err(
                    InvalidStateError::with_message(
                        String::from_str("unable to build, missing field: `endpoints`"),
                    ),
                );
            },
        };
        let node = CircuitNode { id: node_id, endpoints, public_key: self.public_key };
        Ok(node)
    }
}

} // verus!
