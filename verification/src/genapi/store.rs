//! The nodes of a description.

use crate::genapi::elem_type::NodeId;
use crate::genapi::integer::IntegerNode;
use vstd::prelude::*;

verus! {

/// A node of a description, as far as integer nodes need to know it.
#[derive(Debug)]
pub enum NodeData {
    /// An integer node.
    Integer(IntegerNode),
    /// A node of another kind that has an integer as its value, such as a register.
    OtherInteger,
    /// A node whose value is no integer.
    NotInteger,
}

/// A node that has an integer as its value.
#[derive(Debug)]
pub enum IIntegerKind<'a> {
    /// An integer node.
    Integer(&'a IntegerNode),
    /// A node of another kind.
    Other(NodeId),
}

/// All nodes of a description. A node's place in it is its id.
#[derive(Debug)]
pub struct NodeStore {
    nodes: Vec<NodeData>,
}

impl View for NodeStore {
    type V = Seq<NodeData>;

    closed spec fn view(&self) -> Seq<NodeData> {
        self.nodes@
    }
}

/// The integer node that `id` identifies, if it identifies one.
pub open spec fn integer_node(nodes: Seq<NodeData>, id: NodeId) -> Option<IntegerNode> {
    if id.0 < nodes.len() && nodes[id.0 as int] is Integer {
        Some(nodes[id.0 as int]->Integer_0)
    } else {
        None
    }
}

/// Whether `id` identifies a node of another kind that has an integer as its value.
pub open spec fn is_other_integer(nodes: Seq<NodeData>, id: NodeId) -> bool {
    id.0 < nodes.len() && nodes[id.0 as int] is OtherInteger
}

impl NodeStore {
    /// The store of these nodes.
    pub fn new(nodes: Vec<NodeData>) -> (store: NodeStore)
        ensures
            store@ == nodes@,
    {
        NodeStore { nodes }
    }

    /// How many nodes there are.
    pub fn len(&self) -> (len: usize)
        ensures
            len == self@.len(),
    {
        self.nodes.len()
    }

    /// The node with this id, if there is one.
    pub fn node_opt(&self, id: NodeId) -> (r: Option<&NodeData>)
        ensures
            match r {
                Some(node) => id.0 < self@.len() && *node == self@[id.0 as int],
                None => id.0 >= self@.len(),
            },
    {
        if (id.0 as usize) < self.nodes.len() {
            Some(&self.nodes[id.0 as usize])
        } else {
            None
        }
    }
}

impl NodeId {
    /// The node as one that has an integer as its value, if it is one.
    pub fn as_iinteger_kind<'a>(self, store: &'a NodeStore) -> (r: Option<IIntegerKind<'a>>)
        ensures
            match r {
                Some(IIntegerKind::Integer(node)) => integer_node(store@, self) == Some(*node),
                Some(IIntegerKind::Other(id)) => id == self && is_other_integer(store@, self),
                None => integer_node(store@, self) is None && !is_other_integer(store@, self),
            },
            match r {
                Some(IIntegerKind::Integer(node)) => self.0 < store@.len() && store@[self.0 as int]
                    == NodeData::Integer(*node),
                Some(IIntegerKind::Other(id)) => id == self && self.0 < store@.len()
                    && store@[self.0 as int] is OtherInteger,
                None => self.0 >= store@.len() || store@[self.0 as int] is NotInteger,
            },
    {
        match store.node_opt(self) {
            Some(NodeData::Integer(node)) => Some(IIntegerKind::Integer(node)),
            Some(NodeData::OtherInteger) => Some(IIntegerKind::Other(self)),
            _ => None,
        }
    }
}

} // verus!
