//! What all nodes have in common.

use crate::genapi::elem_type::NodeId;
use vstd::prelude::*;

verus! {

/// The attributes that every node has.
#[derive(Debug, Clone)]
pub struct NodeAttributeBase {
    pub id: NodeId,
}

/// The elements that every node has: the nodes that say whether it can be used.
#[derive(Debug, Clone)]
pub struct NodeElementBase {
    pub p_is_implemented: Option<NodeId>,
    pub p_is_available: Option<NodeId>,
    pub p_is_locked: Option<NodeId>,
}

/// The attributes and elements that a node has in common with all others.
#[derive(Debug)]
pub struct NodeBase<'a> {
    pub attr: &'a NodeAttributeBase,
    pub elem: &'a NodeElementBase,
}

impl<'a> NodeBase<'a> {
    pub fn new(attr: &'a NodeAttributeBase, elem: &'a NodeElementBase) -> (base: NodeBase<'a>)
        ensures
            *base.attr == *attr,
            *base.elem == *elem,
    {
        NodeBase { attr, elem }
    }

    /// The node itself.
    pub fn id(&self) -> (id: NodeId)
        ensures
            id == self.attr.id,
    {
        self.attr.id
    }
}

} // verus!
