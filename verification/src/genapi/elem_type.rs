//! The elements of a node.

use vstd::prelude::*;

verus! {

/// Identifies a node of the description.
#[derive(Debug, Clone, Copy, PartialEq, Eq, Structural)]
pub struct NodeId(pub u32);

/// Identifies an integer that the host keeps for the description.
#[derive(Debug, Clone, Copy, PartialEq, Eq, Structural)]
pub struct IntegerId(pub u32);

/// A value that stands in the element itself, or the node that has it.
#[derive(Debug, Clone, Copy, PartialEq, Eq, Structural)]
pub enum ImmOrPNode<T> {
    Imm(T),
    PNode(NodeId),
}

/// The node that a value is delegated to, and those that are written along with it.
#[derive(Debug, Clone)]
pub struct PValue {
    pub p_value: NodeId,
    pub p_value_copies: Vec<NodeId>,
}

impl PValue {
    /// The node that the value is delegated to.
    pub fn p_value(&self) -> (id: NodeId)
        ensures
            id == self.p_value,
    {
        self.p_value
    }
}

/// The value that goes with one index.
#[derive(Debug, Clone)]
pub struct ValueIndexed<T> {
    pub index: i64,
    pub indexed: ImmOrPNode<T>,
}

/// A value that another node selects.
#[derive(Debug, Clone)]
pub struct PIndex<T> {
    pub p_index: NodeId,
    pub value_indexed: Vec<ValueIndexed<T>>,
    pub value_default: ImmOrPNode<T>,
}

/// Where a node has its value from.
#[derive(Debug, Clone)]
pub enum ValueKind<T> {
    /// The value is the node's own.
    Value(T),
    /// The value is that of another node.
    PValue(PValue),
    /// The value is selected by another node.
    PIndex(PIndex<T>),
}

impl<T> ValueKind<T> {
    /// The node that the value is delegated to, with its copies, if it is delegated.
    pub fn p_value(&self) -> (r: Option<&PValue>)
        ensures
            match r {
                Some(p_value) => *self == ValueKind::<T>::PValue(*p_value),
                None => !(self is PValue),
            },
    {
        match self {
            ValueKind::PValue(p_value) => Some(p_value),
            _ => None,
        }
    }
}

/// How an integer is meant to be shown.
#[derive(Debug, Clone, Copy, PartialEq, Eq, Structural)]
pub enum IntegerRepresentation {
    Linear,
    Logarithmic,
    Boolean,
    PureNumber,
    HexNumber,
    IpV4Address,
    MacAddress,
}

impl IntegerRepresentation {
    /// The least value that the representation allows for: addresses are not negative.
    pub open spec fn implied_min(self) -> i64 {
        match self {
            IntegerRepresentation::IpV4Address | IntegerRepresentation::MacAddress => 0,
            _ => i64::MIN,
        }
    }

    /// The greatest value that the representation allows for: that of an address is all ones.
    pub open spec fn implied_max(self) -> i64 {
        match self {
            IntegerRepresentation::IpV4Address => 0xffff_ffff,
            IntegerRepresentation::MacAddress => 0xffff_ffff_ffff,
            _ => i64::MAX,
        }
    }

    /// The least value that the representation allows for.
    pub fn deduce_min(self) -> (min: i64)
        ensures
            min == self.implied_min(),
            self is IpV4Address || self is MacAddress ==> min == 0,
            self !is IpV4Address && self !is MacAddress ==> min == i64::MIN,
    {
        match self {
            IntegerRepresentation::IpV4Address | IntegerRepresentation::MacAddress => 0,
            _ => i64::MIN,
        }
    }

    /// The greatest value that the representation allows for.
    pub fn deduce_max(self) -> (max: i64)
        ensures
            max == self.implied_max(),
            self is IpV4Address ==> max == 0xffff_ffff,
            self is MacAddress ==> max == 0xffff_ffff_ffff,
            self !is IpV4Address && self !is MacAddress ==> max == i64::MAX,
    {
        match self {
            IntegerRepresentation::IpV4Address => 0xffff_ffff,
            IntegerRepresentation::MacAddress => 0xffff_ffff_ffff,
            _ => i64::MAX,
        }
    }
}

/// How far apart the values of a node are.
#[derive(Debug, Clone, Copy, PartialEq, Eq, Structural)]
pub enum IncrementMode {
    /// By a fixed increment.
    FixedIncrement,
    /// The values are listed.
    ListIncrement,
}

} // verus!
