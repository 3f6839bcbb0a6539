//! Integer nodes.
//!
//! A node that declares no limit of its own has the limit of the node that it delegates its
//! value to. A node read in isolation may therefore report no limit that the camera set.

use crate::genapi::elem_type::{
    ImmOrPNode, IncrementMode, IntegerId, IntegerRepresentation, NodeId, PValue, ValueKind,
};
use crate::genapi::error::{GenApiError, GenApiResult};
use crate::genapi::node_base::{NodeAttributeBase, NodeBase, NodeElementBase};
use crate::genapi::store::{integer_node, is_other_integer, IIntegerKind, NodeData, NodeStore};
use vstd::prelude::*;

verus! {

/// The increment of a node that declares none, and the one that a node keeps when the node it
/// delegates to has no notion of an increment.
pub const DEFAULT_INCREMENT: i64 = 1;

/// A node with an integer as its value.
#[derive(Debug, Clone)]
pub struct IntegerNode {
    pub attr_base: NodeAttributeBase,
    pub elem_base: NodeElementBase,
    pub streamable: bool,
    pub value_kind: ValueKind<IntegerId>,
    pub min: Option<ImmOrPNode<IntegerId>>,
    pub max: Option<ImmOrPNode<IntegerId>>,
    pub inc: Option<ImmOrPNode<i64>>,
    pub unit: Option<String>,
    pub representation: IntegerRepresentation,
    pub p_selected: Vec<NodeId>,
}

/// What a node can inherit from the node that it delegates its value to.
#[derive(Debug, Clone, Copy, PartialEq, Eq, Structural)]
pub enum Property {
    Min,
    Max,
    Inc,
}

/// Something that is read from a node: an element of an integer node, or a property of a node
/// of another kind.
#[derive(Debug, Clone, Copy, PartialEq, Eq, Structural)]
pub enum Source<T> {
    Element(ImmOrPNode<T>),
    Node(NodeId),
}

/// Where a limit comes from: it has to be read, or it is known.
pub enum Origin {
    Read(Source<IntegerId>),
    Known(i64),
}

/// What a node is asked to allow.
#[derive(Debug, Clone, Copy, PartialEq, Eq, Structural)]
pub enum Access {
    Read,
    Write,
}

impl IntegerNode {
    /// The node that the value is delegated to.
    pub open spec fn delegate(self) -> Option<NodeId> {
        match self.value_kind {
            ValueKind::PValue(p_value) => Some(p_value.p_value),
            _ => None,
        }
    }

    /// The integer node that the value is delegated to.
    pub open spec fn next(self, nodes: Seq<NodeData>) -> Option<IntegerNode> {
        match self.delegate() {
            Some(id) => integer_node(nodes, id),
            None => None,
        }
    }

    /// The node of another kind that the value is delegated to.
    pub open spec fn next_other(self, nodes: Seq<NodeData>) -> Option<NodeId> {
        match self.delegate() {
            Some(id) if is_other_integer(nodes, id) => Some(id),
            _ => None,
        }
    }

    /// Whether the node has an element for the property.
    pub open spec fn declares(self, property: Property) -> bool {
        match property {
            Property::Min => self.min is Some,
            Property::Max => self.max is Some,
            Property::Inc => self.inc is Some,
        }
    }

    /// Following the delegation from node to node, one that declares the property, or one that
    /// delegates to no integer node, is met after `steps` steps at the latest.
    pub open spec fn settles_within(
        self,
        nodes: Seq<NodeData>,
        property: Property,
        steps: nat,
    ) -> bool
        decreases steps,
    {
        self.declares(property) || match self.next(nodes) {
            Some(node) => steps > 0 && node.settles_within(nodes, property, (steps - 1) as nat),
            None => true,
        }
    }

    /// The delegation does not go round in a circle of nodes that do not declare the property.
    pub open spec fn settles(self, nodes: Seq<NodeData>, property: Property) -> bool {
        exists|steps: nat| self.settles_within(nodes, property, steps)
    }

    /// The number of steps to the node that settles where the property comes from.
    pub open spec fn distance(self, nodes: Seq<NodeData>, property: Property) -> nat {
        choose|steps: nat|
            self.settles_within(nodes, property, steps) && forall|fewer: nat|
                fewer < steps ==> !self.settles_within(nodes, property, fewer)
    }

    /// The same number, unless the node declares the property itself.
    pub open spec fn inherited_distance(self, nodes: Seq<NodeData>, property: Property) -> nat {
        match self.next(nodes) {
            Some(node) => node.distance(nodes, property) + 1,
            None => 0,
        }
    }
}

proof fn lemma_distance_is_least(
    node: IntegerNode,
    nodes: Seq<NodeData>,
    property: Property,
    steps: nat,
)
    requires
        node.settles_within(nodes, property, steps),
    ensures
        node.settles_within(nodes, property, node.distance(nodes, property)),
        forall|fewer: nat|
            fewer < node.distance(nodes, property) ==> !node.settles_within(
                nodes,
                property,
                fewer,
            ),
    decreases steps,
{
    if exists|fewer: nat| fewer < steps && node.settles_within(nodes, property, fewer) {
        let fewer = choose|fewer: nat|
            fewer < steps && node.settles_within(nodes, property, fewer);
        lemma_distance_is_least(node, nodes, property, fewer);
    } else {
        assert(node.settles_within(nodes, property, steps) && forall|fewer: nat|
            fewer < steps ==> !node.settles_within(nodes, property, fewer));
    }
}

/// A node that inherits a property is one step farther from where it comes from than the node
/// that it inherits it from.
pub proof fn lemma_next_is_closer(node: IntegerNode, nodes: Seq<NodeData>, property: Property)
    requires
        node.settles(nodes, property),
        !node.declares(property),
        node.next(nodes) is Some,
    ensures
        (node.next(nodes)->0).settles(nodes, property),
        (node.next(nodes)->0).distance(nodes, property) + 1 == node.distance(nodes, property),
{
    let next = node.next(nodes)->0;
    let steps = choose|steps: nat| node.settles_within(nodes, property, steps);
    lemma_distance_is_least(node, nodes, property, steps);
    let far = node.distance(nodes, property);
    assert(next.settles_within(nodes, property, (far - 1) as nat));
    lemma_distance_is_least(next, nodes, property, (far - 1) as nat);
    let near = next.distance(nodes, property);
    assert(node.settles_within(nodes, property, near + 1));
}

/// Inheriting the property from node to node leads from `start` over the nodes of `path` to `end`.
/// So the one settles if and only if the other does, and then each step leads closer.
spec fn leads_to(
    start: IntegerNode,
    nodes: Seq<NodeData>,
    property: Property,
    path: Seq<int>,
    end: IntegerNode,
) -> bool {
    let far = start.distance(nodes, property);
    &&& forall|k: int| 0 <= k < path.len() ==> 0 <= #[trigger] path[k] < nodes.len()
    &&& start.settles(nodes, property) <==> end.settles(nodes, property)
    &&& start.settles(nodes, property) ==> {
        &&& end.distance(nodes, property) + path.len() == far
        &&& forall|k: int|
            0 <= k < path.len() ==> (nodes[#[trigger] path[k]]->Integer_0).distance(
                nodes,
                property,
            ) + k + 1 == far
    }
}

proof fn lemma_one_more_step(
    start: IntegerNode,
    nodes: Seq<NodeData>,
    property: Property,
    path: Seq<int>,
    end: IntegerNode,
)
    requires
        leads_to(start, nodes, property, path, end),
        !end.declares(property),
        end.next(nodes) is Some,
    ensures
        leads_to(
            start,
            nodes,
            property,
            path.push((end.delegate()->0).0 as int),
            end.next(nodes)->0,
        ),
{
    let next = end.next(nodes)->0;
    let longer = path.push((end.delegate()->0).0 as int);
    if end.settles(nodes, property) {
        lemma_next_is_closer(end, nodes, property);
    }
    if next.settles(nodes, property) {
        let near = choose|near: nat| next.settles_within(nodes, property, near);
        assert(end.settles_within(nodes, property, near + 1));
    }
    assert forall|k: int| 0 <= k < longer.len() implies 0 <= #[trigger] longer[k] < nodes.len() by {
        if k < path.len() {
            assert(longer[k] == path[k]);
        }
    }
    if start.settles(nodes, property) {
        let far = start.distance(nodes, property);
        assert forall|k: int| 0 <= k < longer.len() implies (
        nodes[#[trigger] longer[k]]->Integer_0).distance(nodes, property) + k + 1 == far by {
            if k < path.len() {
                assert(longer[k] == path[k]);
            }
        }
    }
}

proof fn lemma_long_path_is_a_circle(
    start: IntegerNode,
    nodes: Seq<NodeData>,
    property: Property,
    path: Seq<int>,
    end: IntegerNode,
)
    requires
        leads_to(start, nodes, property, path, end),
        path.len() > nodes.len(),
    ensures
        !start.settles(nodes, property),
{
    if start.settles(nodes, property) {
        assert(path.no_duplicates());
        path.unique_seq_to_set();
        let range = vstd::set_lib::set_int_range(0, nodes.len() as int);
        vstd::set_lib::lemma_int_range(0, nodes.len() as int);
        assert(path.to_set().subset_of(range));
        vstd::set_lib::lemma_len_subset(path.to_set(), range);
    }
}

impl IntegerNode {
    /// Where the lower limit of the node comes from: its own element, or else the node that it
    /// delegates its value to, or else the range that its representation implies.
    pub open spec fn min_origin(self, nodes: Seq<NodeData>) -> Origin
        decreases self.distance(nodes, Property::Min),
        when self.settles(nodes, Property::Min)
    {
        proof {
            if self.min is None && self.next(nodes) is Some {
                lemma_next_is_closer(self, nodes, Property::Min);
            }
        }
        match self.min {
            Some(elem) => Origin::Read(Source::Element(elem)),
            None => match self.next(nodes) {
                Some(node) => node.min_origin(nodes),
                None => match self.next_other(nodes) {
                    Some(id) => Origin::Read(Source::Node(id)),
                    None => Origin::Known(self.representation.implied_min()),
                },
            },
        }
    }

    /// Where the upper limit of the node comes from: its own element, or else the node that it
    /// delegates its value to, or else the range that its representation implies.
    pub open spec fn max_origin(self, nodes: Seq<NodeData>) -> Origin
        decreases self.distance(nodes, Property::Max),
        when self.settles(nodes, Property::Max)
    {
        proof {
            if self.max is None && self.next(nodes) is Some {
                lemma_next_is_closer(self, nodes, Property::Max);
            }
        }
        match self.max {
            Some(elem) => Origin::Read(Source::Element(elem)),
            None => match self.next(nodes) {
                Some(node) => node.max_origin(nodes),
                None => match self.next_other(nodes) {
                    Some(id) => Origin::Read(Source::Node(id)),
                    None => Origin::Known(self.representation.implied_max()),
                },
            },
        }
    }

    /// Where the lower limit comes from unless the node declares one of its own.
    pub open spec fn inherited_min_origin(self, nodes: Seq<NodeData>) -> Origin {
        match self.next(nodes) {
            Some(node) => node.min_origin(nodes),
            None => match self.next_other(nodes) {
                Some(id) => Origin::Read(Source::Node(id)),
                None => Origin::Known(self.representation.implied_min()),
            },
        }
    }

    /// Where the upper limit comes from unless the node declares one of its own.
    pub open spec fn inherited_max_origin(self, nodes: Seq<NodeData>) -> Origin {
        match self.next(nodes) {
            Some(node) => node.max_origin(nodes),
            None => match self.next_other(nodes) {
                Some(id) => Origin::Read(Source::Node(id)),
                None => Origin::Known(self.representation.implied_max()),
            },
        }
    }

    /// Where the increment of the node is read: from its own element, or else from the node that
    /// it delegates its value to, or else nowhere.
    pub open spec fn inc_source(self, nodes: Seq<NodeData>) -> Option<Source<i64>>
        decreases self.distance(nodes, Property::Inc),
        when self.settles(nodes, Property::Inc)
    {
        proof {
            if self.inc is None && self.next(nodes) is Some {
                lemma_next_is_closer(self, nodes, Property::Inc);
            }
        }
        match self.inc {
            Some(elem) => Some(Source::Element(elem)),
            None => match self.next(nodes) {
                Some(node) => node.inc_source(nodes),
                None => match self.next_other(nodes) {
                    Some(id) => Some(Source::Node(id)),
                    None => None,
                },
            },
        }
    }

    /// Where the increment is read unless the node declares one of its own.
    pub open spec fn inherited_inc_source(self, nodes: Seq<NodeData>) -> Option<Source<i64>> {
        match self.next(nodes) {
            Some(node) => node.inc_source(nodes),
            None => match self.next_other(nodes) {
                Some(id) => Some(Source::Node(id)),
                None => None,
            },
        }
    }
}

/// The limit that is reported when reading its source gives `read`.
pub open spec fn reports<R: FnOnce(Source<IntegerId>) -> GenApiResult<i64>>(
    limit: GenApiResult<i64>,
    origin: Origin,
    read: R,
) -> bool {
    match origin {
        Origin::Read(source) => read.ensures((source,), limit),
        Origin::Known(value) => limit == Ok::<i64, GenApiError>(value),
    }
}

/// Whether the source that the origin asks to be read can be read.
pub open spec fn readable<R: FnOnce(Source<IntegerId>) -> GenApiResult<i64>>(
    origin: Origin,
    read: R,
) -> bool {
    origin matches Origin::Read(source) ==> read.requires((source,))
}

/// Whether the source of an increment can be read. An element that is the number itself need not.
pub open spec fn inc_readable<R: FnOnce(Source<i64>) -> GenApiResult<Option<i64>>>(
    source: Option<Source<i64>>,
    read: R,
) -> bool {
    match source {
        Some(Source::Element(ImmOrPNode::Imm(_))) => true,
        Some(source) => read.requires((source,)),
        None => true,
    }
}

/// The increment that is reported when reading its source gives `got`.
pub open spec fn inc_or_default(got: GenApiResult<Option<i64>>) -> GenApiResult<Option<i64>> {
    match got {
        Ok(None) => Ok(Some(DEFAULT_INCREMENT)),
        _ => got,
    }
}

/// The increment that an integer node reports: the number that is its element, or what reading its
/// source gives, or else the default.
pub open spec fn reports_inc<R: FnOnce(Source<i64>) -> GenApiResult<Option<i64>>>(
    inc: GenApiResult<Option<i64>>,
    source: Option<Source<i64>>,
    read: R,
) -> bool {
    match source {
        Some(Source::Element(ImmOrPNode::Imm(value))) => inc == Ok::<Option<i64>, GenApiError>(
            Some(value),
        ),
        Some(source) => exists|got: GenApiResult<Option<i64>>| #[trigger]
            read.ensures((source,), got) && inc == inc_or_default(got),
        None => inc == Ok::<Option<i64>, GenApiError>(Some(DEFAULT_INCREMENT)),
    }
}

impl IntegerNode {
    fn p_value(&self) -> (id: Option<NodeId>)
        ensures
            id == self.delegate(),
    {
        match self.value_kind.p_value() {
            Some(p_value) => Some(p_value.p_value()),
            None => None,
        }
    }

    /// The lower limit of the node. Where it has to be read, `read` reads it: the value of the
    /// element, or the lower limit of the node of another kind.
    pub fn min<R: FnOnce(Source<IntegerId>) -> GenApiResult<i64>>(
        &self,
        store: &NodeStore,
        read: R,
    ) -> (r: GenApiResult<i64>)
        requires
            self.settles(store@, Property::Min),
            readable(self.min_origin(store@), read),
        ensures
            reports(r, self.min_origin(store@), read),
            self.min is None && (self.value_kind matches ValueKind::PValue(p_value)
                ==> p_value.p_value.0 >= store@.len()
                || store@[p_value.p_value.0 as int] is NotInteger) ==> r == Ok::<i64, GenApiError>(
                if self.representation is IpV4Address || self.representation is MacAddress {
                    0
                } else {
                    i64::MIN
                },
            ),
            self.min matches Some(elem) ==> read.ensures((Source::Element(elem),), r),
            self.min is None ==> (self.value_kind matches ValueKind::PValue(p_value) ==> (
            p_value.p_value.0 < store@.len() && store@[p_value.p_value.0 as int] is OtherInteger
                ==> read.ensures((Source::Node(p_value.p_value),), r))),
        decreases self.distance(store@, Property::Min), 1nat,
    {
        match self.min {
            Some(elem) => read(Source::Element(elem)),
            None => {
                proof {
                    if self.next(store@) is Some {
                        lemma_next_is_closer(*self, store@, Property::Min);
                    }
                }
                self.inherited_min(store, read)
            },
        }
    }

    /// The lower limit that the node has unless it declares one of its own.
    pub fn inherited_min<R: FnOnce(Source<IntegerId>) -> GenApiResult<i64>>(
        &self,
        store: &NodeStore,
        read: R,
    ) -> (r: GenApiResult<i64>)
        requires
            self.next(store@) matches Some(node) ==> node.settles(store@, Property::Min),
            readable(self.inherited_min_origin(store@), read),
        ensures
            reports(r, self.inherited_min_origin(store@), read),
            (self.value_kind matches ValueKind::PValue(p_value) ==> p_value.p_value.0
                >= store@.len() || store@[p_value.p_value.0 as int] is NotInteger)
                ==> r == Ok::<i64, GenApiError>(
                if self.representation is IpV4Address || self.representation is MacAddress {
                    0
                } else {
                    i64::MIN
                },
            ),
            self.value_kind matches ValueKind::PValue(p_value) ==> (p_value.p_value.0 < store@.len()
                && store@[p_value.p_value.0 as int] is OtherInteger ==> read.ensures(
                (Source::Node(p_value.p_value),),
                r,
            )),
        decreases self.inherited_distance(store@, Property::Min), 0nat,
    {
        let kind = match self.p_value() {
            Some(id) => id.as_iinteger_kind(store),
            None => None,
        };
        match kind {
            Some(IIntegerKind::Integer(node)) => node.min(store, read),
            Some(IIntegerKind::Other(id)) => read(Source::Node(id)),
            None => Ok(self.representation.deduce_min()),
        }
    }

    /// The upper limit of the node. Where it has to be read, `read` reads it: the value of the
    /// element, or the upper limit of the node of another kind.
    pub fn max<R: FnOnce(Source<IntegerId>) -> GenApiResult<i64>>(
        &self,
        store: &NodeStore,
        read: R,
    ) -> (r: GenApiResult<i64>)
        requires
            self.settles(store@, Property::Max),
            readable(self.max_origin(store@), read),
        ensures
            reports(r, self.max_origin(store@), read),
            self.max is None && (self.value_kind matches ValueKind::PValue(p_value)
                ==> p_value.p_value.0 >= store@.len()
                || store@[p_value.p_value.0 as int] is NotInteger) ==> r == Ok::<i64, GenApiError>(
                if self.representation is IpV4Address {
                    0xffff_ffff
                } else if self.representation is MacAddress {
                    0xffff_ffff_ffff
                } else {
                    i64::MAX
                },
            ),
            self.max matches Some(elem) ==> read.ensures((Source::Element(elem),), r),
            self.max is None ==> (self.value_kind matches ValueKind::PValue(p_value) ==> (
            p_value.p_value.0 < store@.len() && store@[p_value.p_value.0 as int] is OtherInteger
                ==> read.ensures((Source::Node(p_value.p_value),), r))),
        decreases self.distance(store@, Property::Max), 1nat,
    {
        match self.max {
            Some(elem) => read(Source::Element(elem)),
            None => {
                proof {
                    if self.next(store@) is Some {
                        lemma_next_is_closer(*self, store@, Property::Max);
                    }
                }
                self.inherited_max(store, read)
            },
        }
    }

    /// The upper limit that the node has unless it declares one of its own.
    pub fn inherited_max<R: FnOnce(Source<IntegerId>) -> GenApiResult<i64>>(
        &self,
        store: &NodeStore,
        read: R,
    ) -> (r: GenApiResult<i64>)
        requires
            self.next(store@) matches Some(node) ==> node.settles(store@, Property::Max),
            readable(self.inherited_max_origin(store@), read),
        ensures
            reports(r, self.inherited_max_origin(store@), read),
            (self.value_kind matches ValueKind::PValue(p_value) ==> p_value.p_value.0
                >= store@.len() || store@[p_value.p_value.0 as int] is NotInteger)
                ==> r == Ok::<i64, GenApiError>(
                if self.representation is IpV4Address {
                    0xffff_ffff
                } else if self.representation is MacAddress {
                    0xffff_ffff_ffff
                } else {
                    i64::MAX
                },
            ),
            self.value_kind matches ValueKind::PValue(p_value) ==> (p_value.p_value.0 < store@.len()
                && store@[p_value.p_value.0 as int] is OtherInteger ==> read.ensures(
                (Source::Node(p_value.p_value),),
                r,
            )),
        decreases self.inherited_distance(store@, Property::Max), 0nat,
    {
        let kind = match self.p_value() {
            Some(id) => id.as_iinteger_kind(store),
            None => None,
        };
        match kind {
            Some(IIntegerKind::Integer(node)) => node.max(store, read),
            Some(IIntegerKind::Other(id)) => read(Source::Node(id)),
            None => Ok(self.representation.deduce_max()),
        }
    }

    /// The increment of the node, which it always has. Where it has to be read, `read` reads it:
    /// the value of the node that the element names, or the increment of the node of another kind,
    /// if that has one.
    pub fn inc<R: FnOnce(Source<i64>) -> GenApiResult<Option<i64>>>(
        &self,
        store: &NodeStore,
        read: R,
    ) -> (r: GenApiResult<Option<i64>>)
        requires
            self.settles(store@, Property::Inc),
            inc_readable(self.inc_source(store@), read),
        ensures
            reports_inc(r, self.inc_source(store@), read),
            r matches Ok(inc) ==> inc is Some,
            self.inc is None && (self.value_kind matches ValueKind::PValue(p_value)
                ==> p_value.p_value.0 >= store@.len()
                || store@[p_value.p_value.0 as int] is NotInteger) ==> r == Ok::<
                Option<i64>,
                GenApiError,
            >(Some(1)),
            self.inc matches Some(ImmOrPNode::Imm(inc)) ==> r == Ok::<Option<i64>, GenApiError>(
                Some(inc),
            ),
            self.inc matches Some(ImmOrPNode::PNode(id)) ==> exists|got: GenApiResult<Option<i64>>|
                {
                    &&& #[trigger] read.ensures((Source::Element(ImmOrPNode::PNode(id)),), got)
                    &&& got is Err || (got matches Ok(inc) && inc is Some) ==> r == got
                    &&& got == Ok::<Option<i64>, GenApiError>(None) ==> r == Ok::<
                        Option<i64>,
                        GenApiError,
                    >(Some(1))
                },
            self.inc is None ==> (self.value_kind matches ValueKind::PValue(p_value) ==> (
            p_value.p_value.0 < store@.len() && store@[p_value.p_value.0 as int] is OtherInteger
                ==> exists|got: GenApiResult<Option<i64>>|
                {
                    &&& #[trigger] read.ensures((Source::Node(p_value.p_value),), got)
                    &&& got is Err || (got matches Ok(inc) && inc is Some) ==> r == got
                    &&& got == Ok::<Option<i64>, GenApiError>(None) ==> r == Ok::<
                        Option<i64>,
                        GenApiError,
                    >(Some(1))
                })),
        decreases self.distance(store@, Property::Inc), 1nat,
    {
        let got = match self.inc {
            Some(ImmOrPNode::Imm(inc)) => Ok(Some(inc)),
            Some(elem) => read(Source::Element(elem)),
            None => {
                proof {
                    if self.next(store@) is Some {
                        lemma_next_is_closer(*self, store@, Property::Inc);
                    }
                }
                self.inherited_inc(store, read)
            },
        };
        match got {
            Ok(Some(inc)) => Ok(Some(inc)),
            Ok(None) => Ok(Some(DEFAULT_INCREMENT)),
            Err(err) => Err(err),
        }
    }

    /// The increment of the node that the value is delegated to, if there is one and it has one.
    pub fn inherited_inc<R: FnOnce(Source<i64>) -> GenApiResult<Option<i64>>>(
        &self,
        store: &NodeStore,
        read: R,
    ) -> (r: GenApiResult<Option<i64>>)
        requires
            self.next(store@) matches Some(node) ==> node.settles(store@, Property::Inc),
            inc_readable(self.inherited_inc_source(store@), read),
        ensures
            match self.next(store@) {
                Some(_) => reports_inc(r, self.inherited_inc_source(store@), read),
                None => match self.next_other(store@) {
                    Some(id) => read.ensures((Source::Node(id),), r),
                    None => r == Ok::<Option<i64>, GenApiError>(None),
                },
            },
            self.value_kind matches ValueKind::PValue(p_value) ==> (p_value.p_value.0 < store@.len()
                && store@[p_value.p_value.0 as int] is OtherInteger ==> read.ensures(
                (Source::Node(p_value.p_value),),
                r,
            )),
            (self.value_kind matches ValueKind::PValue(p_value) ==> p_value.p_value.0
                >= store@.len() || store@[p_value.p_value.0 as int] is NotInteger)
                ==> r == Ok::<Option<i64>, GenApiError>(None),
        decreases self.inherited_distance(store@, Property::Inc), 0nat,
    {
        let kind = match self.p_value() {
            Some(id) => id.as_iinteger_kind(store),
            None => None,
        };
        match kind {
            Some(IIntegerKind::Integer(node)) => node.inc(store, read),
            Some(IIntegerKind::Other(id)) => read(Source::Node(id)),
            None => Ok(None),
        }
    }
}

impl IntegerNode {
    /// The integer node that this one inherits the property from.
    fn inherits_from<'a>(&self, store: &'a NodeStore, property: Property) -> (r: Option<
        &'a IntegerNode,
    >)
        ensures
            match r {
                Some(next) => !self.declares(property) && self.next(store@) == Some(*next),
                None => self.declares(property) || self.next(store@) is None,
            },
    {
        let declared = match property {
            Property::Min => self.min.is_some(),
            Property::Max => self.max.is_some(),
            Property::Inc => self.inc.is_some(),
        };
        if declared {
            return None;
        }
        match self.p_value() {
            Some(id) => match id.as_iinteger_kind(store) {
                Some(IIntegerKind::Integer(next)) => Some(next),
                _ => None,
            },
            None => None,
        }
    }

    /// Whether [`Self::min`], [`Self::max`] or [`Self::inc`] comes to an end on this node: not if
    /// the delegation goes round in a circle of nodes that do not declare the property.
    pub fn delegation_settles(&self, store: &NodeStore, property: Property) -> (r: bool)
        ensures
            r == self.settles(store@, property),
    {
        let mut node: &IntegerNode = self;
        let mut steps: usize = 0;
        let ghost mut path: Seq<int> = Seq::empty();
        while steps < store.len()
            invariant
                steps <= store@.len(),
                path.len() == steps,
                leads_to(*self, store@, property, path, *node),
            decreases store@.len() - steps,
        {
            match node.inherits_from(store, property) {
                Some(next) => {
                    proof {
                        lemma_one_more_step(*self, store@, property, path, *node);
                        path = path.push((node.delegate()->0).0 as int);
                    }
                    node = next;
                    steps = steps + 1;
                },
                None => {
                    assert(node.settles_within(store@, property, 0));
                    return true;
                },
            }
        }
        match node.inherits_from(store, property) {
            Some(next) => {
                proof {
                    lemma_one_more_step(*self, store@, property, path, *node);
                    path = path.push((node.delegate()->0).0 as int);
                    lemma_long_path_is_a_circle(*self, store@, property, path, *next);
                }
                false
            },
            None => {
                assert(node.settles_within(store@, property, 0));
                true
            },
        }
    }

    /// The value of the node: `read` reads it from where the node has it.
    pub fn value<R: FnOnce(&ValueKind<IntegerId>) -> GenApiResult<i64>>(&self, read: R) -> (r:
        GenApiResult<i64>)
        requires
            read.requires((&self.value_kind,)),
        ensures
            read.ensures((&self.value_kind,), r),
    {
        read(&self.value_kind)
    }

    /// Sets the value of the node. First `invalidate` drops what is cached of the nodes that
    /// depend on this one, and then `write` writes the value to where the node has it.
    pub fn set_value<
        C,
        I: FnOnce(C, NodeId) -> C,
        W: FnOnce(C, &ValueKind<IntegerId>, i64) -> GenApiResult<()>,
    >(&self, value: i64, cx: C, invalidate: I, write: W) -> (r: GenApiResult<()>)
        requires
            invalidate.requires((cx, self.attr_base.id)),
            forall|cx_after: C| #[trigger]
                invalidate.ensures((cx, self.attr_base.id), cx_after) ==> write.requires(
                    (cx_after, &self.value_kind, value),
                ),
        ensures
            exists|cx_after: C| #[trigger]
                invalidate.ensures((cx, self.attr_base.id), cx_after) && write.ensures(
                    (cx_after, &self.value_kind, value),
                    r,
                ),
    {
        let cx_after = invalidate(cx, self.node_base().id());
        write(cx_after, &self.value_kind, value)
    }

    /// Sets the lower limit of the node, which only a node that declares one has: `write` writes
    /// the value to the element.
    pub fn set_min<W: FnOnce(ImmOrPNode<IntegerId>, i64) -> GenApiResult<()>>(
        &self,
        value: i64,
        write: W,
    ) -> (r: GenApiResult<()>)
        requires
            self.min matches Some(elem) ==> write.requires((elem, value)),
        ensures
            match self.min {
                Some(elem) => write.ensures((elem, value), r),
                None => r matches Err(err) && err is NotWritable,
            },
    {
        match self.min {
            Some(elem) => write(elem, value),
            None => Err(GenApiError::not_writable()),
        }
    }

    /// Sets the upper limit of the node, which only a node that declares one has: `write` writes
    /// the value to the element.
    pub fn set_max<W: FnOnce(ImmOrPNode<IntegerId>, i64) -> GenApiResult<()>>(
        &self,
        value: i64,
        write: W,
    ) -> (r: GenApiResult<()>)
        requires
            self.max matches Some(elem) ==> write.requires((elem, value)),
        ensures
            match self.max {
                Some(elem) => write.ensures((elem, value), r),
                None => r matches Err(err) && err is NotWritable,
            },
    {
        match self.max {
            Some(elem) => write(elem, value),
            None => Err(GenApiError::not_writable()),
        }
    }

    /// Whether the node can be read: its common elements allow it, and so does its value.
    /// `elem` and `value` find out about the one and the other; the value is looked at only if
    /// the common elements allow it.
    pub fn is_readable<
        C,
        E: FnOnce(C, &NodeElementBase, Access) -> (C, GenApiResult<bool>),
        V: FnOnce(C, &ValueKind<IntegerId>, Access) -> GenApiResult<bool>,
    >(&self, cx: C, elem: E, value: V) -> (r: GenApiResult<bool>)
        requires
            elem.requires((cx, &self.elem_base, Access::Read)),
            forall|cx_after: C| #[trigger]
                elem.ensures(
                    (cx, &self.elem_base, Access::Read),
                    (cx_after, Ok::<bool, GenApiError>(true)),
                ) ==> value.requires((cx_after, &self.value_kind, Access::Read)),
        ensures
            exists|cx_after: C, allowed: GenApiResult<bool>| #[trigger]
                elem.ensures((cx, &self.elem_base, Access::Read), (cx_after, allowed))
                    && match allowed {
                    Ok(true) => value.ensures((cx_after, &self.value_kind, Access::Read), r),
                    _ => r == allowed,
                },
    {
        let (cx_after, allowed) = elem(cx, &self.elem_base, Access::Read);
        match allowed {
            Ok(true) => value(cx_after, &self.value_kind, Access::Read),
            Ok(false) => Ok(false),
            Err(err) => Err(err),
        }
    }

    /// Whether the node can be written: its common elements allow it, and so does its value.
    /// `elem` and `value` find out about the one and the other; the value is looked at only if
    /// the common elements allow it.
    pub fn is_writable<
        C,
        E: FnOnce(C, &NodeElementBase, Access) -> (C, GenApiResult<bool>),
        V: FnOnce(C, &ValueKind<IntegerId>, Access) -> GenApiResult<bool>,
    >(&self, cx: C, elem: E, value: V) -> (r: GenApiResult<bool>)
        requires
            elem.requires((cx, &self.elem_base, Access::Write)),
            forall|cx_after: C| #[trigger]
                elem.ensures(
                    (cx, &self.elem_base, Access::Write),
                    (cx_after, Ok::<bool, GenApiError>(true)),
                ) ==> value.requires((cx_after, &self.value_kind, Access::Write)),
        ensures
            exists|cx_after: C, allowed: GenApiResult<bool>| #[trigger]
                elem.ensures((cx, &self.elem_base, Access::Write), (cx_after, allowed))
                    && match allowed {
                    Ok(true) => value.ensures((cx_after, &self.value_kind, Access::Write), r),
                    _ => r == allowed,
                },
    {
        let (cx_after, allowed) = elem(cx, &self.elem_base, Access::Write);
        match allowed {
            Ok(true) => value(cx_after, &self.value_kind, Access::Write),
            Ok(false) => Ok(false),
            Err(err) => Err(err),
        }
    }

    /// The attributes and elements that the node has in common with all others.
    pub fn node_base(&self) -> (base: NodeBase<'_>)
        ensures
            *base.attr == self.attr_base,
            *base.elem == self.elem_base,
    {
        NodeBase::new(&self.attr_base, &self.elem_base)
    }

    /// Whether the node is part of the state that is saved of a camera.
    pub fn streamable(&self) -> (r: bool)
        ensures
            r == self.streamable,
    {
        self.streamable
    }

    /// Where the node has its value from.
    #[must_use]
    pub fn value_kind(&self) -> (r: &ValueKind<IntegerId>)
        ensures
            *r == self.value_kind,
    {
        &self.value_kind
    }

    /// The lower limit that the node declares.
    #[must_use]
    pub fn min_elem(&self) -> (r: Option<ImmOrPNode<IntegerId>>)
        ensures
            r == self.min,
    {
        self.min
    }

    /// The upper limit that the node declares.
    #[must_use]
    pub fn max_elem(&self) -> (r: Option<ImmOrPNode<IntegerId>>)
        ensures
            r == self.max,
    {
        self.max
    }

    /// The increment that the node declares.
    #[must_use]
    pub fn inc_elem(&self) -> (r: Option<ImmOrPNode<i64>>)
        ensures
            r == self.inc,
    {
        self.inc
    }

    /// The unit of the value.
    #[must_use]
    pub fn unit_elem(&self) -> (r: Option<&str>)
        ensures
            match r {
                Some(unit) => self.unit matches Some(declared) && unit@ == declared@,
                None => self.unit is None,
            },
    {
        match &self.unit {
            Some(unit) => Some(unit.as_str()),
            None => None,
        }
    }

    /// How the value is meant to be shown.
    #[must_use]
    pub fn representation_elem(&self) -> (r: IntegerRepresentation)
        ensures
            r == self.representation,
    {
        self.representation
    }

    /// The nodes that the value selects.
    #[must_use]
    pub fn p_selected(&self) -> (r: &[NodeId])
        ensures
            r@ == self.p_selected@,
    {
        self.p_selected.as_slice()
    }

    /// How far apart the values are: always by a fixed increment.
    pub fn inc_mode(&self, _store: &NodeStore) -> (r: Option<IncrementMode>)
        ensures
            r == Some(IncrementMode::FixedIncrement),
    {
        Some(IncrementMode::FixedIncrement)
    }

    /// The values that the node lists: none.
    pub fn valid_value_set(&self, _store: &NodeStore) -> (r: &[i64])
        ensures
            r@ == Seq::<i64>::empty(),
    {
        let values: &[i64] = &[];
        proof {
            assert(values@ =~= Seq::<i64>::empty());
        }
        values
    }

    /// How the value is meant to be shown.
    pub fn representation(&self, _store: &NodeStore) -> (r: IntegerRepresentation)
        ensures
            r == self.representation,
    {
        self.representation_elem()
    }

    /// The unit of the value.
    pub fn unit(&self, _store: &NodeStore) -> (r: Option<&str>)
        ensures
            match r {
                Some(unit) => self.unit matches Some(declared) && unit@ == declared@,
                None => self.unit is None,
            },
    {
        self.unit_elem()
    }

    /// The nodes that the value selects.
    pub fn selecting_nodes(&self, _store: &NodeStore) -> (r: GenApiResult<&[NodeId]>)
        ensures
            r matches Ok(nodes) && nodes@ == self.p_selected@,
    {
        Ok(self.p_selected())
    }
}

/// A node that declares a limit or an increment has its own, whatever it delegates to.
pub proof fn law_declared_property_is_kept(node: IntegerNode, nodes: Seq<NodeData>)
    ensures
        node.min matches Some(elem) ==> node.settles(nodes, Property::Min) && node.min_origin(nodes)
            == Origin::Read(Source::Element(elem)),
        node.max matches Some(elem) ==> node.settles(nodes, Property::Max) && node.max_origin(nodes)
            == Origin::Read(Source::Element(elem)),
        node.inc matches Some(elem) ==> node.settles(nodes, Property::Inc) && node.inc_source(nodes)
            == Some(Source::Element(elem)),
{
    assert(node.min is Some ==> node.settles_within(nodes, Property::Min, 0));
    assert(node.max is Some ==> node.settles_within(nodes, Property::Max, 0));
    assert(node.inc is Some ==> node.settles_within(nodes, Property::Inc, 0));
}

/// A node that declares none has the limits and the increment of the integer node that it
/// delegates its value to.
pub proof fn law_bare_node_inherits(node: IntegerNode, nodes: Seq<NodeData>, next: IntegerNode)
    requires
        node.next(nodes) == Some(next),
    ensures
        node.min is None && next.settles(nodes, Property::Min) ==> node.settles(
            nodes,
            Property::Min,
        ) && node.min_origin(nodes) == next.min_origin(nodes),
        node.max is None && next.settles(nodes, Property::Max) ==> node.settles(
            nodes,
            Property::Max,
        ) && node.max_origin(nodes) == next.max_origin(nodes),
        node.inc is None && next.settles(nodes, Property::Inc) ==> node.settles(
            nodes,
            Property::Inc,
        ) && node.inc_source(nodes) == next.inc_source(nodes),
{
    if next.settles(nodes, Property::Min) {
        let steps = choose|steps: nat| next.settles_within(nodes, Property::Min, steps);
        assert(node.settles_within(nodes, Property::Min, steps + 1));
    }
    if next.settles(nodes, Property::Max) {
        let steps = choose|steps: nat| next.settles_within(nodes, Property::Max, steps);
        assert(node.settles_within(nodes, Property::Max, steps + 1));
    }
    if next.settles(nodes, Property::Inc) {
        let steps = choose|steps: nat| next.settles_within(nodes, Property::Inc, steps);
        assert(node.settles_within(nodes, Property::Inc, steps + 1));
    }
}

/// A node that declares none and delegates to no node with an integer value has the limits that
/// its representation implies, and the default increment.
pub proof fn law_lone_node_has_the_implied_range(node: IntegerNode, nodes: Seq<NodeData>)
    requires
        node.next(nodes) is None,
        node.next_other(nodes) is None,
    ensures
        node.min is None ==> node.settles(nodes, Property::Min) && node.min_origin(nodes)
            == Origin::Known(node.representation.implied_min()),
        node.max is None ==> node.settles(nodes, Property::Max) && node.max_origin(nodes)
            == Origin::Known(node.representation.implied_max()),
        node.inc is None ==> node.settles(nodes, Property::Inc) && node.inc_source(nodes) is None,
        node.representation.implied_min() < node.representation.implied_max(),
{
    assert(node.settles_within(nodes, Property::Min, 0));
    assert(node.settles_within(nodes, Property::Max, 0));
    assert(node.settles_within(nodes, Property::Inc, 0));
}

/// A node that declares a limit has what reading the element gives, whatever its representation and
/// whatever it delegates to.
pub proof fn law_declared_limit_is_read<R: FnOnce(Source<IntegerId>) -> GenApiResult<i64>>(
    node: IntegerNode,
    nodes: Seq<NodeData>,
    read: R,
    limit: GenApiResult<i64>,
)
    ensures
        node.min matches Some(elem) ==> {
            &&& node.settles(nodes, Property::Min)
            &&& readable(node.min_origin(nodes), read) <==> read.requires((Source::Element(elem),))
            &&& reports(limit, node.min_origin(nodes), read) <==> read.ensures(
                (Source::Element(elem),),
                limit,
            )
        },
        node.max matches Some(elem) ==> {
            &&& node.settles(nodes, Property::Max)
            &&& readable(node.max_origin(nodes), read) <==> read.requires((Source::Element(elem),))
            &&& reports(limit, node.max_origin(nodes), read) <==> read.ensures(
                (Source::Element(elem),),
                limit,
            )
        },
{
    law_declared_property_is_kept(node, nodes);
}

/// A node that declares no limit and delegates its value to a node of another kind that has an
/// integer as its value has the limit that reading that node gives, whatever its representation.
pub proof fn law_limit_of_another_kind_is_read<R: FnOnce(Source<IntegerId>) -> GenApiResult<i64>>(
    node: IntegerNode,
    nodes: Seq<NodeData>,
    p_value: PValue,
    read: R,
    limit: GenApiResult<i64>,
)
    requires
        node.value_kind == ValueKind::<IntegerId>::PValue(p_value),
        p_value.p_value.0 < nodes.len(),
        nodes[p_value.p_value.0 as int] is OtherInteger,
    ensures
        node.min is None ==> {
            &&& node.settles(nodes, Property::Min)
            &&& readable(node.min_origin(nodes), read) <==> read.requires(
                (Source::Node(p_value.p_value),),
            )
            &&& reports(limit, node.min_origin(nodes), read) <==> read.ensures(
                (Source::Node(p_value.p_value),),
                limit,
            )
        },
        node.max is None ==> {
            &&& node.settles(nodes, Property::Max)
            &&& readable(node.max_origin(nodes), read) <==> read.requires(
                (Source::Node(p_value.p_value),),
            )
            &&& reports(limit, node.max_origin(nodes), read) <==> read.ensures(
                (Source::Node(p_value.p_value),),
                limit,
            )
        },
        node.next(nodes) is None,
        readable(node.inherited_min_origin(nodes), read) <==> read.requires(
            (Source::Node(p_value.p_value),),
        ),
        reports(limit, node.inherited_min_origin(nodes), read) <==> read.ensures(
            (Source::Node(p_value.p_value),),
            limit,
        ),
        readable(node.inherited_max_origin(nodes), read) <==> read.requires(
            (Source::Node(p_value.p_value),),
        ),
        reports(limit, node.inherited_max_origin(nodes), read) <==> read.ensures(
            (Source::Node(p_value.p_value),),
            limit,
        ),
{
    assert(node.settles_within(nodes, Property::Min, 0));
    assert(node.settles_within(nodes, Property::Max, 0));
}

/// A node that declares no limit and whose value is its own, is selected by an index, or is
/// delegated to where no integer is, has the limits of its representation: those of an address of
/// 32 or 48 bits, and else those of the machine.
pub proof fn law_lone_node_has_the_limits_of_its_representation<
    R: FnOnce(Source<IntegerId>) -> GenApiResult<i64>,
>(node: IntegerNode, nodes: Seq<NodeData>, read: R, limit: GenApiResult<i64>)
    requires
        node.value_kind matches ValueKind::PValue(p_value) ==> p_value.p_value.0 >= nodes.len()
            || nodes[p_value.p_value.0 as int] is NotInteger,
    ensures
        node.min is None ==> {
            &&& node.settles(nodes, Property::Min)
            &&& readable(node.min_origin(nodes), read)
            &&& node.representation is IpV4Address || node.representation is MacAddress ==> (
            reports(limit, node.min_origin(nodes), read) <==> limit == Ok::<i64, GenApiError>(0))
            &&& node.representation !is IpV4Address && node.representation !is MacAddress ==> (
            reports(limit, node.min_origin(nodes), read) <==> limit == Ok::<i64, GenApiError>(
                i64::MIN,
            ))
        },
        node.max is None ==> {
            &&& node.settles(nodes, Property::Max)
            &&& readable(node.max_origin(nodes), read)
            &&& node.representation is IpV4Address ==> (reports(
                limit,
                node.max_origin(nodes),
                read,
            ) <==> limit == Ok::<i64, GenApiError>(0xffff_ffff))
            &&& node.representation is MacAddress ==> (reports(
                limit,
                node.max_origin(nodes),
                read,
            ) <==> limit == Ok::<i64, GenApiError>(0xffff_ffff_ffff))
            &&& node.representation !is IpV4Address && node.representation !is MacAddress ==> (
            reports(limit, node.max_origin(nodes), read) <==> limit == Ok::<i64, GenApiError>(
                i64::MAX,
            ))
        },
        node.next(nodes) is None,
        readable(node.inherited_min_origin(nodes), read),
        readable(node.inherited_max_origin(nodes), read),
        reports(limit, node.inherited_min_origin(nodes), read) <==> limit == Ok::<i64, GenApiError>(
            if node.representation is IpV4Address || node.representation is MacAddress {
                0
            } else {
                i64::MIN
            },
        ),
        reports(limit, node.inherited_max_origin(nodes), read) <==> limit == Ok::<i64, GenApiError>(
            if node.representation is IpV4Address {
                0xffff_ffff
            } else if node.representation is MacAddress {
                0xffff_ffff_ffff
            } else {
                i64::MAX
            },
        ),
{
    assert(node.settles_within(nodes, Property::Min, 0));
    assert(node.settles_within(nodes, Property::Max, 0));
}

/// A node that declares an increment has the number that is its element, without reading anything,
/// or what reading the node that the element names gives. Where that has none, it is one.
pub proof fn law_declared_increment_is_read<
    R: FnOnce(Source<i64>) -> GenApiResult<Option<i64>>,
>(node: IntegerNode, nodes: Seq<NodeData>, read: R, inc: GenApiResult<Option<i64>>)
    ensures
        node.inc matches Some(ImmOrPNode::Imm(number)) ==> {
            &&& node.settles(nodes, Property::Inc)
            &&& inc_readable(node.inc_source(nodes), read)
            &&& reports_inc(inc, node.inc_source(nodes), read) <==> inc == Ok::<
                Option<i64>,
                GenApiError,
            >(Some(number))
        },
        node.inc matches Some(ImmOrPNode::PNode(id)) ==> {
            let source = Source::Element(ImmOrPNode::PNode(id));
            &&& node.settles(nodes, Property::Inc)
            &&& inc_readable(node.inc_source(nodes), read) <==> read.requires((source,))
            &&& reports_inc(inc, node.inc_source(nodes), read) <==> {
                ||| inc is Err && read.ensures((source,), inc)
                ||| inc matches Ok(Some(_)) && read.ensures((source,), inc)
                ||| inc == Ok::<Option<i64>, GenApiError>(Some(1)) && read.ensures(
                    (source,),
                    Ok::<Option<i64>, GenApiError>(None),
                )
            }
        },
{
    law_declared_property_is_kept(node, nodes);
}

/// A node that declares no increment and delegates its value to a node of another kind that has an
/// integer as its value has the increment that reading that node gives, or the error, whatever its
/// representation. Where that node has no increment, it is one.
pub proof fn law_increment_of_another_kind_is_read<
    R: FnOnce(Source<i64>) -> GenApiResult<Option<i64>>,
>(
    node: IntegerNode,
    nodes: Seq<NodeData>,
    p_value: PValue,
    read: R,
    inc: GenApiResult<Option<i64>>,
)
    requires
        node.value_kind == ValueKind::<IntegerId>::PValue(p_value),
        p_value.p_value.0 < nodes.len(),
        nodes[p_value.p_value.0 as int] is OtherInteger,
    ensures
        node.inc is None ==> {
            let source = Source::Node(p_value.p_value);
            &&& node.settles(nodes, Property::Inc)
            &&& inc_readable(node.inc_source(nodes), read) <==> read.requires((source,))
            &&& reports_inc(inc, node.inc_source(nodes), read) <==> {
                ||| inc is Err && read.ensures((source,), inc)
                ||| inc matches Ok(Some(_)) && read.ensures((source,), inc)
                ||| inc == Ok::<Option<i64>, GenApiError>(Some(1)) && read.ensures(
                    (source,),
                    Ok::<Option<i64>, GenApiError>(None),
                )
            }
        },
        node.next(nodes) is None,
        node.next_other(nodes) == Some(p_value.p_value),
        inc_readable(node.inherited_inc_source(nodes), read) <==> read.requires(
            (Source::Node(p_value.p_value),),
        ),
{
    assert(node.settles_within(nodes, Property::Inc, 0));
}

/// A node that declares no increment and whose value is its own, is selected by an index, or is
/// delegated to where no integer is, has an increment of one.
pub proof fn law_lone_node_goes_by_one<R: FnOnce(Source<i64>) -> GenApiResult<Option<i64>>>(
    node: IntegerNode,
    nodes: Seq<NodeData>,
    read: R,
    inc: GenApiResult<Option<i64>>,
)
    requires
        node.value_kind matches ValueKind::PValue(p_value) ==> p_value.p_value.0 >= nodes.len()
            || nodes[p_value.p_value.0 as int] is NotInteger,
    ensures
        node.inc is None ==> {
            &&& node.settles(nodes, Property::Inc)
            &&& inc_readable(node.inc_source(nodes), read)
            &&& reports_inc(inc, node.inc_source(nodes), read) <==> inc == Ok::<
                Option<i64>,
                GenApiError,
            >(Some(1))
        },
        node.next(nodes) is None,
        node.next_other(nodes) is None,
        inc_readable(node.inherited_inc_source(nodes), read),
{
    assert(node.settles_within(nodes, Property::Inc, 0));
}

/// A node that does not declare a property and delegates its value to an integer node settles where
/// the property comes from if and only if that node does, and has it from where that node has it.
pub proof fn law_delegated_property_is_that_of_the_next_node(
    node: IntegerNode,
    nodes: Seq<NodeData>,
    p_value: PValue,
    next: IntegerNode,
)
    requires
        node.value_kind == ValueKind::<IntegerId>::PValue(p_value),
        p_value.p_value.0 < nodes.len(),
        nodes[p_value.p_value.0 as int] == NodeData::Integer(next),
    ensures
        node.min is None ==> (node.settles(nodes, Property::Min) <==> next.settles(
            nodes,
            Property::Min,
        )),
        node.max is None ==> (node.settles(nodes, Property::Max) <==> next.settles(
            nodes,
            Property::Max,
        )),
        node.inc is None ==> (node.settles(nodes, Property::Inc) <==> next.settles(
            nodes,
            Property::Inc,
        )),
        node.min is None && next.settles(nodes, Property::Min) ==> node.min_origin(nodes)
            == next.min_origin(nodes),
        node.max is None && next.settles(nodes, Property::Max) ==> node.max_origin(nodes)
            == next.max_origin(nodes),
        node.inc is None && next.settles(nodes, Property::Inc) ==> node.inc_source(nodes)
            == next.inc_source(nodes),
        node.next(nodes) == Some(next),
        node.inherited_min_origin(nodes) == next.min_origin(nodes),
        node.inherited_max_origin(nodes) == next.max_origin(nodes),
        node.inherited_inc_source(nodes) == next.inc_source(nodes),
{
    law_bare_node_inherits(node, nodes, next);
    if node.min is None && node.settles(nodes, Property::Min) {
        lemma_next_is_closer(node, nodes, Property::Min);
    }
    if node.max is None && node.settles(nodes, Property::Max) {
        lemma_next_is_closer(node, nodes, Property::Max);
    }
    if node.inc is None && node.settles(nodes, Property::Inc) {
        lemma_next_is_closer(node, nodes, Property::Inc);
    }
}

/// Where each node of a chain delegates its value to the next one and only the last may declare
/// a lower limit, the first has it from where the last has it, however long the chain is.
pub proof fn law_lower_limit_comes_from_the_end_of_the_chain(
    chain: Seq<IntegerNode>,
    nodes: Seq<NodeData>,
)
    requires
        chain.len() > 0,
        forall|i: int, j: int|
            #![trigger chain[i], chain[j]]
            0 <= i && j == i + 1 && j < chain.len() ==> {
                &&& chain[i].min is None
                &&& chain[i].value_kind matches ValueKind::PValue(p_value)
                &&& p_value.p_value.0 < nodes.len()
                &&& nodes[p_value.p_value.0 as int] == NodeData::Integer(chain[j])
            },
    ensures
        chain[0].settles(nodes, Property::Min) <==> chain.last().settles(nodes, Property::Min),
        chain.last().settles(nodes, Property::Min) ==> chain[0].min_origin(nodes)
            == chain.last().min_origin(nodes),
    decreases chain.len(),
{
    if chain.len() > 1 {
        let rest = chain.drop_first();
        assert forall|i: int, j: int|
            #![trigger rest[i], rest[j]]
            0 <= i && j == i + 1 && j < rest.len() implies {
            &&& rest[i].min is None
            &&& rest[i].value_kind matches ValueKind::PValue(p_value)
            &&& p_value.p_value.0 < nodes.len()
            &&& nodes[p_value.p_value.0 as int] == NodeData::Integer(rest[j])
        } by {
            assert(rest[i] == chain[i + 1] && rest[j] == chain[j + 1]);
        }
        law_lower_limit_comes_from_the_end_of_the_chain(rest, nodes);
        assert(rest.last() == chain.last() && rest[0] == chain[1]);
        law_delegated_property_is_that_of_the_next_node(
            chain[0],
            nodes,
            chain[0].value_kind->PValue_0,
            chain[1],
        );
    }
}

/// Where each node of a chain delegates its value to the next one and only the last may declare
/// an upper limit, the first has it from where the last has it, however long the chain is.
pub proof fn law_upper_limit_comes_from_the_end_of_the_chain(
    chain: Seq<IntegerNode>,
    nodes: Seq<NodeData>,
)
    requires
        chain.len() > 0,
        forall|i: int, j: int|
            #![trigger chain[i], chain[j]]
            0 <= i && j == i + 1 && j < chain.len() ==> {
                &&& chain[i].max is None
                &&& chain[i].value_kind matches ValueKind::PValue(p_value)
                &&& p_value.p_value.0 < nodes.len()
                &&& nodes[p_value.p_value.0 as int] == NodeData::Integer(chain[j])
            },
    ensures
        chain[0].settles(nodes, Property::Max) <==> chain.last().settles(nodes, Property::Max),
        chain.last().settles(nodes, Property::Max) ==> chain[0].max_origin(nodes)
            == chain.last().max_origin(nodes),
    decreases chain.len(),
{
    if chain.len() > 1 {
        let rest = chain.drop_first();
        assert forall|i: int, j: int|
            #![trigger rest[i], rest[j]]
            0 <= i && j == i + 1 && j < rest.len() implies {
            &&& rest[i].max is None
            &&& rest[i].value_kind matches ValueKind::PValue(p_value)
            &&& p_value.p_value.0 < nodes.len()
            &&& nodes[p_value.p_value.0 as int] == NodeData::Integer(rest[j])
        } by {
            assert(rest[i] == chain[i + 1] && rest[j] == chain[j + 1]);
        }
        law_upper_limit_comes_from_the_end_of_the_chain(rest, nodes);
        assert(rest.last() == chain.last() && rest[0] == chain[1]);
        law_delegated_property_is_that_of_the_next_node(
            chain[0],
            nodes,
            chain[0].value_kind->PValue_0,
            chain[1],
        );
    }
}

/// Where each node of a chain delegates its value to the next one and only the last may declare
/// an increment, the first has it from where the last has it, however long the chain is.
pub proof fn law_increment_comes_from_the_end_of_the_chain(
    chain: Seq<IntegerNode>,
    nodes: Seq<NodeData>,
)
    requires
        chain.len() > 0,
        forall|i: int, j: int|
            #![trigger chain[i], chain[j]]
            0 <= i && j == i + 1 && j < chain.len() ==> {
                &&& chain[i].inc is None
                &&& chain[i].value_kind matches ValueKind::PValue(p_value)
                &&& p_value.p_value.0 < nodes.len()
                &&& nodes[p_value.p_value.0 as int] == NodeData::Integer(chain[j])
            },
    ensures
        chain[0].settles(nodes, Property::Inc) <==> chain.last().settles(nodes, Property::Inc),
        chain.last().settles(nodes, Property::Inc) ==> chain[0].inc_source(nodes)
            == chain.last().inc_source(nodes),
    decreases chain.len(),
{
    if chain.len() > 1 {
        let rest = chain.drop_first();
        assert forall|i: int, j: int|
            #![trigger rest[i], rest[j]]
            0 <= i && j == i + 1 && j < rest.len() implies {
            &&& rest[i].inc is None
            &&& rest[i].value_kind matches ValueKind::PValue(p_value)
            &&& p_value.p_value.0 < nodes.len()
            &&& nodes[p_value.p_value.0 as int] == NodeData::Integer(rest[j])
        } by {
            assert(rest[i] == chain[i + 1] && rest[j] == chain[j + 1]);
        }
        law_increment_comes_from_the_end_of_the_chain(rest, nodes);
        assert(rest.last() == chain.last() && rest[0] == chain[1]);
        law_delegated_property_is_that_of_the_next_node(
            chain[0],
            nodes,
            chain[0].value_kind->PValue_0,
            chain[1],
        );
    }
}

/// Nodes that delegate their values to one another in a circle, none of which declares the
/// property, do not settle where it comes from.
pub proof fn law_circle_never_settles(
    circle: Set<u32>,
    nodes: Seq<NodeData>,
    property: Property,
    start: u32,
)
    requires
        forall|i: u32| #[trigger]
            circle.contains(i) ==> {
                &&& i < nodes.len()
                &&& nodes[i as int] matches NodeData::Integer(node)
                &&& match property {
                    Property::Min => node.min is None,
                    Property::Max => node.max is None,
                    Property::Inc => node.inc is None,
                }
                &&& node.value_kind matches ValueKind::PValue(p_value)
                &&& circle.contains(p_value.p_value.0)
            },
        circle.contains(start),
    ensures
        nodes[start as int] matches NodeData::Integer(node) && !node.settles(nodes, property),
{
    let node = nodes[start as int]->Integer_0;
    assert forall|steps: nat| !#[trigger] node.settles_within(nodes, property, steps) by {
        lemma_circle_goes_on(circle, nodes, property, start, steps);
    }
}

proof fn lemma_circle_goes_on(
    circle: Set<u32>,
    nodes: Seq<NodeData>,
    property: Property,
    start: u32,
    steps: nat,
)
    requires
        forall|i: u32| #[trigger]
            circle.contains(i) ==> {
                &&& i < nodes.len()
                &&& nodes[i as int] matches NodeData::Integer(node)
                &&& match property {
                    Property::Min => node.min is None,
                    Property::Max => node.max is None,
                    Property::Inc => node.inc is None,
                }
                &&& node.value_kind matches ValueKind::PValue(p_value)
                &&& circle.contains(p_value.p_value.0)
            },
        circle.contains(start),
    ensures
        !(nodes[start as int]->Integer_0).settles_within(nodes, property, steps),
    decreases steps,
{
    if steps > 0 {
        let next = ((nodes[start as int]->Integer_0).value_kind->PValue_0).p_value.0;
        lemma_circle_goes_on(circle, nodes, property, next, (steps - 1) as nat);
    }
}

} // verus!
