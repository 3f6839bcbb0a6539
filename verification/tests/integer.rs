use cameleon::genapi::elem_type::{
    ImmOrPNode, IncrementMode, IntegerId, IntegerRepresentation, NodeId, PIndex, PValue,
    ValueIndexed, ValueKind,
};
use cameleon::genapi::error::{GenApiError, GenApiResult};
use cameleon::genapi::integer::{Access, IntegerNode, Property, Source};
use cameleon::genapi::node_base::{NodeAttributeBase, NodeElementBase};
use cameleon::genapi::store::{NodeData, NodeStore};

/// A node that declares nothing and has its value from `value_kind`.
fn bare(id: u32, value_kind: ValueKind<IntegerId>) -> IntegerNode {
    IntegerNode {
        attr_base: NodeAttributeBase { id: NodeId(id) },
        elem_base: NodeElementBase {
            p_is_implemented: None,
            p_is_available: None,
            p_is_locked: Some(NodeId(77)),
        },
        streamable: false,
        value_kind,
        min: None,
        max: None,
        inc: None,
        unit: None,
        representation: IntegerRepresentation::PureNumber,
        p_selected: Vec::new(),
    }
}

fn delegating(id: u32, to: u32) -> IntegerNode {
    bare(id, ValueKind::PValue(PValue { p_value: NodeId(to), p_value_copies: Vec::new() }))
}

fn own(id: u32) -> IntegerNode {
    bare(id, ValueKind::Value(IntegerId(1)))
}

fn store(nodes: Vec<NodeData>) -> NodeStore {
    NodeStore::new(nodes)
}

fn unread<T>(_: Source<T>) -> GenApiResult<i64> {
    panic!("nothing is to be read")
}

fn unread_inc(_: Source<i64>) -> GenApiResult<Option<i64>> {
    panic!("nothing is to be read")
}

#[test]
fn lone_node_has_the_range_of_its_representation() {
    let store = store(Vec::new());
    let mut node = own(0);
    assert_eq!(node.min(&store, unread).unwrap(), i64::MIN);
    assert_eq!(node.max(&store, unread).unwrap(), i64::MAX);
    assert_eq!(node.inc(&store, unread_inc).unwrap(), Some(1));
    node.representation = IntegerRepresentation::IpV4Address;
    assert_eq!(node.min(&store, unread).unwrap(), 0);
    assert_eq!(node.max(&store, unread).unwrap(), 0xffff_ffff);
    node.representation = IntegerRepresentation::MacAddress;
    assert_eq!(node.min(&store, unread).unwrap(), 0);
    assert_eq!(node.max(&store, unread).unwrap(), 0xffff_ffff_ffff);
}

#[test]
fn declared_limits_are_kept() {
    let mut node = delegating(0, 1);
    node.min = Some(ImmOrPNode::Imm(IntegerId(5)));
    node.max = Some(ImmOrPNode::PNode(NodeId(6)));
    node.inc = Some(ImmOrPNode::Imm(4));
    let store = store(vec![NodeData::NotInteger, NodeData::OtherInteger]);
    let min = node.min(&store, |source| {
        assert_eq!(source, Source::Element(ImmOrPNode::Imm(IntegerId(5))));
        Ok(10)
    });
    assert_eq!(min.unwrap(), 10);
    let max = node.max(&store, |source| {
        assert_eq!(source, Source::Element(ImmOrPNode::PNode(NodeId(6))));
        Ok(20)
    });
    assert_eq!(max.unwrap(), 20);
    // An increment that stands in the element itself need not be read.
    assert_eq!(node.inc(&store, unread_inc).unwrap(), Some(4));
    node.inc = Some(ImmOrPNode::PNode(NodeId(1)));
    let inc = node.inc(&store, |source| {
        assert_eq!(source, Source::Element(ImmOrPNode::PNode(NodeId(1))));
        Ok(Some(16))
    });
    assert_eq!(inc.unwrap(), Some(16));
}

#[test]
fn bare_node_inherits_along_the_whole_chain() {
    let mut last = own(2);
    last.min = Some(ImmOrPNode::Imm(IntegerId(5)));
    last.representation = IntegerRepresentation::MacAddress;
    let node = delegating(0, 1);
    let store = store(vec![
        NodeData::NotInteger,
        NodeData::Integer(delegating(1, 2)),
        NodeData::Integer(last),
    ]);
    let min = node.min(&store, |source| {
        assert_eq!(source, Source::Element(ImmOrPNode::Imm(IntegerId(5))));
        Ok(46)
    });
    assert_eq!(min.unwrap(), 46);
    // The last node declares no upper limit, so its representation decides, not the first's.
    assert_eq!(node.max(&store, unread).unwrap(), 0xffff_ffff_ffff);
    assert_eq!(node.inc(&store, unread_inc).unwrap(), Some(1));
}

#[test]
fn increment_that_stands_in_an_element_is_inherited() {
    let mut last = own(0);
    last.inc = Some(ImmOrPNode::Imm(4));
    let store = store(vec![NodeData::Integer(last)]);
    assert_eq!(delegating(1, 0).inc(&store, unread_inc).unwrap(), Some(4));
    assert_eq!(delegating(1, 0).inherited_inc(&store, unread_inc).unwrap(), Some(4));
}

#[test]
fn inherited_limits_are_those_of_the_delegate_even_if_the_node_declares_its_own() {
    let mut node = delegating(0, 0);
    node.min = Some(ImmOrPNode::Imm(IntegerId(5)));
    node.max = Some(ImmOrPNode::Imm(IntegerId(6)));
    let store = store(vec![NodeData::OtherInteger]);
    let read = |source| {
        assert_eq!(source, Source::Node(NodeId(0)));
        Ok(46)
    };
    assert_eq!(node.inherited_min(&store, read).unwrap(), 46);
    assert_eq!(node.inherited_max(&store, read).unwrap(), 46);
    assert_eq!(node.inherited_inc(&store, |_| Ok(None)).unwrap(), None);
    assert_eq!(own(0).inherited_inc(&store, unread_inc).unwrap(), None);
}

#[test]
fn bare_node_inherits_from_a_node_of_another_kind() {
    let node = delegating(0, 1);
    let store = store(vec![NodeData::NotInteger, NodeData::OtherInteger]);
    let max = node.max(&store, |source| {
        assert_eq!(source, Source::Node(NodeId(1)));
        Ok(9000)
    });
    assert_eq!(max.unwrap(), 9000);
    assert_eq!(node.inc(&store, |_| Ok(Some(8))).unwrap(), Some(8));
    // A register has no notion of an increment.
    assert_eq!(node.inc(&store, |_| Ok(None)).unwrap(), Some(1));
    let failed = node.inc(&store, |_| Err(GenApiError::Failed("no answer".to_string())));
    assert!(matches!(failed, Err(GenApiError::Failed(_))));
    let failed = node.min(&store, |_| Err(GenApiError::Failed("no answer".to_string())));
    assert!(matches!(failed, Err(GenApiError::Failed(_))));
}

#[test]
fn delegation_to_no_integer_leaves_the_implied_range() {
    let store = store(vec![NodeData::NotInteger]);
    assert_eq!(delegating(0, 0).min(&store, unread).unwrap(), i64::MIN);
    assert_eq!(delegating(0, 12).max(&store, unread).unwrap(), i64::MAX);
    let indexed = bare(
        0,
        ValueKind::PIndex(PIndex {
            p_index: NodeId(0),
            value_indexed: vec![ValueIndexed { index: 1, indexed: ImmOrPNode::PNode(NodeId(0)) }],
            value_default: ImmOrPNode::Imm(IntegerId(1)),
        }),
    );
    assert_eq!(indexed.min(&store, unread).unwrap(), i64::MIN);
}

#[test]
fn circle_of_bare_nodes_does_not_settle() {
    let mut declaring = delegating(2, 0);
    declaring.min = Some(ImmOrPNode::Imm(IntegerId(5)));
    let store = store(vec![
        NodeData::Integer(delegating(0, 1)),
        NodeData::Integer(delegating(1, 2)),
        NodeData::Integer(declaring),
        NodeData::Integer(delegating(3, 4)),
        NodeData::OtherInteger,
    ]);
    let node = delegating(0, 1);
    assert!(!node.delegation_settles(&store, Property::Max));
    assert!(!node.delegation_settles(&store, Property::Inc));
    // The node that declares the lower limit breaks the circle.
    assert!(node.delegation_settles(&store, Property::Min));
    assert_eq!(node.min(&store, |_| Ok(3)).unwrap(), 3);
    assert!(delegating(9, 3).delegation_settles(&store, Property::Max));
    assert!(own(9).delegation_settles(&store, Property::Inc));
}

#[test]
fn value_is_read_from_where_the_node_has_it() {
    let node = delegating(0, 3);
    let value = node.value(|kind| {
        assert_eq!(kind.p_value().unwrap().p_value(), NodeId(3));
        Ok(17)
    });
    assert_eq!(value.unwrap(), 17);
}

#[test]
fn cache_is_invalidated_before_the_value_is_written() {
    let node = delegating(4, 3);
    let mut log: Vec<String> = Vec::new();
    let r = node.set_value(
        12,
        &mut log,
        |log: &mut Vec<String>, id: NodeId| {
            log.push(format!("invalidate {}", id.0));
            log
        },
        |log: &mut Vec<String>, kind: &ValueKind<IntegerId>, value: i64| {
            log.push(format!("write {} to {}", value, kind.p_value().unwrap().p_value().0));
            Ok(())
        },
    );
    assert!(r.is_ok());
    assert_eq!(log, vec!["invalidate 4", "write 12 to 3"]);
}

#[test]
fn only_declared_limits_can_be_set() {
    let mut node = own(0);
    let unwritten = |_: ImmOrPNode<IntegerId>, _: i64| -> GenApiResult<()> { panic!("written") };
    assert!(matches!(node.set_min(3, unwritten), Err(GenApiError::NotWritable)));
    assert!(matches!(node.set_max(3, unwritten), Err(GenApiError::NotWritable)));
    node.min = Some(ImmOrPNode::Imm(IntegerId(5)));
    node.max = Some(ImmOrPNode::Imm(IntegerId(6)));
    let mut written = Vec::new();
    node.set_min(3, |elem, value| {
        written.push((elem, value));
        Ok(())
    })
    .unwrap();
    node.set_max(4, |elem, value| {
        written.push((elem, value));
        Ok(())
    })
    .unwrap();
    assert_eq!(
        written,
        vec![(ImmOrPNode::Imm(IntegerId(5)), 3), (ImmOrPNode::Imm(IntegerId(6)), 4)]
    );
}

#[test]
fn node_is_usable_if_its_elements_and_its_value_are() {
    let node = own(0);
    for elem in [true, false] {
        for value in [true, false] {
            let r = node.is_readable(
                (),
                |(), base: &NodeElementBase, access: Access| {
                    assert_eq!(base.p_is_locked, Some(NodeId(77)));
                    assert_eq!(access, Access::Read);
                    ((), Ok(elem))
                },
                |(), _kind: &ValueKind<IntegerId>, access: Access| {
                    assert!(elem, "the value is looked at only if the elements allow it");
                    assert_eq!(access, Access::Read);
                    Ok(value)
                },
            );
            assert_eq!(r.unwrap(), elem && value);
            let r = node.is_writable(
                (),
                |(), _base: &NodeElementBase, access: Access| {
                    assert_eq!(access, Access::Write);
                    ((), Ok(elem))
                },
                |(), _kind: &ValueKind<IntegerId>, access: Access| {
                    assert_eq!(access, Access::Write);
                    Ok(value)
                },
            );
            assert_eq!(r.unwrap(), elem && value);
        }
    }
    let r = node.is_readable(
        (),
        |(), _: &NodeElementBase, _: Access| ((), Err(GenApiError::Failed("gone".to_string()))),
        |(), _: &ValueKind<IntegerId>, _: Access| Ok(true),
    );
    assert!(matches!(r, Err(GenApiError::Failed(_))));
}

#[test]
fn elements_are_given_as_they_are() {
    let mut node = delegating(4, 3);
    node.streamable = true;
    node.unit = Some("us".to_string());
    node.representation = IntegerRepresentation::HexNumber;
    node.min = Some(ImmOrPNode::Imm(IntegerId(5)));
    node.max = Some(ImmOrPNode::PNode(NodeId(6)));
    node.inc = Some(ImmOrPNode::Imm(2));
    node.p_selected = vec![NodeId(8), NodeId(9)];
    let store = store(Vec::new());
    assert_eq!(node.node_base().id(), NodeId(4));
    assert!(node.streamable());
    assert!(matches!(node.value_kind(), ValueKind::PValue(_)));
    assert_eq!(node.min_elem(), Some(ImmOrPNode::Imm(IntegerId(5))));
    assert_eq!(node.max_elem(), Some(ImmOrPNode::PNode(NodeId(6))));
    assert_eq!(node.inc_elem(), Some(ImmOrPNode::Imm(2)));
    assert_eq!(node.unit_elem(), Some("us"));
    assert_eq!(node.unit(&store), Some("us"));
    assert_eq!(own(0).unit_elem(), None);
    assert_eq!(node.representation_elem(), IntegerRepresentation::HexNumber);
    assert_eq!(node.representation(&store), IntegerRepresentation::HexNumber);
    assert_eq!(node.p_selected(), &[NodeId(8), NodeId(9)]);
    assert_eq!(node.selecting_nodes(&store).unwrap(), &[NodeId(8), NodeId(9)]);
    assert_eq!(node.inc_mode(&store), Some(IncrementMode::FixedIncrement));
    assert!(node.valid_value_set(&store).is_empty());
}

#[test]
fn store_finds_nodes_by_their_place() {
    let store = store(vec![NodeData::NotInteger, NodeData::OtherInteger]);
    assert_eq!(store.len(), 2);
    assert!(matches!(store.node_opt(NodeId(1)), Some(NodeData::OtherInteger)));
    assert!(store.node_opt(NodeId(2)).is_none());
    assert!(NodeId(0).as_iinteger_kind(&store).is_none());
    assert!(NodeId(1).as_iinteger_kind(&store).is_some());
    assert!(NodeId(2).as_iinteger_kind(&store).is_none());
}
