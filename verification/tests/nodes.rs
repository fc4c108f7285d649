use htmlarc_dom::dom::nodes::{opt_u16, Nodes};
use htmlarc_dom::dom::slots::WIDTH_U16;
use htmlarc_dom::dom::NodeIndex;
use htmlarc_dom::html::HtmlTag;

#[test]
fn test_opt_u16() {
    assert_eq!(opt_u16([0, 0]), Some(0));
    assert_eq!(opt_u16([255, 255]), None);
}

#[test]
fn test_single_node_empy() {
    let mut vec = Nodes::new();
    // check the values
    assert_eq!(vec.tag(NodeIndex::root()), HtmlTag::sys_root);
    assert_eq!(vec.parent_index(NodeIndex::root()), None);
    assert_eq!(vec.prev_sibling_index(NodeIndex::root()), None);
    assert_eq!(vec.next_sibling_index(NodeIndex::root()), None);
    assert_eq!(vec.first_child_index(NodeIndex::root()), None);
    assert_eq!(vec.last_child_index(NodeIndex::root()), None);
    assert_eq!(vec.class_list_index(NodeIndex::root()), None);
    assert_eq!(vec.attr_list_index(NodeIndex::root()), None);

    let index = vec.add_node(
        HtmlTag::abbr,
        Some(NodeIndex::new(1)),
        Some(NodeIndex::new(2)),
        Some(NodeIndex::new(3)),
    );
    vec.set_first_child_index(index, Some(NodeIndex::new(4)));
    vec.set_last_child_index(index, Some(NodeIndex::new(5)));

    println!("{:?}", vec);
    assert_eq!(index, NodeIndex::new(1));
    assert_eq!(vec.tag(NodeIndex::new(1)), HtmlTag::abbr);
    assert_eq!(vec.parent_index(NodeIndex::new(1)), Some(NodeIndex::new(1)));
    assert_eq!(
        vec.prev_sibling_index(NodeIndex::new(1)),
        Some(NodeIndex::new(2))
    );
    assert_eq!(
        vec.next_sibling_index(NodeIndex::new(1)),
        Some(NodeIndex::new(3))
    );
    assert_eq!(
        vec.first_child_index(NodeIndex::new(1)),
        Some(NodeIndex::new(4))
    );
    assert_eq!(
        vec.last_child_index(NodeIndex::new(1)),
        Some(NodeIndex::new(5))
    );
}

#[test]
fn test_adaptive_width_roundtrip() {
    // small tree built at u24 down-packs to u16 losslessly
    let mut u24 = Nodes::new();
    let body = u24.add_as_last_child(NodeIndex::root(), HtmlTag::body);
    let div = u24.add_as_last_child(body, HtmlTag::div);
    let p = u24.add_as_last_child(div, HtmlTag::p);
    u24.add_as_last_child(body, HtmlTag::span);

    let u16 = u24.clone().into_optimal_width();
    assert_eq!(u16.width(), WIDTH_U16);
    assert_eq!(u16.len(), u24.len());
    // identical topology at both widths
    for i in 0..u24.len() as u32 {
        let idx = NodeIndex::new(i);
        assert_eq!(u24.tag(idx), u16.tag(idx));
        assert_eq!(u24.parent_index(idx), u16.parent_index(idx));
        assert_eq!(u24.prev_sibling_index(idx), u16.prev_sibling_index(idx));
        assert_eq!(u24.next_sibling_index(idx), u16.next_sibling_index(idx));
        assert_eq!(u24.first_child_index(idx), u16.first_child_index(idx));
        assert_eq!(u24.last_child_index(idx), u16.last_child_index(idx));
    }
    // u16 records are smaller
    assert!(u16.byte_len() < u24.byte_len());
    assert_eq!(p.as_u32(), 3);
}

#[test]
fn node_records_are_fifteen_and_twenty_bytes() {
    let mut u24 = Nodes::new();
    let body = u24.add_as_last_child(NodeIndex::root(), HtmlTag::body);
    u24.add_as_last_child(body, HtmlTag::p);
    assert_eq!(u24.byte_len(), 20 * u24.len());
    let u16 = u24.into_optimal_width();
    assert_eq!(u16.width(), WIDTH_U16);
    assert_eq!(u16.byte_len(), 15 * u16.len());
}
