use htmlarc_dom::dom::NodeIndex;
use htmlarc_dom::queue_iter::{ElementStage, QueueIter, TagStage};

fn es(index: u32, depth: u16, stage: TagStage) -> ElementStage {
    ElementStage::new(NodeIndex::new(index), depth, stage)
}

fn collect(mut iter: QueueIter) -> Vec<(ElementStage, bool)> {
    let mut out = Vec::new();
    while let Some(item) = iter.next() {
        out.push(item);
    }
    out
}

#[test]
fn queue_iter_from_last_elem() {
    let vec = vec![
        es(0, 0, TagStage::Open),
        es(1, 1, TagStage::Open),
        es(1, 1, TagStage::Close),
        es(0, 0, TagStage::Close),
    ];

    let iter = QueueIter::new(vec, None);
    assert_eq!(iter.inlineable(), 0..4);
    let returned = collect(iter);

    assert_eq!(
        returned,
        vec![
            (es(0, 0, TagStage::Open), true),
            (es(1, 1, TagStage::Open), true),
            (es(1, 1, TagStage::Close), true),
            (es(0, 0, TagStage::Close), true),
        ]
    );
}

#[test]
fn non_inlineable_on_last_child_level() {
    let vec = vec![
        es(0, 0, TagStage::Open),
        es(1, 1, TagStage::Open),
        es(1, 1, TagStage::Close),
    ];

    let last = es(2, 1, TagStage::Open);
    let iter = QueueIter::new(vec, Some(last));
    assert_eq!(iter.inlineable(), 1..3);
    let returned = collect(iter);

    assert_eq!(
        returned,
        vec![
            (es(0, 0, TagStage::Open), false),
            (es(1, 1, TagStage::Open), true),
            (es(1, 1, TagStage::Close), true),
            (es(2, 1, TagStage::Open), false),
        ]
    );
}

#[test]
fn non_inlineable_as_top_level_sibling() {
    let vec = vec![
        es(0, 0, TagStage::Open),
        es(1, 1, TagStage::Open),
        es(1, 1, TagStage::Close),
        es(0, 0, TagStage::Close),
        es(2, 0, TagStage::Open),
        es(2, 0, TagStage::Close),
    ];

    let last = es(3, 0, TagStage::Open);
    let iter = QueueIter::new(vec, Some(last));
    assert_eq!(iter.inlineable(), 0..6);
    let returned = collect(iter);

    assert_eq!(
        returned,
        vec![
            (es(0, 0, TagStage::Open), true),
            (es(1, 1, TagStage::Open), true),
            (es(1, 1, TagStage::Close), true),
            (es(0, 0, TagStage::Close), true),
            (es(2, 0, TagStage::Open), true),
            (es(2, 0, TagStage::Close), true),
            (es(3, 0, TagStage::Open), false),
        ]
    );
}

#[test]
fn none_inlineable() {
    let vec = vec![
        es(0, 0, TagStage::Open),
        es(1, 1, TagStage::Open),
        es(2, 2, TagStage::Open),
    ];

    let non_inlineable = es(3, 3, TagStage::Open);

    let iter = QueueIter::new(vec, Some(non_inlineable));
    assert_eq!(iter.inlineable(), 0..0);
    let returned = collect(iter);

    assert_eq!(
        returned,
        vec![
            (es(0, 0, TagStage::Open), false),
            (es(1, 1, TagStage::Open), false),
            (es(2, 2, TagStage::Open), false),
            (es(3, 3, TagStage::Open), false),
        ]
    );
}

#[test]
fn none_inlineable_2() {
    let vec = vec![
        es(0, 0, TagStage::Open),
        es(1, 1, TagStage::Open),
        es(2, 2, TagStage::Open),
        es(3, 3, TagStage::Open),
        es(3, 3, TagStage::Close),
        es(2, 2, TagStage::Close),
        es(4, 2, TagStage::Open),
    ];

    let non_inlineable = es(5, 3, TagStage::Open);

    let iter = QueueIter::new(vec, Some(non_inlineable));
    let returned = collect(iter)
        .into_iter()
        .map(|(stage, inline)| (stage.index.0, stage.depth, stage.stage, inline))
        .collect::<Vec<_>>();

    assert_eq!(
        returned,
        vec![
            (0, 0, TagStage::Open, false),
            (1, 1, TagStage::Open, false),
            (2, 2, TagStage::Open, true),
            (3, 3, TagStage::Open, true),
            (3, 3, TagStage::Close, true),
            (2, 2, TagStage::Close, true),
            (4, 2, TagStage::Open, false),
            (5, 3, TagStage::Open, false),
        ]
    );
}

#[test]
fn first_child_not_inlineable() {
    let vec = vec![es(0, 0, TagStage::Open)];

    let last = es(1, 1, TagStage::Open);
    let iter = QueueIter::new(vec, Some(last));
    assert_eq!(iter.inlineable(), 0..0);
    let returned = collect(iter);

    assert_eq!(
        returned,
        vec![
            (es(0, 0, TagStage::Open), false),
            (es(1, 1, TagStage::Open), false),
        ]
    );
}
