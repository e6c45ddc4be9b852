use asus_numpad::layout::{KeyRegion, MultiKey, NumpadLayout, Rect};

fn rect(min_x: i32, max_x: i32, min_y: i32, max_y: i32) -> Rect {
    Rect { min_x, max_x, min_y, max_y }
}

fn sample_layout() -> NumpadLayout {
    NumpadLayout::new(
        rect(900, 1000, 0, 100),
        vec![
            KeyRegion { area: rect(0, 200, 200, 400), key: 71 },
            KeyRegion { area: rect(150, 500, 200, 400), key: 6 },
            KeyRegion { area: rect(0, 200, 401, 600), key: 75 },
        ],
        vec![
            MultiKey { key: 6, codes: vec![42, 6] },
            MultiKey { key: 6, codes: vec![54, 6, 7] },
        ],
    )
    .unwrap()
}

#[test]
fn rect_holds_its_edges() {
    let r = rect(10, 20, 30, 40);
    assert!(r.contains(10, 30));
    assert!(r.contains(20, 40));
    assert!(r.contains(15, 35));
    assert!(!r.contains(9, 35));
    assert!(!r.contains(21, 35));
    assert!(!r.contains(15, 29));
    assert!(!r.contains(15, 41));
}

#[test]
fn empty_rect_holds_nothing() {
    let r = rect(20, 10, 0, 100);
    assert!(!r.contains(15, 50));
    assert!(!r.contains(10, 50));
    assert!(!r.contains(20, 50));
}

#[test]
fn key_at_a_point() {
    let l = sample_layout();
    assert_eq!(l.get_key(100, 300), Some(71));
    assert_eq!(l.get_key(300, 300), Some(6));
    assert_eq!(l.get_key(100, 500), Some(75));
    assert_eq!(l.get_key(600, 300), None);
    assert_eq!(l.get_key(950, 50), None);
    assert_eq!(l.get_key(100, 100), None);
}

#[test]
fn earlier_region_wins_where_two_overlap() {
    let l = sample_layout();
    assert_eq!(l.get_key(150, 300), Some(71));
    assert_eq!(l.get_key(200, 300), Some(71));
    assert_eq!(l.get_key(201, 300), Some(6));
}

#[test]
fn switching_region_membership() {
    let l = sample_layout();
    assert!(l.in_numpad_bbox(900, 0));
    assert!(l.in_numpad_bbox(1000, 100));
    assert!(l.in_numpad_bbox(950, 50));
    assert!(!l.in_numpad_bbox(899, 50));
    assert!(!l.in_numpad_bbox(950, 101));
    assert!(!l.in_numpad_bbox(0, 0));
}

#[test]
fn composite_keys_and_their_codes() {
    let l = sample_layout();
    assert!(l.needs_multikey(6));
    assert!(!l.needs_multikey(71));
    assert!(!l.needs_multikey(42));
    assert_eq!(l.multikeys(6), vec![42, 6]);
    assert_eq!(l.multikeys(71), vec![71]);
}

#[test]
fn layout_without_keys() {
    let l = NumpadLayout::new(rect(0, 10, 0, 10), vec![], vec![]).unwrap();
    assert_eq!(l.get_key(5, 5), None);
    assert!(!l.needs_multikey(0));
    assert_eq!(l.multikeys(9), vec![9]);
}

#[test]
fn layout_rejects_a_composite_key_of_fewer_than_two_codes() {
    let one = NumpadLayout::new(
        rect(0, 10, 0, 10),
        vec![],
        vec![MultiKey { key: 6, codes: vec![42, 6] }, MultiKey { key: 7, codes: vec![7] }],
    );
    assert_eq!(one, None);
    let none =
        NumpadLayout::new(rect(0, 10, 0, 10), vec![], vec![MultiKey { key: 6, codes: vec![] }]);
    assert_eq!(none, None);
}

#[test]
fn layout_keeps_what_it_was_built_from() {
    let l = sample_layout();
    assert_eq!(l.numpad_bbox, rect(900, 1000, 0, 100));
    assert_eq!(l.keys.len(), 3);
    assert_eq!(l.multi.len(), 2);
    assert_eq!(l.multi[1].codes, vec![54, 6, 7]);
}
