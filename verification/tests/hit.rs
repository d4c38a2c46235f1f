use tdraw::geometry::Rect;
use tdraw::hit::resolve_hit;

fn rect_at(x: i64, y: i64, z: u64, width: i64, height: i64) -> Rect {
    Rect { x, y, z, width, height }
}

#[test]
fn no_rectangles_no_hit() {
    assert_eq!(resolve_hit(&Vec::new(), 0, 0), None);
}

#[test]
fn miss_gives_none() {
    let rects = vec![rect_at(0, 0, 0, 4, 4), rect_at(10, 10, 1, 4, 4)];
    assert_eq!(resolve_hit(&rects, 7, 7), None);
}

#[test]
fn single_hit() {
    let rects = vec![rect_at(0, 0, 0, 4, 4), rect_at(10, 10, 1, 4, 4)];
    assert_eq!(resolve_hit(&rects, 1, 1), Some(0));
    assert_eq!(resolve_hit(&rects, 14, 14), Some(1));
}

#[test]
fn overlapping_z0_and_z1_resolves_to_z1() {
    let rects = vec![rect_at(0, 0, 0, 10, 10), rect_at(5, 5, 1, 10, 10)];
    assert_eq!(resolve_hit(&rects, 7, 7), Some(1));
}

#[test]
fn greater_z_wins_wherever_it_stands() {
    let rects = vec![rect_at(5, 5, 1, 10, 10), rect_at(0, 0, 0, 10, 10)];
    assert_eq!(resolve_hit(&rects, 7, 7), Some(0));
    let three = vec![
        rect_at(0, 0, 3, 10, 10),
        rect_at(0, 0, 9, 10, 10),
        rect_at(0, 0, 5, 10, 10),
    ];
    assert_eq!(resolve_hit(&three, 2, 2), Some(1));
}

#[test]
fn equal_z_prefers_the_later_index() {
    let rects = vec![
        rect_at(0, 0, 4, 10, 10),
        rect_at(0, 0, 4, 10, 10),
        rect_at(0, 0, 4, 10, 10),
        rect_at(50, 50, 4, 1, 1),
    ];
    assert_eq!(resolve_hit(&rects, 3, 3), Some(2));
}

#[test]
fn only_containing_rectangles_compete() {
    let rects = vec![rect_at(0, 0, 0, 10, 10), rect_at(20, 20, 99, 5, 5)];
    assert_eq!(resolve_hit(&rects, 3, 3), Some(0));
}

#[test]
fn degenerate_rectangle_can_be_hit() {
    let rects = vec![rect_at(0, 0, 0, 10, 10), rect_at(2, 5, 1, 6, 0)];
    assert_eq!(resolve_hit(&rects, 4, 5), Some(1));
    assert_eq!(resolve_hit(&rects, 4, 6), Some(0));
}
