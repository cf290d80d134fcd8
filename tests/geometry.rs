use cosmic_yudh::geometry::{detect_collison, Rect};

fn rect(x: i32, y: i32, width: u32, height: u32) -> Rect {
    Rect { x, y, width, height }
}

#[test]
fn overlapping_rectangles_collide() {
    assert!(detect_collison(rect(0, 0, 10, 10), rect(5, 5, 10, 10)));
    assert!(detect_collison(rect(5, 5, 1, 1), rect(0, 0, 10, 10)));
}

#[test]
fn collision_is_symmetric() {
    let pairs = [
        (rect(0, 0, 10, 10), rect(5, 5, 10, 10)),
        (rect(0, 0, 10, 10), rect(10, 0, 10, 10)),
        (rect(-4, 3, 2, 9), rect(-3, 11, 7, 1)),
        (rect(0, 0, 0, 10), rect(0, 0, 10, 10)),
    ];
    for (a, b) in pairs {
        assert_eq!(detect_collison(a, b), detect_collison(b, a));
    }
}

#[test]
fn touching_edges_do_not_collide() {
    assert!(!detect_collison(rect(0, 0, 10, 10), rect(10, 0, 10, 10)));
    assert!(!detect_collison(rect(0, 0, 10, 10), rect(0, 10, 10, 10)));
    assert!(!detect_collison(rect(0, 0, 10, 10), rect(10, 10, 3, 3)));
}

#[test]
fn disjoint_or_empty_rectangles_do_not_collide() {
    assert!(!detect_collison(rect(0, 0, 4, 4), rect(20, 20, 4, 4)));
    assert!(!detect_collison(rect(2, 2, 0, 5), rect(0, 0, 10, 10)));
    assert!(!detect_collison(rect(0, 0, 10, 10), rect(3, 3, 5, 0)));
}

#[test]
fn supported_screen_sizes() {
    assert!(cosmic_yudh::geometry::screen_supported(128, 64));
    assert!(cosmic_yudh::geometry::screen_supported(0, 26));
    assert!(!cosmic_yudh::geometry::screen_supported(128, 25));
    assert!(!cosmic_yudh::geometry::screen_supported(-1, 64));
    assert!(!cosmic_yudh::geometry::screen_supported(32769, 64));
}
