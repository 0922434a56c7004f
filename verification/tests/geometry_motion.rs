use arcade_core::geometry::Position;
use arcade_core::geometry::Rect;
use arcade_core::motion;

#[test]
fn overlap_symmetry_concrete() {
    let a = Rect::new(0, 0, 10, 10);
    let b = Rect::new(5, 5, 10, 10);
    assert_eq!(a.overlaps(&b), b.overlaps(&a));
    let c = Rect::new(100, 100, 3, 3);
    assert_eq!(a.overlaps(&c), c.overlaps(&a));
    assert!(!a.overlaps(&c));
}

#[test]
fn overlap_reflexivity_concrete() {
    let a = Rect::new(-7, 3, 0, 0);
    assert!(a.overlaps(&a));
    let b = Rect::new(2, 2, 50, 20);
    assert!(b.overlaps(&b));
}

#[test]
fn overlap_touching_edges() {
    let a = Rect::new(0, 0, 10, 10);
    let b = Rect::new(10, 0, 10, 10);
    assert!(a.overlaps(&b));
    let c = Rect::new(11, 0, 10, 10);
    assert!(!a.overlaps(&c));
}

#[test]
fn bullet_target_overlap() {
    // A size-9 bullet at (10, 10) against a target spanning (5,5)-(20,20).
    let bullet = Rect::new(10, 10, 9, 9);
    let target = Rect::new(5, 5, 15, 15);
    assert!(bullet.overlaps(&target));
    assert!(target.overlaps(&bullet));
}

#[test]
fn point_containment() {
    let r = Rect::new(5, 5, 15, 15);
    assert!(r.contains(&Position::new(5, 5)));
    assert!(r.contains(&Position::new(20, 20)));
    assert!(r.contains(&Position::new(14, 14)));
    assert!(!r.contains(&Position::new(21, 14)));
    assert!(!r.contains(&Position::new(14, 4)));
}

#[test]
fn rect_vertices_order() {
    let r = Rect::new(2, 3, 10, 20);
    let vs = r.vertices();
    assert_eq!(vs.len(), 4);
    assert_eq!((vs[0].x, vs[0].y), (12, 3));
    assert_eq!((vs[1].x, vs[1].y), (2, 3));
    assert_eq!((vs[2].x, vs[2].y), (2, 23));
    assert_eq!((vs[3].x, vs[3].y), (12, 23));
}

#[test]
fn position_add_saturates() {
    let mut p = Position::new(i32::MAX - 1, 0);
    p.add(5, -3);
    assert_eq!(p.x, i32::MAX);
    assert_eq!(p.y, -3);
}

#[test]
fn step_coord_exact_and_saturated() {
    assert_eq!(motion::step_coord(10, 1, 5), 15);
    assert_eq!(motion::step_coord(10, -1, 5), 5);
    assert_eq!(motion::step_coord(10, 0, 5), 10);
    assert_eq!(motion::step_coord(i32::MAX, 1, 1), i32::MAX);
    assert_eq!(motion::step_coord(i32::MIN, -1, 1), i32::MIN);
}

#[test]
fn wrap_coord_stays_in_bounds() {
    // Wrap invariant: after any single step the coordinate is in [0, bound).
    assert_eq!(motion::wrap_coord(99, 1, 100), 0);
    assert_eq!(motion::wrap_coord(0, -1, 100), 99);
    assert_eq!(motion::wrap_coord(50, 1, 100), 51);
    assert_eq!(motion::wrap_coord(50, -1, 100), 49);
    assert_eq!(motion::wrap_coord(50, 0, 100), 50);
    for pos in 0..100 {
        for dir in [-1, 0, 1] {
            let r = motion::wrap_coord(pos, dir, 100);
            assert!(0 <= r && r < 100);
        }
    }
}

#[test]
fn clamp_coord_caps() {
    assert_eq!(motion::clamp_coord(-5, 0, 90), 0);
    assert_eq!(motion::clamp_coord(95, 0, 90), 90);
    assert_eq!(motion::clamp_coord(42, 0, 90), 42);
}

#[test]
fn boundary_reflection() {
    // An object at x = 0 moving with x-direction -1 and speed 1: the
    // direction flips to +1 and the position does not go negative.
    let (pos, dir) = motion::reflect_step(0, -1, 1, 0, 100);
    assert_eq!(dir, 1);
    assert_eq!(pos, 0);
    assert!(pos >= 0);
}

#[test]
fn reflection_interior_and_far_edge() {
    let (pos, dir) = motion::reflect_step(50, 1, 5, 0, 100);
    assert_eq!((pos, dir), (55, 1));
    let (pos, dir) = motion::reflect_step(97, 1, 5, 0, 100);
    assert_eq!((pos, dir), (97, -1));
}

#[test]
fn scroll_loops() {
    assert_eq!(motion::scroll_backward(0, 100, 5), -5);
    assert_eq!(motion::scroll_backward(-100, 100, 5), 0);
    assert_eq!(motion::scroll_forward(0, 100, 5), 5);
    assert_eq!(motion::scroll_forward(100, 100, 5), 0);
}

#[test]
fn stomp_test_finds_first_enemy() {
    let rects = vec![
        Rect::new(0, 0, 10, 10),
        Rect::new(50, 50, 20, 20),
        Rect::new(55, 55, 20, 20),
    ];
    let p = Position::new(60, 60);
    assert_eq!(arcade_core::geometry::first_containing(&rects, &p), Some(1));
    let outside = Position::new(200, 200);
    assert_eq!(arcade_core::geometry::first_containing(&rects, &outside), None);
}
