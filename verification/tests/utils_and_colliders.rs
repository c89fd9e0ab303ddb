use racing_physics::collider::{Collider, PrimitiveCollider};
use racing_physics::fixed::Fixed;
use racing_physics::utils::{limit, line_contains_point, FacingDirection};
use racing_physics::vector::{Vector2, Vector3};

#[test]
fn limit_holds_a_value_within_its_bounds() {
    let lo = Fixed::from_int(-2);
    let hi = Fixed::from_int(2);
    assert_eq!(limit(Fixed::from_int(5), lo, hi), hi);
    assert_eq!(limit(Fixed::from_int(-5), lo, hi), lo);
    assert_eq!(limit(Fixed::from_raw(1_250_000_000), lo, hi).raw, 1_250_000_000);
    assert_eq!(limit(hi, lo, hi), hi);
    assert_eq!(limit(lo, lo, hi), lo);
}

#[test]
fn limit_with_crossed_bounds_ends_at_the_lower_one() {
    let from = Fixed::from_int(3);
    let to = Fixed::from_int(1);
    assert_eq!(limit(Fixed::from_int(0), from, to), from);
    assert_eq!(limit(Fixed::from_int(2), from, to), from);
    assert_eq!(limit(Fixed::from_int(9), from, to), from);
}

#[test]
fn point_within_a_segment_that_runs_up() {
    let start = Vector2::new(Fixed::from_int(0), Fixed::from_int(0));
    let end = Vector2::new(Fixed::from_int(4), Fixed::from_int(2));
    assert!(line_contains_point(&start, &end, &Vector2::new(Fixed::from_int(2), Fixed::from_int(1))));
    assert!(line_contains_point(&start, &end, &start));
    assert!(line_contains_point(&start, &end, &end));
    assert!(!line_contains_point(&start, &end, &Vector2::new(Fixed::from_int(5), Fixed::from_int(1))));
    assert!(!line_contains_point(&start, &end, &Vector2::new(Fixed::from_int(2), Fixed::from_int(3))));
    assert!(!line_contains_point(&start, &end, &Vector2::new(Fixed::from_raw(-1), Fixed::from_int(1))));
}

#[test]
fn point_within_a_segment_that_runs_down() {
    let start = Vector2::new(Fixed::from_int(4), Fixed::from_int(2));
    let end = Vector2::new(Fixed::from_int(0), Fixed::from_int(-2));
    assert!(line_contains_point(&start, &end, &Vector2::new(Fixed::from_int(2), Fixed::from_int(0))));
    assert!(line_contains_point(&start, &end, &start));
    assert!(line_contains_point(&start, &end, &end));
    assert!(!line_contains_point(&start, &end, &Vector2::new(Fixed::from_int(2), Fixed::from_int(3))));
    assert!(!line_contains_point(&start, &end, &Vector2::new(Fixed::from_int(-1), Fixed::from_int(0))));
}

#[test]
fn point_within_a_segment_along_an_axis() {
    let start = Vector2::new(Fixed::from_int(1), Fixed::from_int(5));
    let end = Vector2::new(Fixed::from_int(1), Fixed::from_int(-5));
    assert!(line_contains_point(&start, &end, &Vector2::new(Fixed::from_int(1), Fixed::from_int(0))));
    assert!(!line_contains_point(&start, &end, &Vector2::new(Fixed::from_raw(1_000_000_001), Fixed::from_int(0))));
}

#[test]
fn directions_are_told_apart() {
    assert_ne!(FacingDirection::North, FacingDirection::West);
    assert_eq!(FacingDirection::North.clone(), FacingDirection::North);
}

#[test]
fn flatten_of_a_primitive_is_itself() {
    let h = Collider::HeightCollider(Fixed::from_int(5));
    assert_eq!(h.flatten(), vec![PrimitiveCollider::HeightCollider(Fixed::from_int(5))]);
    let b = Collider::BoxCollider(
        Fixed::from_int(1),
        Fixed::from_int(2),
        Fixed::from_int(3),
        Fixed::from_int(4),
        Fixed::from_int(5),
        Fixed::from_int(6),
    );
    assert_eq!(
        b.flatten(),
        vec![PrimitiveCollider::BoxCollider(
            Fixed::from_int(1),
            Fixed::from_int(2),
            Fixed::from_int(3),
            Fixed::from_int(4),
            Fixed::from_int(5),
            Fixed::from_int(6),
        )]
    );
    let p0 = Vector3::new(Fixed::from_int(1), Fixed::from_int(0), Fixed::from_int(2));
    let p1 = Vector3::new(Fixed::from_int(3), Fixed::from_int(0), Fixed::from_int(4));
    let w = Collider::InfiniteYPlaneCollider(p0, p1);
    assert_eq!(w.flatten(), vec![PrimitiveCollider::InfiniteYPlaneCollider(p0, p1)]);
}

#[test]
fn flatten_drops_no_collision() {
    assert_eq!(Collider::NoCollision.flatten(), vec![]);
    let list = Collider::MultiCollider(vec![
        Collider::NoCollision,
        Collider::HeightCollider(Fixed::from_int(5)),
        Collider::NoCollision,
    ]);
    assert_eq!(list.flatten(), vec![PrimitiveCollider::HeightCollider(Fixed::from_int(5))]);
    assert_eq!(Collider::MultiCollider(vec![]).flatten(), vec![]);
}

#[test]
fn flatten_goes_depth_first_in_list_order() {
    let h = |n: i32| Collider::HeightCollider(Fixed::from_int(n));
    let tree = Collider::MultiCollider(vec![
        h(1),
        Collider::MultiCollider(vec![
            h(2),
            Collider::MultiCollider(vec![h(3), Collider::NoCollision, h(4)]),
            Collider::MultiCollider(vec![]),
            h(5),
        ]),
        Collider::NoCollision,
        h(6),
    ]);
    let want: Vec<PrimitiveCollider> =
        (1..=6).map(|n| PrimitiveCollider::HeightCollider(Fixed::from_int(n))).collect();
    assert_eq!(tree.flatten(), want);
}

#[test]
fn clone_keeps_the_whole_tree() {
    let tree = Collider::MultiCollider(vec![
        Collider::HeightCollider(Fixed::from_int(1)),
        Collider::MultiCollider(vec![
            Collider::NoCollision,
            Collider::BoxCollider(
                Fixed::from_int(1),
                Fixed::from_int(2),
                Fixed::from_int(3),
                Fixed::from_int(4),
                Fixed::from_int(5),
                Fixed::from_int(6),
            ),
        ]),
    ]);
    let copy = tree.clone();
    assert_eq!(format!("{:?}", copy), format!("{:?}", tree));
    assert_eq!(copy.flatten(), tree.flatten());
    let list = vec![Collider::NoCollision, Collider::HeightCollider(Fixed::from_int(2))];
    let copies = Collider::clone_list(&list);
    assert_eq!(format!("{:?}", copies), format!("{:?}", list));
}
