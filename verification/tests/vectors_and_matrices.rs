use racing_physics::fixed::{Fixed, HALF_PI, SCALE};
use racing_physics::matrices::{Matrix4, ModelMatrix};
use racing_physics::vector::{Vector2, Vector3, Vector4};

#[test]
fn vectors_add_and_scale_by_coordinate() {
    let a = Vector3::new(Fixed::from_int(1), Fixed::from_int(-2), Fixed::from_int(3));
    let b = Vector3::new(Fixed::from_int(10), Fixed::from_int(20), Fixed::from_int(30));
    assert_eq!(a.plus(b), Vector3::new(Fixed::from_int(11), Fixed::from_int(18), Fixed::from_int(33)));
    assert_eq!(b.minus(a), Vector3::new(Fixed::from_int(9), Fixed::from_int(22), Fixed::from_int(27)));
    assert_eq!(a.neg(), Vector3::new(Fixed::from_int(-1), Fixed::from_int(2), Fixed::from_int(-3)));
    assert_eq!(a.scaled(Fixed::from_raw(500_000_000)).x.raw, 500_000_000);
    assert_eq!(b.over(Fixed::from_int(4)).y.raw, 5_000_000_000);
    assert_eq!(a.xz(), Vector2::new(Fixed::from_int(1), Fixed::from_int(3)));
    assert_eq!(Vector3::zeros(), Vector3::new(Fixed::zero(), Fixed::zero(), Fixed::zero()));
    let p = Vector2::new(Fixed::from_int(3), Fixed::from_int(4));
    let q = Vector2::new(Fixed::from_int(-1), Fixed::from_int(2));
    assert_eq!(p.plus(q), Vector2::new(Fixed::from_int(2), Fixed::from_int(6)));
    assert_eq!(p.minus(q), Vector2::new(Fixed::from_int(4), Fixed::from_int(2)));
    assert_eq!(p.scaled(Fixed::from_int(2)), Vector2::new(Fixed::from_int(6), Fixed::from_int(8)));
    assert_eq!(p.over(Fixed::from_int(2)).x.raw, 1_500_000_000);
    assert_eq!(p.dot(q).raw, 5 * SCALE);
}

#[test]
fn length_of_a_vector() {
    let a = Vector3::new(Fixed::from_int(3), Fixed::from_int(0), Fixed::from_int(-4));
    assert_eq!(a.norm().raw, 5 * SCALE);
    assert_eq!(Vector3::zeros().norm().raw, 0);
    let b = Vector3::new(Fixed::from_int(1), Fixed::from_int(1), Fixed::from_int(1));
    assert_eq!(b.norm().raw, 1_732_050_807);
}

#[test]
fn homogeneous_vectors() {
    let a = Vector4::new(Fixed::from_int(1), Fixed::from_int(2), Fixed::from_int(3), Fixed::from_int(1));
    let b = Vector4::new(Fixed::from_int(4), Fixed::from_int(-5), Fixed::from_int(6), Fixed::from_int(7));
    assert_eq!(a.dot(b).raw, 19 * SCALE);
    assert_eq!(a.xyz(), Vector3::new(Fixed::from_int(1), Fixed::from_int(2), Fixed::from_int(3)));
}

#[test]
fn identity_changes_no_matrix() {
    let m = Matrix4 {
        r0: Vector4::new(Fixed::from_raw(1461363302), Fixed::from_raw(113013160), Fixed::from_raw(1932653064), Fixed::from_raw(1000000000)),
        r1: Vector4::new(Fixed::from_raw(-465203788), Fixed::from_raw(484785003), Fixed::from_raw(-229070424), Fixed::from_raw(2000000000)),
        r2: Vector4::new(Fixed::from_raw(-1283745592), Fixed::from_raw(-47026867), Fixed::from_raw(2283063489), Fixed::from_raw(3000000000)),
        r3: Vector4::new(Fixed::from_raw(0), Fixed::from_raw(0), Fixed::from_raw(0), Fixed::from_raw(1000000000)),
    };
    assert_eq!(m.times(Matrix4::identity()), m);
    assert_eq!(Matrix4::identity().times(m), m);
}

#[test]
fn translation_moves_and_scaling_stretches() {
    let p = Vector4::new(Fixed::from_int(1), Fixed::from_int(2), Fixed::from_int(3), Fixed::from_int(1));
    let moved = Matrix4::translation(Fixed::from_int(10), Fixed::from_int(20), Fixed::from_int(30)).apply(p);
    assert_eq!(moved.xyz(), Vector3::new(Fixed::from_int(11), Fixed::from_int(22), Fixed::from_int(33)));
    let stretched = Matrix4::scaling(Fixed::from_int(2), Fixed::from_int(3), Fixed::from_int(4)).apply(p);
    assert_eq!(stretched.xyz(), Vector3::new(Fixed::from_int(2), Fixed::from_int(6), Fixed::from_int(12)));
    assert_eq!(stretched.w.raw, SCALE);
}

#[test]
fn quarter_turns_about_the_axes() {
    let x = Vector4::new(Fixed::from_int(1), Fixed::from_int(0), Fixed::from_int(0), Fixed::from_int(1));
    let y = Vector4::new(Fixed::from_int(0), Fixed::from_int(1), Fixed::from_int(0), Fixed::from_int(1));
    let q = Fixed::from_raw(HALF_PI);
    assert_eq!(Matrix4::rotation_y(q).apply(x).xyz(), Vector3::new(Fixed::from_int(0), Fixed::from_int(0), Fixed::from_int(-1)));
    assert_eq!(Matrix4::rotation_z(q).apply(x).xyz(), Vector3::new(Fixed::from_int(0), Fixed::from_int(1), Fixed::from_int(0)));
    assert_eq!(Matrix4::rotation_x(q).apply(y).xyz(), Vector3::new(Fixed::from_int(0), Fixed::from_int(0), Fixed::from_int(1)));
    assert_eq!(Matrix4::rotation_x(Fixed::zero()), Matrix4::identity());
    assert_eq!(Matrix4::rotation_y(Fixed::zero()), Matrix4::identity());
    assert_eq!(Matrix4::rotation_z(Fixed::zero()), Matrix4::identity());
}

#[test]
fn product_of_transforms() {
    let mut stack = ModelMatrix::new();
    stack.add_translate(Fixed::from_int(1), Fixed::from_int(2), Fixed::from_int(3));
    stack.add_rotation(Fixed::from_raw(100_000_000), Fixed::from_raw(700_000_000), Fixed::from_raw(-300_000_000));
    stack.add_scale(Fixed::from_int(2), Fixed::from_raw(500_000_000), Fixed::from_int(3));
    let want = Matrix4 {
        r0: Vector4::new(Fixed::from_raw(1461363302), Fixed::from_raw(113013160), Fixed::from_raw(1932653064), Fixed::from_raw(1000000000)),
        r1: Vector4::new(Fixed::from_raw(-465203788), Fixed::from_raw(484785003), Fixed::from_raw(-229070424), Fixed::from_raw(2000000000)),
        r2: Vector4::new(Fixed::from_raw(-1283745592), Fixed::from_raw(-47026867), Fixed::from_raw(2283063489), Fixed::from_raw(3000000000)),
        r3: Vector4::new(Fixed::from_raw(0), Fixed::from_raw(0), Fixed::from_raw(0), Fixed::from_raw(1000000000)),
    };
    assert_eq!(stack.matrix, want);
    let p = Vector4::new(Fixed::from_int(1), Fixed::from_int(2), Fixed::from_int(3), Fixed::from_int(1));
    assert_eq!(stack.matrix.apply(p), Vector4::new(Fixed::from_raw(8485348814), Fixed::from_raw(1817154946), Fixed::from_raw(8471391141), Fixed::from_raw(1000000000)));
}

#[test]
fn saved_transform_comes_back() {
    let mut stack = ModelMatrix::new();
    stack.add_translate(Fixed::from_int(1), Fixed::from_int(2), Fixed::from_int(3));
    let first = stack.matrix;
    stack.push_stack();
    stack.add_scale(Fixed::from_int(2), Fixed::from_int(2), Fixed::from_int(2));
    let second = stack.matrix;
    assert_ne!(first, second);
    stack.push_stack();
    stack.load_identity();
    assert_eq!(stack.matrix, Matrix4::identity());
    assert_eq!(stack.stack.len(), 2);
    stack.pop_stack();
    assert_eq!(stack.matrix, second);
    stack.pop_stack();
    assert_eq!(stack.matrix, first);
    assert_eq!(stack.stack.len(), 0);
}

#[test]
fn pop_with_nothing_saved_changes_nothing() {
    let mut stack = ModelMatrix::new();
    stack.add_translate(Fixed::from_int(1), Fixed::from_int(2), Fixed::from_int(3));
    let before = stack.matrix;
    stack.pop_stack();
    assert_eq!(stack.matrix, before);
    assert_eq!(stack.stack.len(), 0);
    stack.add_nothing();
    assert_eq!(stack.matrix, before);
    stack.add_transformation(&Matrix4::translation(Fixed::from_int(-1), Fixed::from_int(-2), Fixed::from_int(-3)));
    assert_eq!(stack.matrix, Matrix4::identity());
}
