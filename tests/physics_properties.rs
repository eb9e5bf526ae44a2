use astroforge::fixed::{from_int, from_ratio, fx_abs, fx_add, fx_div, fx_half, fx_mul, fx_sub};
use astroforge::physics::{
    apply_gravity, integrate, resolve_aabb_collisions, resolve_pair, step, Aabb, Collider,
    PhysicsObject, RigidBody, GRAVITY,
};
use astroforge::vec3::{Axis, Vec3};

fn cube(h: i64) -> Collider {
    Collider { half_extents: Vec3::splat(h) }
}

fn floor() -> Aabb {
    Aabb { center: Vec3::new(0, -500_000, 0), half_extents: Vec3::new(50_000_000, 500_000, 50_000_000) }
}

#[test]
fn fixed_point_formulas() {
    assert_eq!(from_int(80), 80_000_000);
    assert_eq!(from_ratio(3, 4), 750_000);
    assert_eq!(from_ratio(-1, 2), -500_000);
    assert_eq!(from_ratio(1, 60), 16_666);
    assert_eq!(fx_mul(2_000_000, 1_500_000), 3_000_000);
    assert_eq!(fx_mul(-3, 500_000), -1);
    assert_eq!(fx_div(-10, 3_000_000), -3);
    assert_eq!(fx_div(1_000_000, 4_000_000), 250_000);
    assert_eq!(fx_half(-5), -2);
    assert_eq!(fx_add(3, -5), -2);
    assert_eq!(fx_sub(3, -5), 8);
    assert_eq!(fx_abs(-7), 7);
}

#[test]
fn fixed_point_saturates() {
    assert_eq!(fx_add(i64::MAX, 1), i64::MAX);
    assert_eq!(fx_sub(i64::MIN, 1), i64::MIN);
    assert_eq!(fx_abs(i64::MIN), i64::MAX);
    assert_eq!(fx_mul(i64::MAX, 2_000_000), i64::MAX);
    assert_eq!(fx_div(i64::MIN, 1), i64::MIN);
    assert_eq!(from_int(i64::MAX), i64::MAX);
}

#[test]
fn vector_components_by_axis() {
    let mut v = Vec3::new(1, 2, 3);
    assert_eq!(v.get(Axis::X), 1);
    assert_eq!(v.get(Axis::Y), 2);
    assert_eq!(v.get(Axis::Z), 3);
    v.set(Axis::Y, 9);
    assert_eq!(v, Vec3::new(1, 9, 3));
    assert_eq!(Vec3::new(1, -2, 3).abs(), Vec3::new(1, 2, 3));
    assert_eq!(Vec3::new(1, 2, 3).plus(&Vec3::splat(1)), Vec3::new(2, 3, 4));
    assert_eq!(Vec3::new(1, 2, 3).minus(&Vec3::splat(1)), Vec3::new(0, 1, 2));
    assert_eq!(Vec3::splat(2_000_000).scaled(500_000), Vec3::splat(1_000_000));
    assert_eq!(Vec3::splat(3_000_000).divided(2_000_000), Vec3::splat(1_500_000));
}

#[test]
fn new_body_is_at_rest() {
    let b = RigidBody::new(from_int(80), Vec3::new(1, 2, 3));
    assert_eq!(b.position, Vec3::new(1, 2, 3));
    assert_eq!(b.velocity, Vec3::zero());
    assert_eq!(b.force, Vec3::zero());
    assert_eq!(b.mass, 80_000_000);
    assert!(!b.on_ground);
}

#[test]
fn forces_accumulate() {
    let mut b = RigidBody::new(from_int(1), Vec3::zero());
    b.apply_force(Vec3::new(1_000_000, 0, -2));
    b.apply_force(Vec3::new(500_000, 3, -2));
    assert_eq!(b.force, Vec3::new(1_500_000, 3, -4));
    assert_eq!(b.velocity, Vec3::zero());
}

#[test]
fn impulse_changes_velocity_by_impulse_over_mass() {
    let mut b = RigidBody::new(from_int(80), Vec3::zero());
    b.apply_impulse(Vec3::new(0, from_int(500), 0));
    assert_eq!(b.velocity, Vec3::new(0, 6_250_000, 0));
    assert_eq!(b.force, Vec3::zero());
    assert_eq!(b.position, Vec3::zero());
}

#[test]
fn gravity_skips_grounded_body() {
    let mut b = RigidBody::new(from_int(80), Vec3::zero());
    b.on_ground = true;
    b.apply_force(Vec3::new(1, 2, 3));
    let before = b;
    apply_gravity(&mut b);
    assert_eq!(b, before);
}

#[test]
fn gravity_lowers_force_of_airborne_body() {
    let mut b = RigidBody::new(from_int(80), Vec3::zero());
    b.apply_force(Vec3::new(1, 2, 3));
    apply_gravity(&mut b);
    assert_eq!(GRAVITY, 9_810_000);
    assert_eq!(b.force, Vec3::new(1, 2 - 784_800_000, 3));
    assert!(b.force.y < 2);
}

#[test]
fn integration_updates_velocity_before_position() {
    let mut b = RigidBody::new(from_int(2), Vec3::new(0, 1_000_000, 0));
    b.apply_force(Vec3::new(0, -10_000_000, 0));
    integrate(&mut b, 100_000);
    assert_eq!(b.velocity, Vec3::new(0, -500_000, 0));
    assert_eq!(b.position, Vec3::new(0, 950_000, 0));
    assert_eq!(b.force, Vec3::zero());
}

#[test]
fn integration_rounds_toward_zero() {
    let mut b = RigidBody::new(from_int(3), Vec3::zero());
    b.apply_force(Vec3::new(10, -10, 0));
    integrate(&mut b, 1_000_000);
    assert_eq!(b.velocity, Vec3::new(3, -3, 0));
    assert_eq!(b.position, Vec3::new(3, -3, 0));
}

#[test]
fn static_resolution_ignores_distant_obstacle() {
    let mut b = RigidBody::new(from_int(1), Vec3::new(10_000_000, 3_000_000, 0));
    b.velocity = Vec3::new(1, 2, 3);
    let before = b;
    resolve_aabb_collisions(&mut b, &cube(500_000), &[floor(), Aabb { center: Vec3::zero(), half_extents: Vec3::splat(1_000_000) }]);
    assert_eq!(b, before);
}

#[test]
fn static_resolution_ignores_touching_obstacle() {
    let mut b = RigidBody::new(from_int(1), Vec3::new(0, 500_000, 0));
    b.velocity = Vec3::new(0, -1, 0);
    let before = b;
    resolve_aabb_collisions(&mut b, &cube(500_000), &[floor()]);
    assert_eq!(b, before);
}

#[test]
fn static_resolution_lands_on_floor() {
    let mut b = RigidBody::new(from_int(1), Vec3::new(0, 600_000, 0));
    b.velocity = Vec3::new(0, -6_000_000, 0);
    let obs = vec![floor()];
    let mut objs = vec![PhysicsObject { body: &mut b, collider: cube(500_000) }];
    let pairs = step(&mut objs, &obs, from_ratio(1, 60));
    drop(objs);
    assert!(pairs.is_empty());
    assert_eq!(b.velocity.y, 0);
    assert!(b.on_ground);
    assert_eq!(b.position.y, 500_000);
}

#[test]
fn static_resolution_pushes_sideways() {
    let mut b = RigidBody::new(from_int(1), Vec3::new(900_000, 0, 0));
    b.velocity = Vec3::new(-1_000_000, 7, 0);
    let wall = Aabb { center: Vec3::zero(), half_extents: Vec3::new(500_000, 5_000_000, 5_000_000) };
    resolve_aabb_collisions(&mut b, &cube(500_000), &[wall]);
    assert_eq!(b.position, Vec3::new(1_000_000, 0, 0));
    assert_eq!(b.velocity, Vec3::new(0, 7, 0));
    assert!(!b.on_ground);
}

#[test]
fn static_resolution_centred_body_goes_negative() {
    let mut b = RigidBody::new(from_int(1), Vec3::zero());
    let block = Aabb { center: Vec3::zero(), half_extents: Vec3::new(500_000, 1_000_000, 1_000_000) };
    resolve_aabb_collisions(&mut b, &cube(500_000), &[block]);
    assert_eq!(b.position, Vec3::new(-1_000_000, 0, 0));
}

#[test]
fn static_resolution_from_below_does_not_ground() {
    let mut b = RigidBody::new(from_int(1), Vec3::new(0, -900_000, 0));
    b.velocity = Vec3::new(0, 2_000_000, 0);
    let ceiling = Aabb { center: Vec3::zero(), half_extents: Vec3::new(5_000_000, 500_000, 5_000_000) };
    resolve_aabb_collisions(&mut b, &cube(500_000), &[ceiling]);
    assert_eq!(b.position, Vec3::new(0, -1_000_000, 0));
    assert_eq!(b.velocity, Vec3::zero());
    assert!(!b.on_ground);
}

#[test]
fn static_resolution_uses_adjusted_position_for_later_obstacles() {
    let mut b = RigidBody::new(from_int(1), Vec3::new(0, 400_000, 0));
    let second = Aabb { center: Vec3::new(0, 1_200_000, 0), half_extents: Vec3::new(5_000_000, 200_000, 5_000_000) };
    resolve_aabb_collisions(&mut b, &cube(500_000), &[floor(), second]);
    // The floor lifts the body to 0.5; the second box then overlaps it by
    // 0.2 from above and pushes it back down to 0.5.
    assert_eq!(b.position.y, 500_000);
    assert!(b.on_ground);
}

#[test]
fn pair_pushes_bodies_apart_symmetrically() {
    let mut a = RigidBody::new(from_int(5), Vec3::zero());
    a.velocity = Vec3::new(1_000_000, 0, 0);
    let mut b = RigidBody::new(from_int(5), Vec3::new(1_500_000, 0, 0));
    b.velocity = Vec3::new(-1_000_000, 0, 0);
    let mut oa = PhysicsObject { body: &mut a, collider: cube(1_000_000) };
    let mut ob = PhysicsObject { body: &mut b, collider: cube(1_000_000) };
    assert!(resolve_pair(&mut oa, &mut ob));
    drop(oa);
    drop(ob);
    assert_eq!(a.position, Vec3::new(-250_000, 0, 0));
    assert_eq!(b.position, Vec3::new(1_750_000, 0, 0));
    assert_eq!(a.velocity, Vec3::zero());
    assert_eq!(b.velocity, Vec3::zero());
}

#[test]
fn pair_landing_grounds_only_upper_body() {
    let mut a = RigidBody::new(from_int(1), Vec3::new(0, 1_800_000, 0));
    a.velocity = Vec3::new(4, -1_000_000, 0);
    let mut b = RigidBody::new(from_int(1), Vec3::zero());
    let mut oa = PhysicsObject { body: &mut a, collider: cube(1_000_000) };
    let mut ob = PhysicsObject { body: &mut b, collider: cube(1_000_000) };
    assert!(resolve_pair(&mut oa, &mut ob));
    drop(oa);
    drop(ob);
    assert_eq!(a.position, Vec3::new(0, 1_900_000, 0));
    assert_eq!(b.position, Vec3::new(0, -100_000, 0));
    assert_eq!(a.velocity, Vec3::new(4, 0, 0));
    assert!(a.on_ground);
    assert!(!b.on_ground);
}

#[test]
fn pair_full_tie_resolves_along_z() {
    let mut a = RigidBody::new(from_int(1), Vec3::zero());
    let mut b = RigidBody::new(from_int(1), Vec3::splat(1_500_000));
    let mut oa = PhysicsObject { body: &mut a, collider: cube(1_000_000) };
    let mut ob = PhysicsObject { body: &mut b, collider: cube(1_000_000) };
    assert!(resolve_pair(&mut oa, &mut ob));
    drop(oa);
    drop(ob);
    assert_eq!(a.position, Vec3::new(0, 0, -250_000));
    assert_eq!(b.position, Vec3::new(1_500_000, 1_500_000, 1_750_000));
}

#[test]
fn pair_tie_between_x_and_y_goes_to_y() {
    let mut a = RigidBody::new(from_int(1), Vec3::zero());
    let mut b = RigidBody::new(from_int(1), Vec3::new(1_500_000, 1_500_000, 0));
    let mut oa = PhysicsObject { body: &mut a, collider: cube(1_000_000) };
    let mut ob = PhysicsObject { body: &mut b, collider: cube(1_000_000) };
    assert!(resolve_pair(&mut oa, &mut ob));
    drop(oa);
    drop(ob);
    assert_eq!(a.position, Vec3::new(0, -250_000, 0));
    assert_eq!(b.position, Vec3::new(1_500_000, 1_750_000, 0));
    assert!(!a.on_ground);
}

#[test]
fn pair_touching_boxes_do_not_collide() {
    let mut a = RigidBody::new(from_int(1), Vec3::zero());
    let mut b = RigidBody::new(from_int(1), Vec3::new(2_000_000, 0, 0));
    let (sa, sb) = (a, b);
    let mut oa = PhysicsObject { body: &mut a, collider: cube(1_000_000) };
    let mut ob = PhysicsObject { body: &mut b, collider: cube(1_000_000) };
    assert!(!resolve_pair(&mut oa, &mut ob));
    drop(oa);
    drop(ob);
    assert_eq!(a, sa);
    assert_eq!(b, sb);
}

#[test]
fn step_reports_only_the_overlapping_pair() {
    let mut b0 = RigidBody::new(from_int(1), Vec3::new(0, 10_000_000, 0));
    let mut b1 = RigidBody::new(from_int(1), Vec3::new(10_000_000, 10_000_000, 0));
    let mut b2 = RigidBody::new(from_int(1), Vec3::new(1_500_000, 10_000_000, 0));
    let mut objs = vec![
        PhysicsObject { body: &mut b0, collider: cube(1_000_000) },
        PhysicsObject { body: &mut b1, collider: cube(1_000_000) },
        PhysicsObject { body: &mut b2, collider: cube(1_000_000) },
    ];
    let pairs = step(&mut objs, &[], from_ratio(1, 60));
    drop(objs);
    assert_eq!(pairs, vec![(0, 2)]);
    assert_eq!(b1.position, Vec3::new(10_000_000, 9_997_276, 0));
    assert_eq!(b1.velocity, Vec3::new(0, -163_493, 0));
    assert_eq!(b0.position, Vec3::new(-250_000, 9_997_276, 0));
    assert_eq!(b2.position, Vec3::new(1_750_000, 9_997_276, 0));
}

#[test]
fn step_reports_nothing_for_separated_bodies() {
    let mut b0 = RigidBody::new(from_int(1), Vec3::new(0, 500_000, 0));
    let mut b1 = RigidBody::new(from_int(1), Vec3::new(3_000_000, 500_000, 3_000_000));
    b0.on_ground = true;
    b1.on_ground = true;
    let (s0, s1) = (b0, b1);
    let obs = vec![floor()];
    let mut objs = vec![
        PhysicsObject { body: &mut b0, collider: cube(500_000) },
        PhysicsObject { body: &mut b1, collider: cube(500_000) },
    ];
    let pairs = step(&mut objs, &obs, from_ratio(1, 60));
    drop(objs);
    assert!(pairs.is_empty());
    assert_eq!(b0, s0);
    assert_eq!(b1, s1);
}

#[test]
fn shapes_keep_their_extents() {
    let c = Collider::new(Vec3::new(1, 2, 3));
    assert_eq!(c.half_extents, Vec3::new(1, 2, 3));
    let a = Aabb::new(Vec3::new(-1, 0, 1), Vec3::splat(5));
    assert_eq!(a.center, Vec3::new(-1, 0, 1));
    assert_eq!(a.half_extents, Vec3::splat(5));
}

#[test]
fn force_order_does_not_matter() {
    let mut a = RigidBody::new(from_int(1), Vec3::zero());
    let mut b = a;
    a.apply_force(Vec3::new(1, -2, 3));
    a.apply_force(Vec3::new(-10, 20, 30));
    b.apply_force(Vec3::new(-10, 20, 30));
    b.apply_force(Vec3::new(1, -2, 3));
    assert_eq!(a.force, b.force);
    assert_eq!(a.force, Vec3::new(-9, 18, 33));
}

#[test]
fn step_clears_ground_contact_without_support() {
    let mut b = RigidBody::new(from_int(1), Vec3::new(0, 10_000_000, 0));
    b.on_ground = true;
    let mut objs = vec![PhysicsObject { body: &mut b, collider: cube(500_000) }];
    let pairs = step(&mut objs, &[], from_ratio(1, 60));
    drop(objs);
    assert!(pairs.is_empty());
    assert!(!b.on_ground);
    assert_eq!(b.velocity, Vec3::new(0, -163_493, 0));
    assert_eq!(b.position, Vec3::new(0, 9_997_276, 0));
}

#[test]
fn body_walking_off_a_ledge_starts_falling() {
    let ledge = Aabb::new(Vec3::new(0, -500_000, 0), Vec3::new(1_000_000, 500_000, 1_000_000));
    let mut b = RigidBody::new(from_int(1), Vec3::new(0, 500_000, 0));
    b.on_ground = true;
    b.velocity = Vec3::new(6_000_000, 0, 0);
    let obs = vec![ledge];
    let mut frames_on_ground = 0;
    for _ in 0..60 {
        let mut objs = vec![PhysicsObject { body: &mut b, collider: cube(500_000) }];
        step(&mut objs, &obs, from_ratio(1, 60));
        drop(objs);
        if b.on_ground {
            frames_on_ground += 1;
        }
    }
    assert!(frames_on_ground < 60);
    assert!(!b.on_ground);
    assert!(b.position.y < 0);
}
