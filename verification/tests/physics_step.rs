use engine2d::collision::AABB;
use engine2d::fixed::Fx;
use engine2d::physics_world::{PhysicsWorld, RigidBody, DEFAULT_GRAVITY_RAW, DEFAULT_TIME_STEP_RAW};

#[test]
fn defaults() {
    let world = PhysicsWorld::new();
    assert_eq!(world.get_gravity().to_raw(), DEFAULT_GRAVITY_RAW);
    assert_eq!(world.get_gravity().to_raw(), -9_800_000);
    assert_eq!(world.get_time_step().to_raw(), DEFAULT_TIME_STEP_RAW);
    assert_eq!(world.get_accumulator().to_raw(), 0);
}

#[test]
fn gravity_can_be_replaced() {
    let mut world = PhysicsWorld::new_with_gravity(Fx::from_int(-5));
    assert_eq!(world.get_gravity().to_raw(), -5_000_000);
    world.set_gravity(Fx::from_int(3));
    assert_eq!(world.get_gravity().to_raw(), 3_000_000);
    assert_eq!(world.get_time_step().to_raw(), DEFAULT_TIME_STEP_RAW);
}

#[test]
fn accumulator_runs_three_steps_over_three_short_frames() {
    // Fixed step 1/60 s; three frames of 0.02 s each run exactly one step
    // apiece, and the residual never reaches a whole step.
    let mut world = PhysicsWorld::new();
    let frame = Fx::from_raw(20_000);
    let step = world.get_time_step().to_raw();

    let s1 = world.update(frame);
    assert_eq!(s1, 1);
    assert_eq!(world.get_accumulator().to_raw(), 20_000 - step);
    assert!(world.get_accumulator().to_raw() < step);

    let s2 = world.update(frame);
    assert_eq!(s2, 1);
    assert!(world.get_accumulator().to_raw() < step);

    let s3 = world.update(frame);
    assert_eq!(s3, 1);
    assert_eq!(s1 + s2 + s3, 3);
    assert_eq!(world.get_accumulator().to_raw(), 3 * 20_000 - 3 * step);
    assert!(world.get_accumulator().to_raw() < step);
}

#[test]
fn accumulator_consumes_long_frames_in_whole_steps() {
    let mut world = PhysicsWorld::new();
    // 0.1 s holds five whole steps of 16,667 millionths plus a remainder.
    let steps = world.update(Fx::from_raw(100_000));
    assert_eq!(steps, 5);
    assert_eq!(world.get_accumulator().to_raw(), 100_000 - 5 * DEFAULT_TIME_STEP_RAW);
}

#[test]
fn short_frame_runs_no_step() {
    let mut world = PhysicsWorld::new();
    let steps = world.update(Fx::from_raw(10_000));
    assert_eq!(steps, 0);
    assert_eq!(world.get_accumulator().to_raw(), 10_000);
    let steps2 = world.update(Fx::zero());
    assert_eq!(steps2, 0);
    assert_eq!(world.get_accumulator().to_raw(), 10_000);
}

#[test]
fn collision_passthroughs() {
    let world = PhysicsWorld::new();
    let a = AABB::new(Fx::from_int(0), Fx::from_int(0), Fx::from_int(10), Fx::from_int(10));
    let b = AABB::new(Fx::from_int(5), Fx::from_int(5), Fx::from_int(10), Fx::from_int(10));
    let c = AABB::new(Fx::from_int(20), Fx::from_int(20), Fx::from_int(5), Fx::from_int(5));
    assert!(world.check_collision(&a, &b));
    assert!(!world.check_collision(&a, &c));
    assert!(world.point_in_aabb(Fx::from_int(5), Fx::from_int(5), &a));
    assert!(!world.point_in_aabb(Fx::from_int(15), Fx::from_int(5), &a));
}

#[test]
fn body_defaults() {
    let body = RigidBody::new(Fx::from_int(2));
    assert_eq!(body.mass.to_raw(), 2_000_000);
    assert_eq!(body.velocity_x.to_raw(), 0);
    assert_eq!(body.velocity_y.to_raw(), 0);
    assert_eq!(body.acceleration_x.to_raw(), 0);
    assert_eq!(body.acceleration_y.to_raw(), 0);
    assert!(!body.is_static);
    assert_eq!(body.bounciness.to_raw(), 800_000);
    assert_eq!(body.friction.to_raw(), 100_000);

    let wall = RigidBody::static_body();
    assert!(wall.is_static);
    assert_eq!(wall.bounciness.to_raw(), 0);
    assert_eq!(wall.friction.to_raw(), 1_000_000);
}

#[test]
fn force_on_mass_two_yields_velocity_two() {
    // Mass 2, force (4,0), one unit step, no friction: velocity (2,0).
    let mut body = RigidBody::new(Fx::from_int(2));
    body.friction = Fx::zero();
    body.apply_force(Fx::from_int(4), Fx::from_int(0));
    assert_eq!(body.acceleration_x.to_raw(), 2_000_000);
    body.update(Fx::from_int(1));
    assert_eq!(body.velocity_x.to_raw(), 2_000_000);
    assert_eq!(body.velocity_y.to_raw(), 0);
    assert_eq!(body.acceleration_x.to_raw(), 0);
    assert_eq!(body.acceleration_y.to_raw(), 0);
}

#[test]
fn static_body_ignores_forces() {
    let mut wall = RigidBody::static_body();
    wall.apply_force(Fx::from_int(4), Fx::from_int(0));
    wall.update(Fx::from_int(1));
    assert_eq!(wall.velocity_x.to_raw(), 0);
    assert_eq!(wall.velocity_y.to_raw(), 0);
    assert_eq!(wall.acceleration_x.to_raw(), 0);
}

#[test]
fn friction_damps_linearly() {
    // Friction 0.1 over a unit step scales velocity by 0.9 after the gain.
    let mut body = RigidBody::new(Fx::from_int(1));
    body.apply_force(Fx::from_int(1), Fx::from_int(0));
    body.update(Fx::from_int(1));
    assert_eq!(body.velocity_x.to_raw(), 900_000);
}

#[test]
fn forces_are_frame_local() {
    // A second step without a new force gains no velocity beyond damping.
    let mut body = RigidBody::new(Fx::from_int(1));
    body.friction = Fx::zero();
    body.apply_force(Fx::from_int(3), Fx::from_int(0));
    body.update(Fx::from_int(1));
    assert_eq!(body.velocity_x.to_raw(), 3_000_000);
    body.update(Fx::from_int(1));
    assert_eq!(body.velocity_x.to_raw(), 3_000_000);
}

#[test]
fn force_accumulates_within_a_frame() {
    let mut body = RigidBody::new(Fx::from_int(1));
    body.apply_force(Fx::from_int(1), Fx::from_int(0));
    body.apply_force(Fx::from_int(2), Fx::from_int(0));
    assert_eq!(body.acceleration_x.to_raw(), 3_000_000);
}
