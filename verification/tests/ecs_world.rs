use engine2d::ecs::{
    Component, ComponentKind, ComponentValue, Sprite, System, Transform, Velocity, World,
};
use engine2d::fixed::Fx;

/// A world with no registered systems.
struct Idle;

impl System for Idle {
    fn update(&mut self, _world: &mut World<Idle>, _delta_time: Fx) {}
}

/// Adds each entity's velocity to its transform once per update.
struct Movement;

impl System for Movement {
    fn update(&mut self, world: &mut World<Movement>, _delta_time: Fx) {
        let entities: Vec<u32> = world.get_entities().clone();
        for e in entities {
            let vel = match world.get_component(e, ComponentKind::Velocity) {
                Some(ComponentValue::Velocity(v)) => *v,
                _ => continue,
            };
            if let Some(ComponentValue::Transform(t)) =
                world.get_component_mut(e, ComponentKind::Transform)
            {
                t.x = t.x.add(vel.x);
                t.y = t.y.add(vel.y);
            }
        }
    }
}

#[test]
fn entity_ids_count_up_from_one() {
    let mut world: World<Idle> = World::new();
    let mut previous: u32 = 0;
    for expected in 1u32..=5 {
        let e = world.create_entity();
        assert_eq!(e, expected);
        assert!(e > previous);
        previous = e;
    }
    assert_eq!(world.get_entities().as_slice(), &[1, 2, 3, 4, 5]);
}

#[test]
fn entity_ids_are_unique() {
    let mut world: World<Idle> = World::new();
    let mut seen: Vec<u32> = Vec::new();
    for _ in 0..8 {
        let e = world.create_entity();
        assert!(!seen.contains(&e));
        seen.push(e);
    }
    assert_eq!(seen.len(), 8);
}

#[test]
fn added_component_reads_back_equal() {
    let mut world: World<Idle> = World::new();
    let e = world.create_entity();
    let v = Velocity::new(Fx::from_int(3), Fx::from_int(-4));
    world.add_component(e, v);
    match world.get_component(e, ComponentKind::Velocity) {
        Some(ComponentValue::Velocity(stored)) => assert_eq!(*stored, v),
        other => panic!("velocity missing: {:?}", other),
    }
}

#[test]
fn second_add_replaces_never_duplicates() {
    let mut world: World<Idle> = World::new();
    let e = world.create_entity();
    world.add_component(e, Velocity::new(Fx::from_int(1), Fx::from_int(1)));
    let v2 = Velocity::new(Fx::from_int(9), Fx::from_int(9));
    world.add_component(e, v2);
    match world.get_component(e, ComponentKind::Velocity) {
        Some(ComponentValue::Velocity(stored)) => assert_eq!(*stored, v2),
        other => panic!("velocity missing: {:?}", other),
    }
    // The other kinds stay absent: one slot per kind, nothing duplicated.
    assert!(world.get_component(e, ComponentKind::Transform).is_none());
    assert!(world.get_component(e, ComponentKind::Sprite).is_none());
}

#[test]
fn absent_lookups_return_none() {
    let mut world: World<Idle> = World::new();
    let e = world.create_entity();
    // Entity without the component.
    assert!(world.get_component(e, ComponentKind::Transform).is_none());
    // Unknown entity, and the reserved identifier zero.
    assert!(world.get_component(42, ComponentKind::Transform).is_none());
    assert!(world.get_component(0, ComponentKind::Transform).is_none());
    assert!(world.get_component_mut(42, ComponentKind::Transform).is_none());
}

#[test]
fn add_to_unknown_entity_is_a_no_op() {
    let mut world: World<Idle> = World::new();
    let e = world.create_entity();
    world.add_component(7, Velocity::new(Fx::from_int(1), Fx::from_int(1)));
    assert!(world.get_component(7, ComponentKind::Velocity).is_none());
    assert!(world.get_component(e, ComponentKind::Velocity).is_none());
    assert_eq!(world.get_entities().len(), 1);
}

#[test]
fn component_trait_tags_values() {
    let t = Transform::new(Fx::from_int(1), Fx::from_int(2));
    assert_eq!(t.to_value().kind_of(), ComponentKind::Transform);
    let s = Sprite::new(Fx::from_int(4), Fx::from_int(4));
    assert_eq!(s.to_value().kind_of(), ComponentKind::Sprite);
    let v = Velocity::new(Fx::zero(), Fx::zero());
    assert_eq!(v.to_value().kind_of(), ComponentKind::Velocity);
}

#[test]
fn sprite_entity_carries_transform_and_sprite() {
    let mut world: World<Idle> = World::new();
    let e = world.create_sprite_entity(
        Fx::from_int(10),
        Fx::from_int(20),
        Fx::from_int(32),
        Fx::from_int(16),
    );
    assert_eq!(e, 1);
    match world.get_component(e, ComponentKind::Transform) {
        Some(ComponentValue::Transform(t)) => {
            assert_eq!(t.x.to_raw(), 10_000_000);
            assert_eq!(t.y.to_raw(), 20_000_000);
            assert_eq!(t.rotation.to_raw(), 0);
            assert_eq!(t.scale_x.to_raw(), 1_000_000);
            assert_eq!(t.scale_y.to_raw(), 1_000_000);
        },
        other => panic!("transform missing: {:?}", other),
    }
    match world.get_component(e, ComponentKind::Sprite) {
        Some(ComponentValue::Sprite(s)) => {
            assert_eq!(s.width.to_raw(), 32_000_000);
            assert_eq!(s.height.to_raw(), 16_000_000);
            assert_eq!(s.color_r.to_raw(), 1_000_000);
            assert_eq!(s.color_a.to_raw(), 1_000_000);
            assert!(s.texture_id.is_none());
        },
        other => panic!("sprite missing: {:?}", other),
    }
    assert!(world.get_component(e, ComponentKind::Velocity).is_none());
}

#[test]
fn set_position_moves_only_the_transform() {
    let mut world: World<Idle> = World::new();
    let e = world.create_sprite_entity(
        Fx::from_int(0),
        Fx::from_int(0),
        Fx::from_int(8),
        Fx::from_int(8),
    );
    world.set_position(e, Fx::from_int(7), Fx::from_int(-3));
    match world.get_component(e, ComponentKind::Transform) {
        Some(ComponentValue::Transform(t)) => {
            assert_eq!(t.x.to_raw(), 7_000_000);
            assert_eq!(t.y.to_raw(), -3_000_000);
            assert_eq!(t.scale_x.to_raw(), 1_000_000);
        },
        other => panic!("transform missing: {:?}", other),
    }
    // Unknown entity: nothing happens.
    world.set_position(9, Fx::from_int(1), Fx::from_int(1));
    assert!(world.get_component(9, ComponentKind::Transform).is_none());
}

#[test]
fn set_color_recolors_only_the_sprite() {
    let mut world: World<Idle> = World::new();
    let e = world.create_sprite_entity(
        Fx::from_int(0),
        Fx::from_int(0),
        Fx::from_int(8),
        Fx::from_int(8),
    );
    world.set_color(e, Fx::from_raw(500_000), Fx::zero(), Fx::one(), Fx::one());
    match world.get_component(e, ComponentKind::Sprite) {
        Some(ComponentValue::Sprite(s)) => {
            assert_eq!(s.color_r.to_raw(), 500_000);
            assert_eq!(s.color_g.to_raw(), 0);
            assert_eq!(s.color_b.to_raw(), 1_000_000);
            assert_eq!(s.width.to_raw(), 8_000_000);
        },
        other => panic!("sprite missing: {:?}", other),
    }
    // An entity without a sprite is left untouched.
    let bare = world.create_entity();
    world.set_color(bare, Fx::one(), Fx::one(), Fx::one(), Fx::one());
    assert!(world.get_component(bare, ComponentKind::Sprite).is_none());
}

#[test]
fn mutable_view_writes_through() {
    let mut world: World<Idle> = World::new();
    let e = world.create_entity();
    world.add_component(e, Velocity::new(Fx::from_int(1), Fx::from_int(2)));
    if let Some(ComponentValue::Velocity(v)) = world.get_component_mut(e, ComponentKind::Velocity)
    {
        v.x = Fx::from_int(5);
    } else {
        panic!("velocity missing");
    }
    match world.get_component(e, ComponentKind::Velocity) {
        Some(ComponentValue::Velocity(v)) => {
            assert_eq!(v.x.to_raw(), 5_000_000);
            assert_eq!(v.y.to_raw(), 2_000_000);
        },
        other => panic!("velocity missing: {:?}", other),
    }
}

#[test]
fn sprite_with_color_builder() {
    let s = Sprite::new(Fx::from_int(2), Fx::from_int(2)).with_color(
        Fx::zero(),
        Fx::one(),
        Fx::zero(),
        Fx::one(),
    );
    assert_eq!(s.color_r.to_raw(), 0);
    assert_eq!(s.color_g.to_raw(), 1_000_000);
    assert_eq!(s.width.to_raw(), 2_000_000);
}

#[test]
fn systems_run_in_registration_order_with_world_access() {
    let mut world: World<Movement> = World::new();
    let e = world.create_entity();
    world.add_component(e, Transform::new(Fx::from_int(0), Fx::from_int(0)));
    world.add_component(e, Velocity::new(Fx::from_int(2), Fx::from_int(1)));
    world.register_system(Movement);
    world.register_system(Movement);
    // Two registered movement systems each advance the entity once per frame.
    world.update(Fx::from_raw(16_667));
    match world.get_component(e, ComponentKind::Transform) {
        Some(ComponentValue::Transform(t)) => {
            assert_eq!(t.x.to_raw(), 4_000_000);
            assert_eq!(t.y.to_raw(), 2_000_000);
        },
        other => panic!("transform missing: {:?}", other),
    }
    world.update(Fx::from_raw(16_667));
    match world.get_component(e, ComponentKind::Transform) {
        Some(ComponentValue::Transform(t)) => {
            assert_eq!(t.x.to_raw(), 8_000_000);
        },
        other => panic!("transform missing: {:?}", other),
    }
}

#[test]
fn update_without_systems_changes_nothing() {
    let mut world: World<Idle> = World::new();
    let e = world.create_entity();
    world.add_component(e, Velocity::new(Fx::from_int(1), Fx::from_int(1)));
    world.update(Fx::from_raw(16_667));
    assert_eq!(world.get_entities().len(), 1);
    assert!(world.get_component(e, ComponentKind::Velocity).is_some());
}
