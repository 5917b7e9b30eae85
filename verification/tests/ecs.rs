use grf_engine::World;

#[derive(Debug, PartialEq)]
struct Position {
    x: f32,
    y: f32,
}

#[derive(Debug, PartialEq)]
struct Velocity {
    x: f32,
    y: f32,
}

#[derive(Debug)]
struct Health(i32);

#[derive(Debug)]
enum Comp {
    Position(Position),
    Velocity(Velocity),
    Health(Health),
}

const POSITION: usize = 0;
const VELOCITY: usize = 1;
const HEALTH: usize = 2;

#[derive(Debug, PartialEq)]
struct GameTime {
    delta: f32,
    total: f32,
}

const GAME_TIME: usize = 0;

#[test]
fn test_spawn_despawn() {
    let mut world: World<Comp, GameTime> = World::new();

    let e1 = world.spawn();
    let e2 = world.spawn();

    assert!(world.is_alive(e1));
    assert!(world.is_alive(e2));
    assert_eq!(world.entity_count(), 2);

    world.despawn(e1);
    assert!(!world.is_alive(e1));
    assert!(world.is_alive(e2));
    assert_eq!(world.entity_count(), 1);
}

#[test]
fn test_generation_reuse() {
    let mut world: World<Comp, GameTime> = World::new();

    let e1 = world.spawn();
    assert_eq!(e1.generation, 0);

    world.despawn(e1);

    let e2 = world.spawn();
    assert_eq!(e2.index, e1.index); // Same index
    assert_eq!(e2.generation, 1); // New generation

    // Old entity reference is stale
    assert!(!world.is_alive(e1));
    assert!(world.is_alive(e2));
}

#[test]
fn test_insert_get_component() {
    let mut world: World<Comp, GameTime> = World::new();
    let entity = world.spawn();

    world.insert(entity, POSITION, Comp::Position(Position { x: 10.0, y: 20.0 }));
    world.insert(entity, VELOCITY, Comp::Velocity(Velocity { x: 1.0, y: 2.0 }));

    let pos = match world.get(entity, POSITION).unwrap() {
        Comp::Position(p) => p,
        other => panic!("expected a position, got {:?}", other),
    };
    assert_eq!(pos.x, 10.0);
    assert_eq!(pos.y, 20.0);

    let vel = match world.get(entity, VELOCITY).unwrap() {
        Comp::Velocity(v) => v,
        other => panic!("expected a velocity, got {:?}", other),
    };
    assert_eq!(vel.x, 1.0);
    assert_eq!(vel.y, 2.0);
}

#[test]
fn test_remove_component() {
    let mut world: World<Comp, GameTime> = World::new();
    let entity = world.spawn();

    world.insert(entity, HEALTH, Comp::Health(Health(100)));
    assert!(world.has(entity, HEALTH));

    let health = world.remove(entity, HEALTH);
    match health.unwrap() {
        Comp::Health(h) => assert_eq!(h.0, 100),
        other => panic!("expected health, got {:?}", other),
    }
    assert!(!world.has(entity, HEALTH));
}

#[test]
fn test_query() {
    let mut world: World<Comp, GameTime> = World::new();

    let e1 = world.spawn();
    let e2 = world.spawn();
    let e3 = world.spawn();

    world.insert(e1, POSITION, Comp::Position(Position { x: 1.0, y: 1.0 }));
    world.insert(e2, POSITION, Comp::Position(Position { x: 2.0, y: 2.0 }));
    world.insert(e3, VELOCITY, Comp::Velocity(Velocity { x: 3.0, y: 3.0 })); // No position

    let positions = world.query(POSITION);
    assert_eq!(positions.len(), 2);
}

#[test]
fn test_query_mut() {
    let mut world: World<Comp, GameTime> = World::new();

    let e1 = world.spawn();
    let e2 = world.spawn();

    world.insert(e1, POSITION, Comp::Position(Position { x: 0.0, y: 0.0 }));
    world.insert(e2, POSITION, Comp::Position(Position { x: 0.0, y: 0.0 }));

    // Modify all positions through the returned handles.
    for e in world.query_mut(POSITION) {
        if let Some(Comp::Position(pos)) = world.get_mut(e, POSITION) {
            pos.x += 10.0;
        }
    }

    match world.get(e1, POSITION).unwrap() {
        Comp::Position(p) => assert_eq!(p.x, 10.0),
        other => panic!("expected a position, got {:?}", other),
    }
    match world.get(e2, POSITION).unwrap() {
        Comp::Position(p) => assert_eq!(p.x, 10.0),
        other => panic!("expected a position, got {:?}", other),
    }
}

#[test]
fn test_despawn_removes_components() {
    let mut world: World<Comp, GameTime> = World::new();
    let entity = world.spawn();

    world.insert(entity, POSITION, Comp::Position(Position { x: 0.0, y: 0.0 }));
    world.insert(entity, VELOCITY, Comp::Velocity(Velocity { x: 1.0, y: 1.0 }));

    world.despawn(entity);

    // Components should be gone
    let positions = world.query(POSITION);
    assert_eq!(positions.len(), 0);
}

#[test]
fn test_resources() {
    let mut world: World<Comp, GameTime> = World::new();

    // Insert resource
    world.insert_resource(GAME_TIME, GameTime { delta: 0.016, total: 0.0 });

    // Get resource
    assert!(world.has_resource(GAME_TIME));
    let time = world.get_resource(GAME_TIME).unwrap();
    assert_eq!(time.delta, 0.016);

    // Mutate resource
    {
        let time = world.get_resource_mut(GAME_TIME).unwrap();
        time.total += time.delta;
    }
    assert_eq!(world.get_resource(GAME_TIME).unwrap().total, 0.016);

    // Remove resource
    let removed = world.remove_resource(GAME_TIME).unwrap();
    assert_eq!(removed.delta, 0.016);
    assert!(!world.has_resource(GAME_TIME));
}

#[test]
fn test_spawn_two_despawn_one_counts() {
    let mut world: World<Comp, ()> = World::new();
    let e1 = world.spawn();
    let e2 = world.spawn();
    assert!(world.despawn(e1));
    assert_eq!(world.entity_count(), 1);
    assert!(!world.is_alive(e1));
    assert!(world.is_alive(e2));
}

#[test]
fn test_despawn_stale_handle_is_noop() {
    let mut world: World<Comp, ()> = World::new();
    let e = world.spawn();
    assert!(world.despawn(e));
    // A second despawn of the same handle does nothing.
    assert!(!world.despawn(e));
    assert_eq!(world.entity_count(), 0);
    // Reuse does not resurrect the stale handle.
    let e2 = world.spawn();
    assert!(!world.is_alive(e));
    assert!(world.is_alive(e2));
}

#[test]
fn test_insert_twice_overwrites() {
    let mut world: World<Comp, ()> = World::new();
    let e = world.spawn();
    world.insert(e, HEALTH, Comp::Health(Health(50)));
    world.insert(e, HEALTH, Comp::Health(Health(75)));
    // Still a single stored component, holding the second value.
    assert_eq!(world.query(HEALTH).len(), 1);
    match world.get(e, HEALTH).unwrap() {
        Comp::Health(h) => assert_eq!(h.0, 75),
        other => panic!("expected health, got {:?}", other),
    }
}

#[test]
fn test_remove_keeps_other_components() {
    let mut world: World<Comp, ()> = World::new();
    let e1 = world.spawn();
    let e2 = world.spawn();
    let e3 = world.spawn();
    world.insert(e1, HEALTH, Comp::Health(Health(1)));
    world.insert(e2, HEALTH, Comp::Health(Health(2)));
    world.insert(e3, HEALTH, Comp::Health(Health(3)));

    let removed = world.remove(e2, HEALTH);
    match removed.unwrap() {
        Comp::Health(h) => assert_eq!(h.0, 2),
        other => panic!("expected health, got {:?}", other),
    }
    // The other entities' values are untouched.
    match world.get(e1, HEALTH).unwrap() {
        Comp::Health(h) => assert_eq!(h.0, 1),
        other => panic!("expected health, got {:?}", other),
    }
    match world.get(e3, HEALTH).unwrap() {
        Comp::Health(h) => assert_eq!(h.0, 3),
        other => panic!("expected health, got {:?}", other),
    }
    assert!(!world.has(e2, HEALTH));
}

#[test]
fn test_query_yields_exactly_position_holders() {
    let mut world: World<Comp, ()> = World::new();
    let e1 = world.spawn();
    let e2 = world.spawn();
    let e3 = world.spawn();
    world.insert(e1, POSITION, Comp::Position(Position { x: 1.0, y: 1.0 }));
    world.insert(e2, POSITION, Comp::Position(Position { x: 2.0, y: 2.0 }));
    world.insert(e3, VELOCITY, Comp::Velocity(Velocity { x: 3.0, y: 3.0 }));

    let mut indices: Vec<u32> = world.query(POSITION).iter().map(|e| e.index).collect();
    indices.sort();
    let mut expected = vec![e1.index, e2.index];
    expected.sort();
    assert_eq!(indices, expected);
}

#[test]
fn test_stale_handle_has_no_components() {
    let mut world: World<Comp, ()> = World::new();
    let e = world.spawn();
    world.insert(e, POSITION, Comp::Position(Position { x: 0.0, y: 0.0 }));
    world.despawn(e);
    assert!(world.get(e, POSITION).is_none());
    assert!(!world.has(e, POSITION));
    assert!(world.remove(e, POSITION).is_none());
    // The reused slot starts clean.
    let e2 = world.spawn();
    assert_eq!(e2.index, e.index);
    assert!(!world.has(e2, POSITION));
}
