use platformer::elevator::ElevatorPlugin;
use platformer::entity::{Spawned, State};
use platformer::level::{spawn_exits, spawn_level_features, spawn_win_screen, Level, LevelPlugin};
use platformer::world::{
    ElevatorControl, ElevatorDefinition, ExitDefinition, Feature, FloorDefinition,
    LevelDefinition, Point, WorldDefinition,
};

fn floor(x: i64, y: i64, length: i64) -> FloorDefinition {
    FloorDefinition { loc: Point::new(x, y), length, left: None, right: None, middle: None }
}

fn two_level_world() -> WorldDefinition {
    let level0 = LevelDefinition {
        features: vec![
            Feature::Floor(vec![floor(0, 0, 3000)]),
            Feature::Exit(vec![ExitDefinition { location: Point::new(5000, 0) }]),
        ],
    };
    let level1 = LevelDefinition {
        features: vec![Feature::Elevator(vec![ElevatorDefinition {
            start_location: Point::new(0, 0),
            end_y: 4000,
            control: ElevatorControl::Constant,
        }])],
    };
    WorldDefinition { levels: vec![level0, level1] }
}

#[test]
fn end_to_end_two_levels() {
    let world = two_level_world();
    assert!(world.is_valid());
    let mut level = Level::new();
    assert_eq!(level.idx(), 0);
    assert!(level.children().is_empty());
    level.spawn_level(&world);
    let ch = level.children().clone();
    let tiles = ch.iter().filter(|s| matches!(s, Spawned::GroundTile { .. })).count();
    let bodies = ch.iter().filter(|s| matches!(s, Spawned::FloorBody { .. })).count();
    assert_eq!(tiles, 3);
    assert_eq!(bodies, 1);
    assert_eq!(ch.len(), 7);
    assert_eq!(ch[4], Spawned::ExitDoor { at: Point::new(5000, 0), destination: 1 });
    assert_eq!(ch[5], Spawned::DoorTop { at: Point::new(5000, 1000) });
    assert_eq!(ch[6], Spawned::ExitSign { at: Point::new(7000, 0) });

    // Not close enough: nothing happens.
    let mut player = Point::new(4400, 0);
    level.exit_level(true, &mut player);
    assert_eq!(level.idx(), 0);
    assert_eq!(level.children().len(), 7);

    // Close enough but the key is not held.
    let mut player = Point::new(5200, 100);
    level.exit_level(false, &mut player);
    assert_eq!(level.idx(), 0);
    assert_eq!(player, Point::new(5200, 100));

    level.exit_level(true, &mut player);
    assert_eq!(level.idx(), 1);
    assert_eq!(player, Point::new(0, 10000));
    assert!(level.children().is_empty());

    level.spawn_level(&world);
    assert_eq!(level.children().len(), 1);
    assert!(matches!(level.children()[0], Spawned::Elevator(_)));
}

#[test]
fn enter_level_clears_children_then_builds() {
    let world = two_level_world();
    let mut level = Level::new();
    level.spawn_level(&world);
    assert_eq!(level.children().len(), 7);
    level.enter_level(1);
    assert_eq!(level.idx(), 1);
    assert!(level.children().is_empty());
    level.spawn_level(&world);
    assert_eq!(level.children().len(), 1);
}

#[test]
fn spawn_level_keeps_a_built_level() {
    let world = two_level_world();
    let mut level = Level::new();
    level.spawn_level(&world);
    level.spawn_level(&world);
    assert_eq!(level.children().len(), 7);
}

#[test]
fn past_last_level_spawns_nothing() {
    let world = two_level_world();
    let mut level = Level::new();
    level.enter_level(2);
    level.spawn_level(&world);
    assert!(level.children().is_empty());
    assert_eq!(level.idx(), 2);
    spawn_win_screen();
}

#[test]
fn exit_destination_is_next_index() {
    let mut children = Vec::new();
    let exits = [ExitDefinition { location: Point::new(0, 0) }, ExitDefinition { location: Point::new(1000, 2000) }];
    spawn_exits(&mut children, 0, &exits);
    assert_eq!(children.len(), 6);
    assert_eq!(children[0], Spawned::ExitDoor { at: Point::new(0, 0), destination: 1 });
    assert_eq!(children[3], Spawned::ExitDoor { at: Point::new(1000, 2000), destination: 1 });
    let mut children = Vec::new();
    spawn_exits(&mut children, 6, &exits[..1]);
    assert_eq!(children[0], Spawned::ExitDoor { at: Point::new(0, 0), destination: 7 });
}

#[test]
fn features_spawn_in_written_order() {
    let def = LevelDefinition {
        features: vec![
            Feature::Exit(vec![ExitDefinition { location: Point::new(0, 0) }]),
            Feature::Floor(vec![floor(0, 0, 1000), floor(3000, 0, 1000)]),
        ],
    };
    let mut children = Vec::new();
    spawn_level_features(&mut children, 3, &def);
    assert_eq!(children.len(), 7);
    assert_eq!(children[0], Spawned::ExitDoor { at: Point::new(0, 0), destination: 4 });
    assert_eq!(children[3], Spawned::GroundTile { index: 38, at: Point::new(500, 0) });
    assert_eq!(children[5], Spawned::GroundTile { index: 38, at: Point::new(3500, 0) });
}

#[test]
fn plugins_run_one_frame() {
    let world = two_level_world();
    let mut level = Level::new();
    let mut player = Point::new(0, 10000);
    LevelPlugin.update(&mut level, &world, true, &mut player);
    assert_eq!(level.children().len(), 7);
    let mut player = Point::new(5000, 0);
    LevelPlugin.update(&mut level, &world, true, &mut player);
    assert_eq!(level.idx(), 1);
    assert_eq!(level.children().len(), 1);
    ElevatorPlugin.update(&mut level);
    match level.children()[0] {
        Spawned::Elevator(body) => {
            assert_eq!(body.state, State::MovingBackward);
            assert_eq!(body.velocity, Point::new(0, -5500));
        }
        _ => panic!("expected an elevator"),
    }
}

#[test]
fn validation_rejects_bad_records() {
    assert!(two_level_world().is_valid());
    let bad_floor = WorldDefinition {
        levels: vec![LevelDefinition { features: vec![Feature::Floor(vec![floor(0, 0, 0)])] }],
    };
    assert!(!bad_floor.is_valid());
    let far_exit = WorldDefinition {
        levels: vec![LevelDefinition {
            features: vec![Feature::Exit(vec![ExitDefinition { location: Point::new(i64::MAX, 0) }])],
        }],
    };
    assert!(!far_exit.is_valid());
    let many = WorldDefinition {
        levels: (0..256).map(|_| LevelDefinition { features: vec![] }).collect(),
    };
    assert!(!many.is_valid());
    let empty = WorldDefinition { levels: vec![] };
    assert!(empty.is_valid());
    assert!(empty.level_at(0).is_none());
}
