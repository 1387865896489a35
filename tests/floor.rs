use platformer::entity::Spawned;
use platformer::floor::{
    spawn_floor_onto, GROUND_TEXTURE_INDEX_ALONE, GROUND_TEXTURE_INDEX_LEFT,
    GROUND_TEXTURE_INDEX_MIDDLE, GROUND_TEXTURE_INDEX_RIGHT,
};
use platformer::world::{FloorDefinition, Point};

fn floor(x: i64, y: i64, length: i64) -> FloorDefinition {
    FloorDefinition { loc: Point::new(x, y), length, left: None, right: None, middle: None }
}

fn indices(spawned: &[Spawned]) -> Vec<usize> {
    spawned
        .iter()
        .filter_map(|s| match s {
            Spawned::GroundTile { index, .. } => Some(*index),
            _ => None,
        })
        .collect()
}

#[test]
fn single_tile_floor_uses_alone_tile() {
    let mut children = Vec::new();
    spawn_floor_onto(&mut children, &floor(0, 0, 1000));
    assert_eq!(children.len(), 2);
    assert_eq!(indices(&children), vec![GROUND_TEXTURE_INDEX_ALONE]);
    assert_eq!(children[0], Spawned::GroundTile { index: 38, at: Point::new(500, 0) });
}

#[test]
fn single_tile_floor_uses_left_override() {
    let mut children = Vec::new();
    let mut f = floor(0, 0, 1000);
    f.left = Some(7);
    f.right = Some(8);
    spawn_floor_onto(&mut children, &f);
    assert_eq!(indices(&children), vec![7]);
}

#[test]
fn whole_floor_uses_left_middle_right() {
    let mut children = Vec::new();
    spawn_floor_onto(&mut children, &floor(2000, 3000, 4000));
    assert_eq!(
        indices(&children),
        vec![
            GROUND_TEXTURE_INDEX_LEFT,
            GROUND_TEXTURE_INDEX_MIDDLE,
            GROUND_TEXTURE_INDEX_MIDDLE,
            GROUND_TEXTURE_INDEX_RIGHT
        ]
    );
    assert_eq!(children[3], Spawned::GroundTile { index: 41, at: Point::new(5500, 3000) });
}

#[test]
fn two_tile_floor_with_overrides() {
    let mut children = Vec::new();
    let f = FloorDefinition {
        loc: Point::new(0, 0),
        length: 2000,
        left: Some(1),
        right: Some(2),
        middle: Some(3),
    };
    spawn_floor_onto(&mut children, &f);
    assert_eq!(indices(&children), vec![1, 2]);
}

#[test]
fn fractional_floor_ends_with_right_tile() {
    let mut children = Vec::new();
    spawn_floor_onto(&mut children, &floor(0, 0, 2500));
    assert_eq!(indices(&children), vec![48, 82, 41]);
}

#[test]
fn floor_collider_spans_the_run() {
    let mut children = Vec::new();
    spawn_floor_onto(&mut children, &floor(1000, 2000, 3000));
    let last = *children.last().unwrap();
    assert_eq!(
        last,
        Spawned::FloorBody { min: Point::new(1000, 1500), max: Point::new(4000, 2500) }
    );
    if let Spawned::FloorBody { min, max } = last {
        assert_eq!(max.x - min.x, 3000);
        assert_eq!((min.x + max.x) as f64 / 2.0, 2500.0);
    }
}

#[test]
fn floor_appends_after_existing_children() {
    let mut children = vec![Spawned::DoorTop { at: Point::new(0, 0) }];
    spawn_floor_onto(&mut children, &floor(0, 0, 3000));
    assert_eq!(children.len(), 5);
    assert_eq!(children[0], Spawned::DoorTop { at: Point::new(0, 0) });
}
