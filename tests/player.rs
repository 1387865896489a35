use platformer::player::{
    apply_idle_sprite, apply_movement_animation, check_reset_game, jump_reset, player_jumps,
    player_movement, set_jumping_false_if_touching_floor, update_direction,
    update_sprite_direction, CollisionEvent, Direction, Jumper, Player, RUN_CYCLE_DELAY_MS,
    SPRITE_IDX_GREEN_STAND, WALK_CYCLE_DELAY_MS,
};
use platformer::world::Point;

#[test]
fn jump_only_from_ground() {
    let mut jumper = Jumper::new();
    let mut v = Point::new(300, -20);
    player_jumps(true, &mut jumper, &mut v);
    assert_eq!(v, Point::new(300, 50000));
    assert!(jumper.is_jumping);
    let mut v = Point::new(300, -20);
    player_jumps(true, &mut jumper, &mut v);
    assert_eq!(v, Point::new(300, -20));
}

#[test]
fn touching_ends_jump() {
    let mut jumper = Jumper { jump_impulse: 50000, is_jumping: true };
    set_jumping_false_if_touching_floor(4, &mut jumper, &CollisionEvent::Stopped(4, 5));
    assert!(jumper.is_jumping);
    set_jumping_false_if_touching_floor(4, &mut jumper, &CollisionEvent::Started(1, 2));
    assert!(jumper.is_jumping);
    set_jumping_false_if_touching_floor(4, &mut jumper, &CollisionEvent::Started(5, 4));
    assert!(!jumper.is_jumping);
    let mut jumper = Jumper { jump_impulse: 50000, is_jumping: true };
    jump_reset(9, &mut jumper, &[CollisionEvent::Stopped(9, 1), CollisionEvent::Started(9, 2)]);
    assert!(!jumper.is_jumping);
}

#[test]
fn fall_resets_player() {
    let mut p = Point::new(7000, -200001);
    let mut v = Point::new(10, -9);
    check_reset_game(&mut p, &mut v);
    assert_eq!(p, Point::new(0, 10000));
    assert_eq!(v, Point::new(0, 0));
    let mut p = Point::new(7000, -200000);
    check_reset_game(&mut p, &mut v);
    assert_eq!(p, Point::new(7000, -200000));
}

#[test]
fn movement_and_running() {
    let mut player = Player::new(5000);
    assert_eq!(player.last_running_ms, 4000);
    assert!(!player.is_running(5000));
    let mut v = Point::new(0, 7);
    player_movement(&mut player, 5000, false, true, true, &mut v);
    assert_eq!(v, Point::new(-5500, 7));
    player_movement(&mut player, 5000, true, false, true, &mut v);
    assert_eq!(v, Point::new(16500, 7));
    assert!(player.is_running(5099));
    assert!(!player.is_running(5100));
    player_movement(&mut player, 6000, false, false, false, &mut v);
    assert_eq!(v, Point::new(16500, 7));
}

#[test]
fn animation_and_sprites() {
    let player = Player { speed: 5500, last_running_ms: 1000 };
    assert_eq!(apply_movement_animation(&player, 1050, &Point::new(5, 0)), Some(RUN_CYCLE_DELAY_MS));
    assert_eq!(apply_movement_animation(&player, 2000, &Point::new(5, 0)), Some(WALK_CYCLE_DELAY_MS));
    assert_eq!(apply_movement_animation(&player, 2000, &Point::new(5, 1)), None);
    let mut idx = 11;
    assert!(!apply_idle_sprite(&Point::new(1, 0), &mut idx));
    assert_eq!(idx, 11);
    assert!(apply_idle_sprite(&Point::new(0, 3), &mut idx));
    assert_eq!(idx, SPRITE_IDX_GREEN_STAND);
    let mut d = Direction::Right;
    update_direction(&Point::new(-1, 0), &mut d);
    assert_eq!(d, Direction::Left);
    update_direction(&Point::new(0, 0), &mut d);
    assert_eq!(d, Direction::Left);
    assert!(update_sprite_direction(d));
    update_direction(&Point::new(2, 0), &mut d);
    assert!(!update_sprite_direction(d));
}
