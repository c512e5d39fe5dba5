use dodger::geometry::Rect;
use dodger::units::{
    BASE_INTERVAL, BUG_SPAWN_Y, BUG_WIDTH, PLAYER_HEIGHT, PLAYER_MAX_X, PLAYER_SPEED,
    PLAYER_WIDTH, PLAYER_Y, SCREEN_HEIGHT, SCREEN_WIDTH, MICROS_PER_SECOND, UNITS_PER_PIXEL,
    WALL_THICKNESS,
};
use dodger::world::{Mode, Role, World};

#[test]
fn new_world_is_a_running_round_with_no_bugs() {
    let world = World::new();
    assert_eq!(world.mode, Mode::Play);
    assert_eq!(world.score, 0);
    assert!(world.bugs.is_empty());
    assert_eq!(world.scheduler.interval, BASE_INTERVAL);
    assert_eq!(world.scheduler.interval, 2_000_000);
    assert_eq!(world.scheduler.elapsed, 0);
}

#[test]
fn default_world_is_the_new_world() {
    assert_eq!(World::default(), World::new());
}

#[test]
fn player_rests_in_the_middle_near_the_bottom() {
    let world = World::new();
    assert_eq!(
        world.player.rect,
        Rect { x: 0, y: -654_000_000, width: 144_000_000, height: 96_000_000 }
    );
    assert_eq!(world.player.speed, 1500);
    assert_eq!(PLAYER_Y, -218 * UNITS_PER_PIXEL);
    assert_eq!(PLAYER_Y, PLAYER_HEIGHT - SCREEN_HEIGHT / 2);
}

#[test]
fn player_speed_is_five_hundred_pixels_per_second() {
    assert_eq!(PLAYER_SPEED * MICROS_PER_SECOND, 500 * UNITS_PER_PIXEL as u64);
}

#[test]
fn player_range_is_half_the_field_less_wall_and_half_sprite() {
    assert_eq!(PLAYER_MAX_X, SCREEN_WIDTH / 2 - WALL_THICKNESS - PLAYER_WIDTH / 2);
    assert_eq!(PLAYER_MAX_X, 648_000_000);
}

#[test]
fn bugs_spawn_opposite_the_player() {
    assert_eq!(BUG_SPAWN_Y, -PLAYER_Y - PLAYER_HEIGHT / 2);
    assert_eq!(BUG_SPAWN_Y, 202 * UNITS_PER_PIXEL);
    assert_eq!(BUG_SPAWN_Y, 606_000_000);
    assert_eq!(BUG_WIDTH, 48 * UNITS_PER_PIXEL);
}

#[test]
fn field_has_four_walls_and_only_the_bottom_one_scores() {
    let world = World::new();
    assert_eq!(world.walls.len(), 4);
    let side_height = (510 * UNITS_PER_PIXEL) as u64;
    let thickness = (10 * UNITS_PER_PIXEL) as u64;
    assert_eq!(
        world.walls[0].rect,
        Rect { x: -250 * UNITS_PER_PIXEL, y: 0, width: thickness, height: side_height }
    );
    assert_eq!(
        world.walls[1].rect,
        Rect { x: 250 * UNITS_PER_PIXEL, y: 0, width: thickness, height: side_height }
    );
    assert_eq!(
        world.walls[2].rect,
        Rect { x: 0, y: -250 * UNITS_PER_PIXEL, width: side_height, height: thickness }
    );
    assert_eq!(
        world.walls[3].rect,
        Rect { x: 0, y: 250 * UNITS_PER_PIXEL, width: side_height, height: thickness }
    );
    assert_eq!(world.walls[0].role, None);
    assert_eq!(world.walls[1].role, None);
    assert_eq!(world.walls[2].role, Some(Role::Scorable));
    assert_eq!(world.walls[3].role, None);
}
