use dodger::geometry::Rect;
use dodger::units::{BUG_SPAWN_Y, BUG_WIDTH, END_COLUMN, FIRST_COLUMN, UNITS_PER_PIXEL};
use dodger::world::{Bug, Mode, SpawnScheduler, World};

#[test]
fn a_bug_spawns_in_the_middle_of_its_column() {
    let bug = Bug::spawn(0, 0);
    assert_eq!(
        bug,
        Bug {
            rect: Rect {
                x: 24 * UNITS_PER_PIXEL,
                y: 202 * UNITS_PER_PIXEL,
                width: 144_000_000,
                height: 144_000_000,
            },
            speed: 120,
        }
    );
    assert_eq!(bug.rect.y, BUG_SPAWN_Y);
}

#[test]
fn the_ten_columns_span_the_field() {
    let expected_pixels: [i64; 10] = [-216, -168, -120, -72, -24, 24, 72, 120, 168, 216];
    let mut column = FIRST_COLUMN;
    for &pixels in expected_pixels.iter() {
        assert_eq!(Bug::spawn(column, 0).rect.x, pixels * UNITS_PER_PIXEL);
        assert_eq!(Bug::spawn(column, 0).rect.x, column as i64 * BUG_WIDTH + BUG_WIDTH / 2);
        column += 1;
    }
    assert_eq!(column, END_COLUMN);
    assert_eq!((FIRST_COLUMN, END_COLUMN), (-5, 5));
}

#[test]
fn bug_speed_grows_with_the_score() {
    // 40 pixels per second, and score / 1.5 more.
    assert_eq!(Bug::spawn(0, 0).speed, 120);
    assert_eq!(Bug::spawn(0, 1).speed, 122);
    assert_eq!(Bug::spawn(0, 3).speed, 126);
    assert_eq!(Bug::spawn(0, 30).speed, 180);
    assert_eq!(Bug::spawn(3, u32::MAX).speed, 8_589_934_710);
}

#[test]
fn a_bug_can_spawn_in_any_column_that_an_i32_names() {
    assert_eq!(Bug::spawn(i32::MAX, 0).rect.x, 309_237_645_240_000_000);
    assert_eq!(Bug::spawn(i32::MIN, 0).rect.x, -309_237_645_240_000_000);
}

#[test]
fn no_bug_spawns_before_the_interval_is_complete() {
    let mut world = World::new();
    assert!(!world.spawn_due(1_999_999));
    assert_eq!(world.spawn_in_column(1_999_999, 2), None);
    assert!(world.bugs.is_empty());
    assert_eq!(world.scheduler, SpawnScheduler { interval: 2_000_000, elapsed: 1_999_999 });
}

#[test]
fn a_bug_spawns_when_the_interval_is_complete() {
    let mut world = World::new();
    world.score = 6;
    world.bugs.push(Bug::spawn(-5, 0));
    assert_eq!(world.spawn_in_column(1_500_000, 2), None);
    assert!(world.spawn_due(500_000));
    assert_eq!(world.spawn_in_column(500_000, 2), Some(Bug::spawn(2, 6)));
    assert_eq!(world.bugs.len(), 2);
    assert_eq!(world.bugs[0], Bug::spawn(-5, 0));
    assert_eq!(world.bugs[1], Bug::spawn(2, 6));
    assert_eq!(world.bugs[1].rect.x, 120 * UNITS_PER_PIXEL);
    assert_eq!(world.bugs[1].speed, 132);
    assert_eq!(world.scheduler, SpawnScheduler { interval: 1_960_000, elapsed: 0 });
    assert_eq!(world.score, 6);
    assert_eq!(world.mode, Mode::Play);
}

#[test]
fn at_most_one_bug_spawns_per_frame() {
    let mut world = World::new();
    assert_eq!(world.spawn_in_column(60_000_000, 0), Some(Bug::spawn(0, 0)));
    assert_eq!(world.bugs.len(), 1);
    assert_eq!(world.scheduler, SpawnScheduler { interval: 1_960_000, elapsed: 0 });
}

#[test]
fn no_bug_spawns_once_the_round_has_ended() {
    let mut world = World::new();
    world.mode = Mode::Stop;
    world.scheduler.elapsed = 1_999_999;
    let before = world.clone();
    assert!(!world.spawn_due(10));
    assert_eq!(world.spawn_in_column(10, 0), None);
    assert_eq!(world, before);
    assert_eq!(world.spawn(5_000_000), None);
    assert_eq!(world, before);
}

#[test]
fn random_spawn_keeps_to_the_ten_columns() {
    let mut world = World::new();
    for _ in 0..400 {
        let due = world.scheduler.interval;
        let spawned = world.spawn(due);
        assert_eq!(spawned, world.bugs.last().copied());
        assert!(spawned.is_some());
    }
    assert_eq!(world.bugs.len(), 400);
    for bug in world.bugs.iter() {
        let offset = bug.rect.x - BUG_WIDTH / 2;
        assert_eq!(offset % BUG_WIDTH, 0);
        let column = offset / BUG_WIDTH;
        assert!(column >= FIRST_COLUMN as i64);
        assert!(column < END_COLUMN as i64);
        assert_eq!(bug.rect.y, BUG_SPAWN_Y);
        assert_eq!(bug.speed, 120);
    }
}

#[test]
fn random_spawn_uses_more_than_one_column() {
    let mut world = World::new();
    for _ in 0..400 {
        let due = world.scheduler.interval;
        world.spawn(due);
    }
    let first = world.bugs[0].rect.x;
    assert!(world.bugs.iter().any(|bug| bug.rect.x != first));
    assert!(world.bugs.iter().any(|bug| bug.rect.x != FIRST_COLUMN as i64 * BUG_WIDTH + BUG_WIDTH / 2));
}

#[test]
fn random_spawn_waits_for_the_interval() {
    let mut world = World::new();
    assert_eq!(world.spawn(1_000_000), None);
    assert!(world.bugs.is_empty());
    assert_eq!(world.scheduler.elapsed, 1_000_000);
    assert!(world.spawn(1_000_000).is_some());
    assert_eq!(world.bugs.len(), 1);
    assert_eq!(world.scheduler, SpawnScheduler { interval: 1_960_000, elapsed: 0 });
}
