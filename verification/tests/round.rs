use dodger::geometry::Rect;
use dodger::units::PLAYER_Y;
use dodger::world::{Bug, Mode, SpawnScheduler, World};

fn ended_round() -> World {
    let mut world = World::new();
    world.mode = Mode::Stop;
    world.score = 42;
    world.player.rect.x = -300_000_000;
    world.scheduler = SpawnScheduler { interval: 1_634_144, elapsed: 900 };
    world.bugs.push(Bug { rect: Rect { x: 1, y: 2, width: 3, height: 4 }, speed: 204 });
    world.bugs.push(Bug { rect: Rect { x: 5, y: 6, width: 7, height: 8 }, speed: 120 });
    world
}

#[test]
fn nothing_changes_without_a_restart_request() {
    let mut world = ended_round();
    let before = world.clone();
    for _ in 0..5 {
        assert!(!world.restart(false));
        assert_eq!(world, before);
    }
}

#[test]
fn a_restart_request_is_ignored_while_the_round_runs() {
    let mut world = ended_round();
    world.mode = Mode::Play;
    let before = world.clone();
    assert!(!world.restart(true));
    assert_eq!(world, before);
    assert!(!world.restart(false));
    assert_eq!(world, before);
}

#[test]
fn restart_starts_a_new_round() {
    let mut world = ended_round();
    assert!(world.restart(true));
    assert_eq!(world.mode, Mode::Play);
    assert_eq!(world.score, 0);
    assert!(world.bugs.is_empty());
    assert_eq!(world.player.rect.x, 0);
    assert_eq!(world.scheduler, SpawnScheduler { interval: 2_000_000, elapsed: 0 });
}

#[test]
fn restart_keeps_the_field() {
    let mut world = ended_round();
    assert!(world.restart(true));
    assert_eq!(world.player.rect.y, PLAYER_Y);
    assert_eq!(world.player, World::new().player);
    assert_eq!(world.walls, World::new().walls);
    assert_eq!(world, World::new());
}

#[test]
fn restart_leads_to_the_same_state_from_any_ended_round() {
    let mut one = ended_round();
    let mut other = World::new();
    other.mode = Mode::Stop;
    other.score = u32::MAX;
    other.scheduler = SpawnScheduler { interval: 0, elapsed: 0 };
    other.player.rect.x = 648_000_000;
    assert!(one.restart(true));
    assert!(other.restart(true));
    assert_eq!(one, other);
}

#[test]
fn a_second_restart_request_changes_nothing() {
    let mut world = ended_round();
    assert!(world.restart(true));
    let after_first = world.clone();
    assert!(!world.restart(true));
    assert_eq!(world, after_first);
}
