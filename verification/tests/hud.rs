use dodger::hud::decimal_string;
use dodger::world::{Mode, World};

#[test]
fn numbers_are_written_in_decimal() {
    assert_eq!(decimal_string(0), "0");
    assert_eq!(decimal_string(7), "7");
    assert_eq!(decimal_string(9), "9");
    assert_eq!(decimal_string(10), "10");
    assert_eq!(decimal_string(42), "42");
    assert_eq!(decimal_string(100), "100");
    assert_eq!(decimal_string(1_234_567_890), "1234567890");
    assert_eq!(decimal_string(u32::MAX), "4294967295");
}

#[test]
fn every_digit_is_written() {
    assert_eq!(decimal_string(9_876_543), "9876543");
    assert_eq!(decimal_string(210), "210");
}

#[test]
fn score_line_shows_the_score() {
    let mut world = World::new();
    assert_eq!(world.hud().score_line, "Score: 0");
    world.score = 17;
    assert_eq!(world.hud().score_line, "Score: 17");
    world.mode = Mode::Stop;
    assert_eq!(world.hud().score_line, "Score: 17");
}

#[test]
fn notice_is_hidden_while_the_round_runs() {
    let mut world = World::new();
    world.score = 3;
    assert_eq!(world.hud().game_over, None);
}

#[test]
fn notice_shows_the_final_score_once_the_round_has_ended() {
    let mut world = World::new();
    world.score = 3;
    world.mode = Mode::Stop;
    assert_eq!(
        world.hud().game_over,
        Some(String::from("You panic! Final score: 3\nPress <space> to restart!"))
    );
    world.score = 0;
    assert_eq!(
        world.hud().game_over,
        Some(String::from("You panic! Final score: 0\nPress <space> to restart!"))
    );
}

#[test]
fn texts_are_derived_without_changing_the_world() {
    let mut world = World::new();
    world.score = 250;
    world.mode = Mode::Stop;
    let before = world.clone();
    let first = world.hud();
    let second = world.hud();
    assert_eq!(first, second);
    assert_eq!(world, before);
}
