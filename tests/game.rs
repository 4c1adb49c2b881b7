use snake::{
    position, score_text, snap_to_cell, Direction, GameClock, Keys, Position, Scoreboard, World,
    NODE_SIZE, TICK_PERIOD_NANOS,
};

const NO_KEYS: Keys = Keys { left: false, right: false, up: false, down: false };

fn world_at(x: i64, y: i64, facing: Direction) -> World {
    let mut w = World::new();
    w.head.position = Position { x, y };
    w.head.controller.direction = facing;
    w
}

fn ticked(mut w: World) -> World {
    w.timer_tick_system(TICK_PERIOD_NANOS);
    assert!(w.clock.just_finished);
    w
}

#[test]
fn opposite_twice_is_identity() {
    for d in [Direction::Up, Direction::Right, Direction::Down, Direction::Left] {
        assert_eq!(d.opposite().opposite(), d);
        assert_ne!(d.opposite(), d);
    }
    assert_eq!(Direction::Up.opposite(), Direction::Down);
    assert_eq!(Direction::Right.opposite(), Direction::Left);
}

#[test]
fn cell_to_world_position() {
    assert_eq!(position(0, 0), Position { x: 0, y: 0 });
    assert_eq!(position(2, -3), Position { x: 40, y: -60 });
}

#[test]
fn snapping_goes_toward_zero() {
    assert_eq!(snap_to_cell(25), 20);
    assert_eq!(snap_to_cell(-25), -20);
    assert_eq!(snap_to_cell(-5), 0);
    assert_eq!(snap_to_cell(129), 120);
    assert_eq!(snap_to_cell(-130), -120);
    assert_eq!(snap_to_cell(40), 40);
}

#[test]
fn movement_right_adds_one_cell_to_x() {
    let mut w = ticked(world_at(40, 60, Direction::Right));
    w.snake_head_movement_system();
    assert_eq!(w.head.position, Position { x: 40 + NODE_SIZE, y: 60 });
}

#[test]
fn movement_along_single_axis() {
    let cases = [
        (Direction::Up, Position { x: 40, y: 80 }),
        (Direction::Down, Position { x: 40, y: 40 }),
        (Direction::Left, Position { x: 20, y: 60 }),
    ];
    for (d, expected) in cases {
        let mut w = ticked(world_at(40, 60, d));
        w.snake_head_movement_system();
        assert_eq!(w.head.position, expected);
        assert_eq!(w.head.controller.direction, d);
    }
}

#[test]
fn no_movement_without_tick() {
    let mut w = world_at(40, 60, Direction::Up);
    w.timer_tick_system(TICK_PERIOD_NANOS / 2);
    w.snake_head_movement_system();
    assert_eq!(w.head.position, Position { x: 40, y: 60 });
}

#[test]
fn reversal_is_refused_and_turn_is_taken() {
    let mut w = world_at(0, 0, Direction::Right);
    w.snake_controls_system(Keys { left: true, ..NO_KEYS });
    assert_eq!(w.head.controller.direction, Direction::Right);
    w.snake_controls_system(Keys { up: true, ..NO_KEYS });
    assert_eq!(w.head.controller.direction, Direction::Up);
}

#[test]
fn key_priority_and_no_keys() {
    let mut w = world_at(0, 0, Direction::Up);
    w.snake_controls_system(Keys { left: true, right: true, up: true, down: false });
    assert_eq!(w.head.controller.direction, Direction::Left);
    w.snake_controls_system(NO_KEYS);
    assert_eq!(w.head.controller.direction, Direction::Left);
    // Down outranks Up and Right; from Left it is a quarter turn.
    w.snake_controls_system(Keys { left: false, right: true, up: true, down: true });
    assert_eq!(w.head.controller.direction, Direction::Down);
    // Up is the exact reverse of Down and is refused.
    w.snake_controls_system(Keys { up: true, ..NO_KEYS });
    assert_eq!(w.head.controller.direction, Direction::Down);
}

#[test]
fn spawner_places_one_aligned_apple_in_area() {
    for _ in 0..200 {
        let mut w = ticked(World::new());
        w.apple_spawner_system();
        let a = w.apple.expect("an apple is placed on a tick with none");
        assert_eq!(a.x % NODE_SIZE, 0);
        assert_eq!(a.y % NODE_SIZE, 0);
        assert!(-120 <= a.x && a.x <= 120);
        assert!(-120 <= a.y && a.y <= 120);
    }
}

#[test]
fn spawner_keeps_existing_apple() {
    let mut w = ticked(World::new());
    w.apple = Some(Position { x: 60, y: -40 });
    w.apple_spawner_system();
    assert_eq!(w.apple, Some(Position { x: 60, y: -40 }));
}

#[test]
fn spawner_waits_for_tick() {
    let mut w = World::new();
    w.timer_tick_system(1);
    w.apple_spawner_system();
    assert_eq!(w.apple, None);
}

#[test]
fn placed_apple_is_snapped() {
    let mut w = ticked(World::new());
    w.place_apple(25, -25);
    assert_eq!(w.apple, Some(Position { x: 20, y: -20 }));
    w.place_apple(100, 100);
    assert_eq!(w.apple, Some(Position { x: 20, y: -20 }));
}

#[test]
fn eating_removes_apple_and_scores() {
    let mut w = ticked(world_at(40, 60, Direction::Right));
    w.apple = Some(Position { x: 40, y: 60 });
    w.apple_eating_system();
    assert_eq!(w.apple, None);
    assert_eq!(w.score, Scoreboard(1));
}

#[test]
fn eating_misses_other_cell() {
    let mut w = ticked(world_at(40, 60, Direction::Right));
    w.apple = Some(Position { x: 40, y: 80 });
    w.apple_eating_system();
    assert_eq!(w.apple, Some(Position { x: 40, y: 80 }));
    assert_eq!(w.score, Scoreboard(0));
}

#[test]
fn one_period_gives_one_finish() {
    let mut c = GameClock::game_tick();
    let mut events = 0;
    for d in [100_000_000u64, 150_000_000, 250_000_000] {
        c.tick(d);
        if c.finished() {
            events += 1;
        }
    }
    assert_eq!(events, 1);
    assert_eq!(c.elapsed, 0);
}

#[test]
fn less_than_period_gives_no_finish() {
    let mut c = GameClock::game_tick();
    for _ in 0..4 {
        c.tick(100_000_000);
        assert!(!c.finished());
    }
    assert_eq!(c.elapsed, 400_000_000);
}

#[test]
fn small_ticks_do_not_drift() {
    let mut c = GameClock::game_tick();
    let mut events = 0u64;
    for _ in 0..7_000 {
        c.tick(1_000_001);
        if c.finished() {
            events += c.times_finished;
        }
    }
    let total = 7_000u64 * 1_000_001;
    assert_eq!(events * TICK_PERIOD_NANOS + c.elapsed, total);
    assert_eq!(events, total / TICK_PERIOD_NANOS);
}

#[test]
fn long_frame_carries_remainder() {
    let mut c = GameClock::new(10);
    c.tick(7);
    c.tick(28);
    assert!(c.finished());
    assert_eq!(c.times_finished, 3);
    assert_eq!(c.elapsed, 5);
}

#[test]
fn score_label_text() {
    assert_eq!(score_text(&Scoreboard(0)), "Score: 0");
    assert_eq!(score_text(&Scoreboard(12)), "Score: 12");
    assert_eq!(World::new().scoreboard_system(), "Score: 0");
}

#[test]
fn eat_apple_one_cell_right() {
    let mut w = World::new();
    assert_eq!(w.head.position, Position { x: 0, y: 0 });
    assert_eq!(w.head.controller.direction, Direction::Right);
    w.apple = Some(Position { x: 20, y: 0 });
    let label = w.frame(TICK_PERIOD_NANOS, NO_KEYS);
    assert_eq!(w.head.position, Position { x: 20, y: 0 });
    assert_eq!(w.apple, None);
    assert_eq!(w.score, Scoreboard(1));
    assert_eq!(label, "Score: 1");
    w.frame(TICK_PERIOD_NANOS, NO_KEYS);
    assert_eq!(w.head.position, Position { x: 40, y: 0 });
    assert!(w.apple.is_some());
}

#[test]
fn frame_without_tick_only_steers() {
    let mut w = World::new();
    assert!(w.can_run());
    let label = w.frame(1_000, Keys { up: true, ..NO_KEYS });
    assert_eq!(w.head.controller.direction, Direction::Up);
    assert_eq!(w.head.position, Position { x: 0, y: 0 });
    assert_eq!(w.apple, None);
    assert_eq!(label, "Score: 0");
}

#[test]
fn head_near_limit_cannot_run() {
    let w = world_at(i64::MAX - 5, 0, Direction::Right);
    assert!(!w.can_run());
    assert!(!w.head.can_move());
}

#[test]
fn missed_apple_leaves_full_score() {
    let mut w = ticked(world_at(40, 60, Direction::Right));
    w.score = Scoreboard(u64::MAX);
    w.apple = Some(Position { x: 0, y: 60 });
    w.apple_eating_system();
    assert_eq!(w.apple, Some(Position { x: 0, y: 60 }));
    assert_eq!(w.score, Scoreboard(u64::MAX));
}

#[test]
fn label_for_large_score() {
    assert_eq!(score_text(&Scoreboard(u64::MAX)), "Score: 18446744073709551615");
    assert_eq!(score_text(&Scoreboard(100)), "Score: 100");
}
