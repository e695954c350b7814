//! Scenario tests of the simulation core: the state machine, the physics,
//! edge-triggered scoring, and the collision detector.

use site_core::collision::check_collision;
use site_core::config;
use site_core::entities::{Bird, GameState, Pipe};
use site_core::sim::GameSim;

/// A session that resolved its assets and started a run.
fn playing_sim() -> GameSim {
    let mut sim = GameSim::new(0);
    sim.assets_resolved(true);
    let _ = sim.handle_input();
    sim
}

#[test]
fn session_starts_loading_with_initial_values() {
    let sim = GameSim::new(10);
    assert!(sim.state == GameState::Loading);
    assert_eq!(sim.bird.y, config::BIRD_START_Y);
    assert_eq!(sim.bird.speed, 0);
    assert_eq!(sim.bird.rotation, 0);
    assert_eq!(sim.bird.frame, 0);
    assert_eq!(sim.pipes.len(), 0);
    assert_eq!(sim.score, 0);
    assert_eq!(sim.high_score, 10);
    assert_eq!(sim.frame_count, 0);
}

#[test]
fn input_while_loading_is_ignored() {
    let mut sim = GameSim::new(0);
    let commit = sim.handle_input();
    assert!(commit.is_none());
    assert!(sim.state == GameState::Loading);
    assert_eq!(sim.score, 0);
    assert_eq!(sim.bird.speed, 0);
}

#[test]
fn assets_failure_stays_loading() {
    let mut sim = GameSim::new(0);
    sim.assets_resolved(false);
    assert!(sim.state == GameState::Loading);
}

#[test]
fn assets_success_readies_and_later_events_are_ignored() {
    let mut sim = GameSim::new(0);
    sim.assets_resolved(true);
    assert!(sim.state == GameState::Ready);
    sim.assets_resolved(true);
    assert!(sim.state == GameState::Ready);
    sim.assets_resolved(false);
    assert!(sim.state == GameState::Ready);
}

#[test]
fn ready_input_starts_run_without_impulse() {
    let sim = playing_sim();
    assert!(sim.state == GameState::Playing);
    assert_eq!(sim.bird.speed, 0);
}

#[test]
fn playing_input_flaps() {
    let mut sim = playing_sim();
    let commit = sim.handle_input();
    assert!(commit.is_none());
    assert!(sim.state == GameState::Playing);
    assert_eq!(sim.bird.speed, -config::THRUST);
}

#[test]
fn game_over_input_resets_to_initial_values() {
    let mut sim = playing_sim();
    sim.state = GameState::GameOver;
    sim.score = 3;
    sim.pipes = vec![Pipe { x: 8000, y: -8000 }];
    sim.bird = Bird { y: 12345, speed: 200, rotation: 4320, frame: 2 };
    let commit = sim.handle_input();
    assert_eq!(commit, Some(3));
    assert!(sim.state == GameState::Ready);
    assert_eq!(sim.bird.y, config::BIRD_START_Y);
    assert_eq!(sim.bird.speed, 0);
    assert_eq!(sim.bird.rotation, 0);
    assert_eq!(sim.bird.frame, 0);
    assert_eq!(sim.pipes.len(), 0);
    assert_eq!(sim.score, 0);
    assert_eq!(sim.high_score, 3);
}

#[test]
fn high_score_not_beaten_is_kept() {
    let mut sim = playing_sim();
    sim.state = GameState::GameOver;
    sim.high_score = 10;
    sim.score = 7;
    let commit = sim.handle_input();
    assert!(commit.is_none());
    assert_eq!(sim.high_score, 10);
}

#[test]
fn high_score_beaten_commits_exactly_once() {
    let mut sim = playing_sim();
    sim.state = GameState::GameOver;
    sim.high_score = 10;
    sim.score = 15;
    let commit = sim.handle_input();
    assert_eq!(commit, Some(15));
    assert_eq!(sim.high_score, 15);
    let again = sim.handle_input();
    assert!(again.is_none());
    assert_eq!(sim.high_score, 15);
}

#[test]
fn flap_rises_then_gravity_pulls_down() {
    let mut sim = playing_sim();
    let _ = sim.handle_input();
    assert_eq!(sim.bird.speed, -config::THRUST);
    sim.tick();
    assert!(sim.bird.y < config::BIRD_START_Y);
    let mut ticks: usize = 0;
    while sim.bird.speed < 0 {
        sim.tick();
        ticks += 1;
        assert!(ticks < 100);
    }
    let mut prev: i64 = sim.bird.y;
    for _ in 0..10 {
        sim.tick();
        assert!(sim.state == GameState::Playing);
        assert!(sim.bird.y > prev);
        prev = sim.bird.y;
    }
}

#[test]
fn score_counts_a_crossing_exactly_once() {
    let mut sim = playing_sim();
    sim.pipes = vec![Pipe { x: 3360, y: -10000 }];
    sim.bird = Bird { y: 8000, speed: 0, rotation: 0, frame: 0 };
    sim.tick();
    assert_eq!(sim.pipes[0].x, 3280);
    assert_eq!(sim.score, 0);
    sim.tick();
    assert_eq!(sim.pipes[0].x, 3200);
    assert_eq!(sim.score, 1);
    sim.tick();
    assert_eq!(sim.pipes[0].x, 3120);
    assert_eq!(sim.score, 1);
    assert!(sim.state == GameState::Playing);
}

#[test]
fn pipe_retires_past_left_edge() {
    let mut sim = playing_sim();
    sim.pipes = vec![Pipe { x: -2000, y: -8000 }];
    sim.tick();
    assert_eq!(sim.pipes.len(), 0);
}

#[test]
fn bird_inside_gap_is_safe() {
    let bird = Bird { y: 8000, speed: 0, rotation: 0, frame: 0 };
    let pipes = vec![Pipe { x: 3200, y: -10000 }];
    assert!(!check_collision(&bird, &pipes));
}

#[test]
fn bird_touching_top_barrier_collides() {
    let bird = Bird { y: 5000, speed: 0, rotation: 0, frame: 0 };
    let pipes = vec![Pipe { x: 3200, y: -10000 }];
    assert!(check_collision(&bird, &pipes));
}

#[test]
fn bird_touching_bottom_barrier_collides() {
    let bird = Bird { y: 9000, speed: 0, rotation: 0, frame: 0 };
    let pipes = vec![Pipe { x: 3200, y: -10000 }];
    assert!(check_collision(&bird, &pipes));
}

#[test]
fn pipe_outside_bird_column_is_ignored() {
    let bird = Bird { y: 5000, speed: 0, rotation: 0, frame: 0 };
    let pipes = vec![Pipe { x: 8000, y: -10000 }];
    assert!(!check_collision(&bird, &pipes));
}

#[test]
fn bird_at_ground_line_collides_regardless_of_pipes() {
    let bird = Bird { y: config::GROUND_Y, speed: 0, rotation: 0, frame: 0 };
    assert!(check_collision(&bird, &vec![]));
    let just_above = Bird { y: config::GROUND_Y - config::BIRD_HALF_SIZE, speed: 0, rotation: 0, frame: 0 };
    assert!(!check_collision(&just_above, &vec![]));
}

#[test]
fn collision_tick_commits_the_move_before_ending_the_run() {
    let mut sim = playing_sim();
    sim.bird = Bird { y: 14040, speed: 0, rotation: 0, frame: 0 };
    sim.tick();
    assert!(sim.state == GameState::GameOver);
    assert_eq!(sim.bird.y, 14045);
    assert_eq!(sim.bird.speed, config::GRAVITY);
}

#[test]
fn tumble_falls_under_double_gravity_then_freezes() {
    let mut sim = playing_sim();
    sim.state = GameState::GameOver;
    sim.bird = Bird { y: 13000, speed: 0, rotation: 0, frame: 0 };
    sim.score = 4;
    sim.pipes = vec![Pipe { x: 8000, y: -8000 }];
    sim.tick();
    assert_eq!(sim.bird.speed, 2 * config::GRAVITY);
    assert_eq!(sim.bird.y, 13010);
    assert_eq!(sim.bird.rotation, config::ROT_FALL_STEP);
    assert_eq!(sim.score, 4);
    assert_eq!(sim.pipes[0].x, 8000);
    let mut ticks: usize = 0;
    while sim.bird.y < config::GROUND_Y - config::BIRD_SIZE {
        sim.tick();
        ticks += 1;
        assert!(ticks < 100);
    }
    let rest = sim.bird;
    sim.tick();
    assert_eq!(sim.bird, rest);
    assert!(sim.bird.rotation <= config::ROT_MAX);
}

#[test]
fn animation_advances_every_five_ticks() {
    let mut sim = playing_sim();
    sim.bird.y = 8000;
    for _ in 0..4 {
        sim.tick();
    }
    assert_eq!(sim.bird.frame, 0);
    sim.tick();
    assert_eq!(sim.frame_count, 5);
    assert_eq!(sim.bird.frame, 1);
    for _ in 0..15 {
        sim.tick();
    }
    assert_eq!(sim.bird.frame, 0);
}

#[test]
fn rotation_follows_speed_and_clamps() {
    let mut sim = playing_sim();
    sim.bird.y = 8000;
    let _ = sim.handle_input();
    sim.tick();
    assert_eq!(sim.bird.speed, -139);
    assert_eq!(sim.bird.rotation, -1390);
    sim.bird.speed = -300;
    sim.tick();
    assert_eq!(sim.bird.rotation, config::ROT_MIN);
    sim.bird.speed = 100;
    sim.tick();
    assert_eq!(sim.bird.rotation, 105 * config::ROT_FALL_SLOPE);
    sim.bird = Bird { y: 8000, speed: 300, rotation: 0, frame: 0 };
    sim.tick();
    assert_eq!(sim.bird.rotation, config::ROT_MAX);
}

#[test]
fn spawn_only_during_a_run_and_inside_the_band() {
    let mut sim = GameSim::new(0);
    sim.spawn_tick();
    assert_eq!(sim.pipes.len(), 0);
    sim.assets_resolved(true);
    sim.spawn_tick();
    assert_eq!(sim.pipes.len(), 0);
    let _ = sim.handle_input();
    sim.spawn_tick();
    assert_eq!(sim.pipes.len(), 1);
    assert_eq!(sim.pipes[0].x, config::CANVAS_WIDTH);
    assert!(config::PIPE_Y_MIN <= sim.pipes[0].y && sim.pipes[0].y < config::PIPE_Y_MAX);
}

#[test]
fn spawn_on_occupied_column_waits_for_a_tick() {
    let mut sim = playing_sim();
    sim.bird.y = 8000;
    sim.spawn_tick();
    assert_eq!(sim.pipes.len(), 1);
    sim.spawn_tick();
    assert_eq!(sim.pipes.len(), 1);
    sim.tick();
    sim.spawn_tick();
    assert_eq!(sim.pipes.len(), 2);
    assert!(sim.pipes[0].x < sim.pipes[1].x);
}

#[test]
fn tick_outside_a_run_moves_only_the_frame_counter() {
    let mut sim = GameSim::new(0);
    sim.assets_resolved(true);
    sim.tick();
    assert!(sim.state == GameState::Ready);
    assert_eq!(sim.frame_count, 1);
    assert_eq!(sim.bird.y, config::BIRD_START_Y);
    assert_eq!(sim.bird.speed, 0);
    assert_eq!(sim.score, 0);
}

#[test]
fn tick_freezes_outside_the_machine_bounds() {
    let mut sim = playing_sim();
    sim.score = config::SCORE_LIMIT + 1;
    sim.tick();
    assert_eq!(sim.frame_count, 0);
    assert_eq!(sim.bird.y, config::BIRD_START_Y);
    assert_eq!(sim.score, config::SCORE_LIMIT + 1);
}

#[test]
fn reset_after_game_over_allows_a_fresh_run() {
    let mut sim = playing_sim();
    sim.state = GameState::GameOver;
    sim.score = 2;
    let _ = sim.handle_input();
    assert!(sim.state == GameState::Ready);
    let _ = sim.handle_input();
    assert!(sim.state == GameState::Playing);
    assert_eq!(sim.bird.y, config::BIRD_START_Y);
    assert_eq!(sim.score, 0);
}
