//! Tests of the spawn clock and of the spawn cadence over a simulated
//! stretch of wall-clock time.

use site_core::clock::SpawnClock;
use site_core::config;
use site_core::entities::GameState;
use site_core::sim::GameSim;

#[test]
fn clock_fires_exactly_on_the_period_boundary() {
    let mut clock = SpawnClock::new(2000);
    assert_eq!(clock.advance(1999), 0);
    assert_eq!(clock.advance(1), 1);
    assert_eq!(clock.carry_ms, 0);
    assert_eq!(clock.advance(2000), 1);
}

#[test]
fn clock_counts_whole_periods_and_carries_the_rest() {
    let mut clock = SpawnClock::new(2000);
    assert_eq!(clock.advance(5000), 2);
    assert_eq!(clock.carry_ms, 1000);
    assert_eq!(clock.advance(999), 0);
    assert_eq!(clock.advance(1), 1);
}

#[test]
fn clock_split_spans_fire_like_one_span() {
    let mut whole = SpawnClock::new(2000);
    let whole_fires = whole.advance(7300);
    let mut split = SpawnClock::new(2000);
    let mut split_fires: u64 = 0;
    split_fires += split.advance(4100);
    split_fires += split.advance(3200);
    assert_eq!(whole_fires, split_fires);
    assert_eq!(whole.carry_ms, split.carry_ms);
}

#[test]
fn ten_seconds_of_play_spawn_exactly_five_pipes() {
    let mut sim = GameSim::new(0);
    sim.assets_resolved(true);
    let _ = sim.handle_input();
    let mut clock = SpawnClock::new(config::SPAWN_PERIOD_MS);
    let mut created: u64 = 0;
    for _ in 0..625 {
        let fires = clock.advance(16);
        for _ in 0..fires {
            let before = sim.pipes.len();
            sim.spawn_tick();
            if sim.pipes.len() > before {
                created += 1;
            }
        }
        sim.tick();
        // Stands in for a player keeping the run alive: without input the
        // bird hits the ground and the spawner would rightly stop.
        sim.state = GameState::Playing;
    }
    assert_eq!(created, 5);
}
