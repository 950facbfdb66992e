use cube_chase::input::InputState;
use cube_chase::sim::RoundState;
use cube_chase::sim::RoundStatus;
use cube_chase::sim::Target;

fn idle() -> InputState {
    InputState { up: false, down: false, left: false, right: false }
}

fn pressed(up: bool, down: bool, left: bool, right: bool) -> InputState {
    InputState { up, down, left, right }
}

fn in_spawn_field(t: &Target) -> bool {
    -600 <= t.x && t.x <= 600 && -200 <= t.y && t.y <= 200
}

#[test]
fn first_tick_spawns_a_full_wave() {
    let mut s = RoundState::new(1000);
    assert_eq!(s.target_count(), 0);
    let st = s.advance(idle(), 1000);
    assert_eq!(st, RoundStatus::Active);
    assert_eq!(s.target_count(), 5);
    assert_eq!(s.targets().len(), 5);
    assert_eq!(s.clock_start_ms(), 1000);
    assert_eq!(s.score(), 0);
    for t in s.targets() {
        assert!(in_spawn_field(t));
    }
}

#[test]
fn movement_resolves_each_axis() {
    let mut s = RoundState::new(0);
    s.movement_step(pressed(false, false, false, true));
    assert_eq!(s.player_x(), 4);
    assert_eq!(s.player_y(), -50);
    s.movement_step(pressed(true, false, true, false));
    assert_eq!(s.player_x(), 0);
    assert_eq!(s.player_y(), -46);
    s.movement_step(pressed(false, true, false, false));
    assert_eq!(s.player_y(), -50);
}

#[test]
fn opposing_inputs_cancel() {
    let mut s = RoundState::new(0);
    s.movement_step(pressed(true, true, false, false));
    assert_eq!(s.player_x(), 0);
    assert_eq!(s.player_y(), -50);
    s.movement_step(pressed(true, true, true, true));
    assert_eq!(s.player_x(), 0);
    assert_eq!(s.player_y(), -50);
}

#[test]
fn collision_collects_every_overlapping_target() {
    let targets = vec![
        Target { x: 0, y: 0 },
        Target { x: 100, y: 100 },
        Target { x: 59, y: 0 },
        Target { x: -59, y: -59 },
        Target { x: 61, y: 0 },
    ];
    let mut s = RoundState::with_wave(0, 0, targets, 7, 0);
    assert_eq!(s.target_count(), 5);
    let collected = s.collision_step();
    assert_eq!(collected, 3);
    assert_eq!(s.score(), 10);
    assert_eq!(s.target_count(), 2);
    assert_eq!(s.targets().len(), 2);
    assert_eq!(s.targets()[0], Target { x: 100, y: 100 });
    assert_eq!(s.targets()[1], Target { x: 61, y: 0 });
}

#[test]
fn counter_tracks_live_targets_around_collision() {
    let targets = vec![Target { x: 0, y: 0 }, Target { x: 500, y: 100 }];
    let mut s = RoundState::with_wave(0, 0, targets, 0, 0);
    assert_eq!(s.target_count(), s.targets().len());
    s.collision_step();
    assert_eq!(s.target_count(), s.targets().len());
    assert_eq!(s.target_count(), 1);
}

#[test]
fn clearing_a_wave_respawns_in_the_same_tick() {
    let targets = vec![
        Target { x: 0, y: -50 },
        Target { x: 0, y: -50 },
        Target { x: 0, y: -50 },
        Target { x: 0, y: -50 },
        Target { x: 0, y: -50 },
    ];
    let mut s = RoundState::with_wave(0, -50, targets, 20, 0);
    let st = s.advance(idle(), 500);
    assert_eq!(st, RoundStatus::Active);
    assert_eq!(s.score(), 25);
    assert_eq!(s.target_count(), 5);
    assert_eq!(s.clock_start_ms(), 500);
    for t in s.targets() {
        assert!(in_spawn_field(t));
    }
}

#[test]
fn timeout_with_targets_left_is_a_loss() {
    let targets = vec![Target { x: 600, y: 200 }, Target { x: -600, y: -200 }];
    let mut s = RoundState::with_wave(0, -50, targets, 3, 0);
    let st = s.advance(idle(), 10_000);
    assert_eq!(st, RoundStatus::Active);
    let st = s.advance(idle(), 10_001);
    assert_eq!(st, RoundStatus::Loss);
    assert_eq!(s.status(), RoundStatus::Loss);
    assert_eq!(s.score(), 3);
    assert_eq!(s.target_count(), 2);
}

#[test]
fn loss_freezes_the_round() {
    let targets = vec![Target { x: 600, y: 200 }];
    let mut s = RoundState::with_wave(0, -50, targets, 9, 0);
    let st = s.advance(idle(), 11_000);
    assert_eq!(st, RoundStatus::Loss);
    let px = s.player_x();
    let py = s.player_y();
    for extra in 1..5_u64 {
        let st = s.advance(pressed(true, false, true, false), 11_000 + 1_000 * extra);
        assert_eq!(st, RoundStatus::Loss);
        assert_eq!(s.score(), 9);
        assert_eq!(s.target_count(), 1);
        assert_eq!(s.player_x(), px);
        assert_eq!(s.player_y(), py);
        assert_eq!(s.clock_start_ms(), 0);
    }
}

#[test]
fn last_instant_collection_is_not_a_loss() {
    let targets = vec![Target { x: 0, y: -50 }];
    let mut s = RoundState::with_wave(0, -50, targets, 0, 0);
    let st = s.advance(idle(), 12_000);
    assert_eq!(st, RoundStatus::Active);
    assert_eq!(s.score(), 1);
    assert_eq!(s.target_count(), 5);
    assert_eq!(s.clock_start_ms(), 12_000);
}

#[test]
fn score_never_decreases_across_ticks() {
    let mut s = RoundState::new(0);
    let mut last_score = s.score();
    let inputs = [
        pressed(false, false, false, true),
        pressed(true, false, false, false),
        pressed(false, true, true, false),
        idle(),
    ];
    for tick in 0..240_u64 {
        let now = tick * 1000 / 60;
        let st = s.advance(inputs[(tick % 4) as usize], now);
        assert!(s.score() >= last_score);
        last_score = s.score();
        if st == RoundStatus::Loss {
            break;
        }
    }
}

#[test]
fn remaining_seconds_floor_and_clamp() {
    let s = RoundState::with_wave(0, -50, vec![Target { x: 500, y: 0 }], 0, 0);
    assert_eq!(s.remaining_secs(0), 10);
    assert_eq!(s.remaining_secs(1), 9);
    assert_eq!(s.remaining_secs(500), 9);
    assert_eq!(s.remaining_secs(9_000), 1);
    assert_eq!(s.remaining_secs(9_999), 0);
    assert_eq!(s.remaining_secs(10_000), 0);
    assert_eq!(s.remaining_secs(25_000), 0);
}
