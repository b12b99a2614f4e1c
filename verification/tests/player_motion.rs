use road_race::motion::jump_offset_mu;
use road_race::motion::step_player;
use road_race::session::GameState;
use road_race::session::JumpState;
use road_race::world::TickInput;
use road_race::world::World;

fn running_state() -> GameState {
    let mut s = GameState::new();
    s.started = true;
    s
}

fn input(delta_ms: u64, jump_pressed: bool) -> TickInput {
    TickInput {
        now_seconds: 0,
        delta_ms,
        activation_pressed: false,
        jump_pressed,
        collisions: Vec::new(),
    }
}

#[test]
fn jump_arc_is_zero_at_both_ends_and_peaks_at_midpoint() {
    assert_eq!(jump_offset_mu(0), 0);
    assert_eq!(jump_offset_mu(3000), 0);
    assert_eq!(jump_offset_mu(1500), 1_000_000);
}

#[test]
fn jump_arc_exact_values() {
    // 4_000_000 * 750 * 2250 / 9_000_000
    assert_eq!(jump_offset_mu(750), 750_000);
    assert_eq!(jump_offset_mu(2250), 750_000);
    // 4_000_000 * 100 * 2900 / 9_000_000, rounded down
    assert_eq!(jump_offset_mu(100), 128_888);
}

#[test]
fn jump_arc_never_dips_below_origin() {
    for t in (0..=3000).step_by(25) {
        let off = jump_offset_mu(t);
        assert!(off >= 0);
        assert!(off <= 1_000_000);
    }
}

#[test]
fn grounded_player_at_ground_stays_clamped() {
    let mut state = running_state();
    let mut world = World::initial();
    assert_eq!(world.player_y_mu, 0);
    road_race::tick::tick(&mut state, &mut world, &input(16, false));
    assert_eq!(world.player_y_mu, 0);
    assert!(!state.jump.jumping);
}

#[test]
fn grounded_player_falls_at_fixed_rate() {
    let mut state = running_state();
    let mut world = World::initial();
    world.player_y_mu = 500_000;
    road_race::tick::tick(&mut state, &mut world, &input(1000, false));
    // 300 milli-units per millisecond for one second.
    assert_eq!(world.player_y_mu, 200_000);
    // A long enough fall clamps at the ground.
    road_race::tick::tick(&mut state, &mut world, &input(1000, false));
    assert_eq!(world.player_y_mu, 0);
    road_race::tick::tick(&mut state, &mut world, &input(1000, false));
    assert_eq!(world.player_y_mu, 0);
}

#[test]
fn jump_key_starts_a_jump_from_current_height() {
    let mut state = running_state();
    let mut world = World::initial();
    road_race::tick::tick(&mut state, &mut world, &input(100, true));
    assert!(state.jump.jumping);
    assert_eq!(state.jump.origin_y_mu, 0);
    assert_eq!(state.jump.elapsed_ms, 100);
    assert_eq!(world.player_y_mu, 128_888);
}

#[test]
fn jump_progresses_across_ticks_without_holding_the_key() {
    let mut state = running_state();
    let mut world = World::initial();
    road_race::tick::tick(&mut state, &mut world, &input(500, true));
    road_race::tick::tick(&mut state, &mut world, &input(1000, false));
    assert!(state.jump.jumping);
    assert_eq!(state.jump.elapsed_ms, 1500);
    assert_eq!(world.player_y_mu, 1_000_000);
}

#[test]
fn jump_lands_back_at_origin_when_duration_elapses() {
    let mut jump = JumpState { jumping: true, elapsed_ms: 2900, origin_y_mu: 40_000 };
    let y2 = step_player(&mut jump, 300_000, false, 200);
    assert!(!jump.jumping);
    assert_eq!(y2, 40_000);
}
