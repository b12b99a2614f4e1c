use road_race::commands::Command;
use road_race::session::GameState;
use road_race::world::TickInput;
use road_race::world::World;

fn no_input(now_seconds: u64, delta_ms: u64) -> TickInput {
    TickInput {
        now_seconds,
        delta_ms,
        activation_pressed: false,
        jump_pressed: false,
        collisions: Vec::new(),
    }
}

#[test]
fn not_started_tick_is_inert() {
    let mut state = GameState::new();
    let mut world = World::initial();
    let before_env: Vec<_> = world.env.clone();
    let cmds = road_race::tick::tick(&mut state, &mut world, &no_input(100, 16));
    assert!(cmds.is_empty());
    assert!(!state.started);
    assert!(!state.lost);
    assert_eq!(state.health_amount, 3);
    assert_eq!(state.score, 0);
    assert_eq!(world.player_y_mu, 0);
    assert_eq!(world.env, before_env);
}

#[test]
fn activation_starts_session_and_captures_baseline() {
    let mut state = GameState::new();
    let mut world = World::initial();
    let mut input = no_input(42, 16);
    input.activation_pressed = true;
    let cmds = road_race::tick::tick(&mut state, &mut world, &input);
    assert!(state.started);
    assert_eq!(state.activation_seconds, 42);
    // The activating tick already runs gameplay: the score label is set.
    assert_eq!(cmds[0], Command::SetScoreText(0));
}

#[test]
fn started_never_reverts() {
    let mut state = GameState::new();
    let mut world = World::initial();
    let mut input = no_input(10, 16);
    input.activation_pressed = true;
    road_race::tick::tick(&mut state, &mut world, &input);
    assert!(state.started);
    for t in 11..30u64 {
        road_race::tick::tick(&mut state, &mut world, &no_input(t, 16));
        assert!(state.started);
    }
}

#[test]
fn score_readds_elapsed_seconds_every_tick() {
    let mut state = GameState::new();
    let mut world = World::initial();
    let mut input = no_input(10, 16);
    input.activation_pressed = true;
    road_race::tick::tick(&mut state, &mut world, &input);
    assert_eq!(state.score, 0);
    let cmds = road_race::tick::tick(&mut state, &mut world, &no_input(15, 16));
    assert_eq!(state.score, 5);
    assert_eq!(cmds[0], Command::SetScoreText(5));
    // The whole elapsed time is re-added, not a per-tick delta.
    let cmds = road_race::tick::tick(&mut state, &mut world, &no_input(17, 16));
    assert_eq!(state.score, 12);
    assert_eq!(cmds[0], Command::SetScoreText(12));
}

#[test]
fn fresh_session_defaults() {
    let s = GameState::new();
    assert_eq!(s.health_amount, 3);
    assert!(!s.started);
    assert!(!s.lost);
    assert_eq!(s.score, 0);
    assert_eq!(s.activation_seconds, 0);
    assert!(!s.jump.jumping);
}

#[test]
fn score_saturates_at_the_counter_limit() {
    let mut state = GameState::new();
    state.started = true;
    state.score = u64::MAX - 3;
    let mut world = World::initial();
    road_race::tick::tick(&mut state, &mut world, &no_input(10, 16));
    assert_eq!(state.score, u64::MAX);
    road_race::tick::tick(&mut state, &mut world, &no_input(11, 16));
    assert_eq!(state.score, u64::MAX);
}

#[test]
fn lost_session_is_frozen() {
    let mut state = GameState::new();
    state.started = true;
    state.health_amount = 0;
    state.lost = true;
    state.score = 99;
    let mut world = World::initial();
    world.player_y_mu = 123_000;
    let mut input = no_input(1000, 16);
    input.jump_pressed = true;
    input.collisions.push(road_race::world::CollisionEvent {
        first: road_race::world::SpriteKind::Player,
        second: road_race::world::SpriteKind::Obstacle,
        begin: true,
    });
    let before_env: Vec<_> = world.env.clone();
    let cmds = road_race::tick::tick(&mut state, &mut world, &input);
    assert!(cmds.is_empty());
    assert!(state.lost);
    assert_eq!(state.score, 99);
    assert_eq!(state.health_amount, 0);
    assert_eq!(world.player_y_mu, 123_000);
    assert_eq!(world.env, before_env);
}

#[test]
fn health_never_increases_over_a_session() {
    let mut state = GameState::new();
    let mut world = World::initial();
    let mut input = no_input(0, 16);
    input.activation_pressed = true;
    road_race::tick::tick(&mut state, &mut world, &input);
    let mut last_health = state.health_amount;
    for t in 1..40u64 {
        let mut input = no_input(t, 16);
        if t % 3 == 0 {
            input.collisions.push(road_race::world::CollisionEvent {
                first: road_race::world::SpriteKind::Obstacle,
                second: road_race::world::SpriteKind::Player,
                begin: true,
            });
        }
        road_race::tick::tick(&mut state, &mut world, &input);
        assert!(state.health_amount <= last_health);
        assert!(state.health_amount <= 3);
        last_health = state.health_amount;
    }
    // Three hits happened: the session is over and stays over.
    assert_eq!(state.health_amount, 0);
    assert!(state.lost);
    for t in 40..50u64 {
        road_race::tick::tick(&mut state, &mut world, &no_input(t, 16));
        assert!(state.lost);
    }
}
