//! The session state machine, the phase throttling, the scroll, the
//! particle tick, and the player's movement vetoes.
use shooter_core::game::Game;
use shooter_core::gamestate::GameState;
use shooter_core::geom::{vec2i, Rect};
use shooter_core::levelloader::{LevelLoader, LoadedLevelData};
use shooter_core::particle_sys::ParticleParams;
use shooter_core::player::{Player, PlayerInput};
use shooter_core::world::World;
use shooter_core::{FIXED_UPDATE_TICK, LATE_UPDATE_TICK, LEVEL_SPEED};

fn tiny_level() -> LoadedLevelData {
    let mut d = LoadedLevelData::new();
    d.level_end.push(vec2i(100, 0));
    d.level_end.push(vec2i(100, 23));
    d
}

fn one_level_game() -> Game {
    let mut loader = LevelLoader::new();
    loader.levels.push(tiny_level());
    let mut game = Game::init(loader);
    game.load_level();
    game
}

#[test]
fn menu_starts_play_on_fire() {
    let mut game = one_level_game();
    assert_eq!(game.gamestate, GameState::MainMenu);
    game.run_frame(&PlayerInput::idle(), 16);
    assert_eq!(game.gamestate, GameState::MainMenu);
    let mut fire = PlayerInput::idle();
    fire.fire = true;
    game.run_frame(&fire, 16);
    assert_eq!(game.gamestate, GameState::GameRunning);
}

#[test]
fn pause_toggles_and_freezes_the_world() {
    let mut game = one_level_game();
    game.gamestate = GameState::GameRunning;
    let mut pause = PlayerInput::idle();
    pause.pause = true;
    game.run_frame(&pause, 16);
    assert_eq!(game.gamestate, GameState::GamePaused);
    let offset = game.world.get_level_offset();
    game.run_frame(&PlayerInput::idle(), 16);
    assert_eq!(game.gamestate, GameState::GamePaused);
    assert_eq!(game.world.get_level_offset(), offset);
    game.run_frame(&pause, 16);
    assert_eq!(game.gamestate, GameState::GameRunning);
}

#[test]
fn phase_countdowns_rearm_on_their_own_intervals() {
    let mut game = one_level_game();
    game.gamestate = GameState::GameRunning;
    // both countdowns start spent: the first running frame fires both
    // phases and rearms them to their fixed intervals
    game.run_frame(&PlayerInput::idle(), 16);
    assert_eq!(game.fixed_tick, FIXED_UPDATE_TICK);
    assert_eq!(game.late_tick, LATE_UPDATE_TICK);
    // the next frame only runs them down by the frame time
    game.run_frame(&PlayerInput::idle(), 4);
    assert_eq!(game.fixed_tick, FIXED_UPDATE_TICK - 4);
    assert_eq!(game.late_tick, LATE_UPDATE_TICK - 4);
    // the fixed phase (10 ms) comes due before the late phase (65 ms):
    // its countdown crosses zero here and the phase fires next frame
    game.run_frame(&PlayerInput::idle(), 7);
    assert_eq!(game.fixed_tick, FIXED_UPDATE_TICK - 11);
    assert_eq!(game.late_tick, LATE_UPDATE_TICK - 11);
    game.run_frame(&PlayerInput::idle(), 1);
    assert_eq!(game.fixed_tick, FIXED_UPDATE_TICK);
    assert_eq!(game.late_tick, LATE_UPDATE_TICK - 12);
}

#[test]
fn the_window_scrolls_at_level_speed() {
    let mut game = one_level_game();
    game.gamestate = GameState::GameRunning;
    let offset = game.world.get_level_offset();
    game.run_frame(&PlayerInput::idle(), 16);
    assert_eq!(game.world.get_level_offset(), offset + LEVEL_SPEED * 16);
    game.run_frame(&PlayerInput::idle(), 10);
    assert_eq!(game.world.get_level_offset(), offset + LEVEL_SPEED * 26);
}

#[test]
fn game_over_folds_the_score_and_restarts_on_fire() {
    let mut game = one_level_game();
    game.gamestate = GameState::GameOver;
    game.local_score = 70;
    game.high_score = 50;
    game.run_frame(&PlayerInput::idle(), 16);
    assert_eq!(game.high_score, 70);
    assert_eq!(game.gamestate, GameState::GameOver);
    let mut fire = PlayerInput::idle();
    fire.fire = true;
    game.run_frame(&fire, 16);
    assert_eq!(game.gamestate, GameState::GameRunning);
    assert_eq!(game.last_score, 70);
    assert_eq!(game.world.get_collected_scorepoints(), 0);
}

#[test]
fn particles_tick_down_and_disappear() {
    let mut world = World::new();
    world.spawn_particles(
        vec2i(10, 10),
        16,
        ParticleParams { lifetime: 25, spawn_count: 16 },
    );
    world.spawn_particles(
        vec2i(20, 20),
        8,
        ParticleParams { lifetime: 5, spawn_count: 8 },
    );
    assert_eq!(world.particles_len(), 2);
    world.fixed_update(10);
    // the short-lived system went inactive on this tick and leaves on the
    // next; the long-lived one plays on
    assert_eq!(world.particles_len(), 2);
    world.fixed_update(10);
    assert_eq!(world.particles_len(), 1);
    // the long-lived system runs out on this tick and leaves on the next
    world.fixed_update(10);
    assert_eq!(world.particles_len(), 1);
    world.fixed_update(10);
    assert_eq!(world.particles_len(), 0);
}

#[test]
fn player_movement_is_vetoed_by_walls_and_window() {
    let mut world = World::new();
    let mut player = Player::new(&mut world);
    player.init(&mut world);
    let start = player.entity.transform.position;
    let no_walls: Vec<Rect> = Vec::new();
    let mut up = PlayerInput::idle();
    up.up = true;
    player.update(&mut world, &up, &no_walls, 16);
    // up moves by speed 350 * 0.016 s = 5.6 units; the forced scroll adds
    // 300 * 0.016 = 4.8 units to the right
    assert_eq!(
        player.entity.transform.position,
        vec2i(start.x + 4_800, start.y - 5_600)
    );
    // a wall dead ahead blocks the horizontal move but not the vertical
    let mut world2 = World::new();
    let mut player2 = Player::new(&mut world2);
    player2.init(&mut world2);
    let start2 = player2.entity.transform.position;
    let wall = Rect::new(start2.x, start2.y - 200_000, 400_000, 400_000);
    let walls = vec![wall];
    let mut right = PlayerInput::idle();
    right.right = true;
    player2.update(&mut world2, &right, &walls, 16);
    // both the keyed move and the forced scroll are vetoed by the wall
    assert_eq!(player2.entity.transform.position, start2);
}

#[test]
fn reaching_the_end_completes_the_level() {
    let mut world = World::new();
    let mut player = Player::new(&mut world);
    player.init(&mut world);
    player.reached_end = true;
    let no_walls: Vec<Rect> = Vec::new();
    let start = player.entity.transform.position;
    player.update(&mut world, &PlayerInput::idle(), &no_walls, 16);
    assert!(world.get_level_completed());
    assert_eq!(
        player.entity.transform.position,
        vec2i(start.x + LEVEL_SPEED * 16, start.y)
    );
}
