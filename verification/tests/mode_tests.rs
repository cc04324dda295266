use flappy::game::GameMode;
use flappy::game::Key;
use flappy::game::State;

fn playing_state() -> State {
    let mut s = State::new();
    s.mode = GameMode::Playing;
    s
}

#[test]
fn new_state_starts_in_menu() {
    let s = State::new();
    assert_eq!(s.mode, GameMode::Menu);
    assert_eq!(s.score, 0);
    assert_eq!(s.frame_time, 0);
    assert_eq!(s.player.x, 5);
    assert_eq!(s.player.y, 25);
    assert_eq!(s.player.velocity_halves, 0);
    assert_eq!(s.obstacle_near.x, 80);
    assert_eq!(s.obstacle_far.x, 120);
    assert_eq!(s.obstacle_near.size, 20);
    assert_eq!(s.obstacle_far.size, 20);
}

#[test]
fn menu_p_starts_playing() {
    let mut s = State::new();
    let quit = s.tick(Some(Key::P), 16);
    assert!(!quit);
    assert_eq!(s.mode, GameMode::Playing);
    assert_eq!(s.score, 0);
}

#[test]
fn menu_q_quits_and_quit_signals_driver() {
    let mut s = State::new();
    assert!(!s.tick(Some(Key::Q), 16));
    assert_eq!(s.mode, GameMode::Quit);
    assert!(s.tick(None, 16));
    assert_eq!(s.mode, GameMode::Quit);
}

#[test]
fn unlisted_keys_leave_mode_unchanged() {
    let menu_ignores = [Some(Key::R), Some(Key::Space), Some(Key::Escape), None];
    for key in menu_ignores {
        let mut s = State::new();
        s.tick(key, 16);
        assert_eq!(s.mode, GameMode::Menu);
    }
    let playing_ignores = [Some(Key::P), Some(Key::Q), Some(Key::R), None];
    for key in playing_ignores {
        let mut s = playing_state();
        s.tick(key, 16);
        assert_eq!(s.mode, GameMode::Playing);
    }
    let dead_ignores = [Some(Key::P), Some(Key::Space), Some(Key::Escape), None];
    for key in dead_ignores {
        let mut s = State::new();
        s.mode = GameMode::GameOver;
        s.tick(key, 16);
        assert_eq!(s.mode, GameMode::GameOver);
    }
    let pause_ignores = [Some(Key::P), Some(Key::R), Some(Key::Escape), None];
    for key in pause_ignores {
        let mut s = State::new();
        s.mode = GameMode::Pause;
        s.tick(key, 16);
        assert_eq!(s.mode, GameMode::Pause);
    }
    let quit_ignores = [Some(Key::P), Some(Key::Q), Some(Key::Space), None];
    for key in quit_ignores {
        let mut s = State::new();
        s.mode = GameMode::Quit;
        s.tick(key, 16);
        assert_eq!(s.mode, GameMode::Quit);
    }
}

#[test]
fn escape_pauses_and_preserves_the_run() {
    let mut s = playing_state();
    s.score = 3;
    s.frame_time = 10;
    s.tick(Some(Key::Escape), 0);
    assert_eq!(s.mode, GameMode::Pause);
    assert_eq!(s.score, 3);
    assert_eq!(s.frame_time, 10);
    assert_eq!(s.player.y, 25);
    assert_eq!(s.obstacle_near.x, 79);
}

#[test]
fn pause_space_resumes_without_reset() {
    let mut s = playing_state();
    s.score = 3;
    s.player.y = 30;
    s.mode = GameMode::Pause;
    s.tick(Some(Key::Space), 16);
    assert_eq!(s.mode, GameMode::Playing);
    assert_eq!(s.score, 3);
    assert_eq!(s.player.y, 30);
}

#[test]
fn pause_q_resets_and_returns_to_menu() {
    let mut s = playing_state();
    s.score = 3;
    s.player.y = 30;
    s.mode = GameMode::Pause;
    s.tick(Some(Key::Q), 16);
    assert_eq!(s.mode, GameMode::Menu);
    assert_eq!(s.score, 0);
    assert_eq!(s.player.y, 25);
    assert_eq!(s.obstacle_near.x, 80);
    assert_eq!(s.obstacle_far.x, 120);
}

#[test]
fn gameover_r_restarts_fresh() {
    let mut s = playing_state();
    s.score = 9;
    s.player.y = 51;
    s.mode = GameMode::GameOver;
    s.tick(Some(Key::R), 16);
    assert_eq!(s.mode, GameMode::Playing);
    assert_eq!(s.score, 0);
    assert_eq!(s.player.x, 5);
    assert_eq!(s.player.y, 25);
    assert_eq!(s.player.velocity_halves, 0);
    assert_eq!(s.frame_time, 0);
}

#[test]
fn gameover_q_resets_and_returns_to_menu() {
    let mut s = playing_state();
    s.score = 9;
    s.mode = GameMode::GameOver;
    s.tick(Some(Key::Q), 16);
    assert_eq!(s.mode, GameMode::Menu);
    assert_eq!(s.score, 0);
    assert_eq!(s.player.y, 25);
}

#[test]
fn physics_fires_once_and_resets_accumulator() {
    let mut s = playing_state();
    let vel_before: i32 = s.player.velocity_halves;
    s.tick(None, 200);
    assert_eq!(s.frame_time, 0);
    assert_eq!(s.player.velocity_halves, vel_before + 1);
    assert_eq!(
        (s.player.velocity_halves as f64) * 0.5 - (vel_before as f64) * 0.5,
        0.5
    );
    assert_eq!(s.player.y, 25);
    assert_eq!(s.mode, GameMode::Playing);
}

#[test]
fn physics_tick_keeps_velocity_at_cap() {
    let mut s = playing_state();
    s.player.velocity_halves = 4;
    s.tick(None, 200);
    assert_eq!(s.player.velocity_halves, 4);
    assert_eq!((s.player.velocity_halves as f64) * 0.5, 2.0);
}

#[test]
fn accumulator_holds_at_threshold_and_fires_past_it() {
    let mut s = playing_state();
    s.tick(None, 75);
    assert_eq!(s.frame_time, 75);
    assert_eq!(s.player.velocity_halves, 0);
    s.tick(None, 1);
    assert_eq!(s.frame_time, 0);
    assert_eq!(s.player.velocity_halves, 1);
}

#[test]
fn obstacles_scroll_even_without_a_physics_tick() {
    let mut s = playing_state();
    s.tick(None, 10);
    assert_eq!(s.player.velocity_halves, 0);
    assert_eq!(s.obstacle_near.x, 79);
    assert_eq!(s.obstacle_far.x, 119);
    assert_eq!(s.frame_time, 10);
}

#[test]
fn cycle_spawns_far_obstacle_from_current_score() {
    let mut s = playing_state();
    s.score = 5;
    s.obstacle_near.x = 5;
    s.obstacle_near.gap_y = 25;
    s.obstacle_far.x = 44;
    let far_gap: i32 = s.obstacle_far.gap_y;
    s.tick(None, 0);
    assert_eq!(s.obstacle_far.size, 15);
    assert_eq!(s.obstacle_far.x, 80);
    assert_eq!(s.score, 6);
    assert_eq!(s.obstacle_near.x, 43);
    assert_eq!(s.obstacle_near.size, 20);
    assert_eq!(s.obstacle_near.gap_y, far_gap);
    assert_eq!(s.mode, GameMode::Playing);
}

#[test]
fn low_player_stays_high_player_dies() {
    let mut s = playing_state();
    s.player.y = 49;
    s.tick(None, 0);
    assert_eq!(s.mode, GameMode::Playing);

    let mut s = playing_state();
    s.player.y = 51;
    s.tick(None, 0);
    assert_eq!(s.mode, GameMode::GameOver);
}

#[test]
fn collision_with_near_obstacle_ends_run() {
    let mut s = playing_state();
    s.obstacle_near.x = 5;
    s.obstacle_near.gap_y = 25;
    s.obstacle_far.x = 44;
    s.player.y = 10;
    s.tick(None, 0);
    assert_eq!(s.mode, GameMode::GameOver);
}

#[test]
fn flap_during_tick_overrides_gravity() {
    let mut s = playing_state();
    s.tick(Some(Key::Space), 200);
    assert_eq!(s.player.velocity_halves, -5);
    assert_eq!(s.player.y, 25);
    assert_eq!(s.mode, GameMode::Playing);
}

#[test]
fn reset_twice_equals_reset_once() {
    let mut s = playing_state();
    s.score = 7;
    s.frame_time = 33;
    s.player.y = 40;
    s.mode = GameMode::GameOver;
    s.clean_state();
    let player_once = s.player;
    let near_once = s.obstacle_near;
    let far_once = s.obstacle_far;
    s.clean_state();
    assert_eq!(s.mode, GameMode::GameOver);
    assert_eq!(s.player, player_once);
    assert_eq!(s.score, 0);
    assert_eq!(s.frame_time, 0);
    assert_eq!(s.obstacle_near.x, near_once.x);
    assert_eq!(s.obstacle_near.size, near_once.size);
    assert_eq!(s.obstacle_far.x, far_once.x);
    assert_eq!(s.obstacle_far.size, far_once.size);
}
