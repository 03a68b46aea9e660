//! The game as a whole: phase transitions, the absorbing GameOver, the
//! collision fold, scoring, pruning and the render-facing signals.

use flappy_bird::Fx;
use flappy_bird::FX_SCALE;
use flappy_bird::actors::Pipe;
use flappy_bird::config::Config;
use flappy_bird::display::BirdSprite;
use flappy_bird::display::countdown_digit;
use flappy_bird::display::player_sprite;
use flappy_bird::game::Game;
use flappy_bird::game::is_hit;
use flappy_bird::gamestate::GameState;
use flappy_bird::vec2::Vec2;

fn fx_px(px: i64) -> Fx {
    Fx { raw: px * FX_SCALE }
}

/// Phase predicates pick out exactly their own phase.
#[test]
fn phase_predicates() {
    assert!(GameState::Playing.is_playing());
    assert!(!GameState::Playing.is_paused());
    assert!(GameState::Paused.is_paused());
    assert!(GameState::GameOver.is_gameover());
    assert!(GameState::Countdown.is_countdown());
    assert!(!GameState::Countdown.is_playing());
}

/// The manual pause toggle: Paused resumes, anything else pauses.
#[test]
fn toggle_pause() {
    let mut s = GameState::Paused;
    s.toggle_pause();
    assert_eq!(s, GameState::Playing);
    s.toggle_pause();
    assert_eq!(s, GameState::Paused);
    let mut g = GameState::GameOver;
    g.toggle_pause();
    assert_eq!(g, GameState::Paused);
}

/// GameOver absorbs under combine, on either side; otherwise the right
/// side wins.
#[test]
fn combine_absorbs_gameover() {
    assert_eq!(
        GameState::GameOver.combine(GameState::Playing),
        GameState::GameOver
    );
    assert_eq!(
        GameState::Playing.combine(GameState::GameOver),
        GameState::GameOver
    );
    assert_eq!(
        GameState::Playing.combine(GameState::Playing),
        GameState::Playing
    );
    assert_eq!(
        GameState::Paused.combine(GameState::Playing),
        GameState::Playing
    );
}

/// A fresh game starts paused, at the origin, with a full level of pipes.
#[test]
fn new_game_initial_state() {
    let g = Game::new(Config::standard());
    assert_eq!(g.state, GameState::Paused);
    assert_eq!(g.score, 0);
    assert_eq!(g.offset.raw, 0);
    assert_eq!(g.frames, 0);
    assert_eq!(g.pipes.len(), 10);
    assert_eq!(g.player.pos.x.raw, 0);
    assert_eq!(g.player.pos.y.raw, 0);
    assert!(!g.input_flap);
}

/// Ticks outside the Playing phase change nothing at all.
#[test]
fn paused_tick_is_inert() {
    let mut g = Game::new(Config::standard());
    g.tick();
    assert_eq!(g.frames, 0);
    assert_eq!(g.player.pos.y.raw, 0);
    assert_eq!(g.offset.raw, 0);
}

/// The flap input starts a paused game and sets the held flag; the next
/// tick then fires the impulse and rearms the cooldown.
#[test]
fn press_flap_starts_and_fires() {
    let mut g = Game::new(Config::standard());
    g.press_flap();
    assert_eq!(g.state, GameState::Playing);
    assert!(g.input_flap);
    g.tick();
    // flap set velocity.y to 9600, then gravity took one tick's 540.
    assert_eq!(g.player.velocity.y.raw, 9600 - 540);
    assert_eq!(g.flap_timeout.raw, 630);
    assert_eq!(g.frames, 1);
    assert_eq!(g.offset.raw, -2 * FX_SCALE);
    // The cooldown now blocks the held input.
    g.tick();
    assert_eq!(g.player.velocity.y.raw, 9600 - 2 * 540);
    assert_eq!(g.flap_timeout.raw, 600);
}

/// Releasing the flap input stops further impulses.
#[test]
fn release_flap_clears_flag() {
    let mut g = Game::new(Config::standard());
    g.press_flap();
    g.release_flap();
    assert!(!g.input_flap);
    assert_eq!(g.state, GameState::Playing);
}

/// Once the phase is GameOver, any number of further ticks leaves the
/// player's position, velocity and the score unchanged.
#[test]
fn gameover_absorbs_ticks() {
    let mut g = Game::new(Config::standard());
    g.press_flap();
    g.run_ticks(17);
    g.state = GameState::GameOver;
    let pos = g.player.pos;
    let vel = g.player.velocity;
    let score = g.score;
    let offset = g.offset;
    let frames = g.frames;
    g.run_ticks(100);
    g.tick();
    assert_eq!(g.player.pos, pos);
    assert_eq!(g.player.velocity, vel);
    assert_eq!(g.score, score);
    assert_eq!(g.offset, offset);
    assert_eq!(g.frames, frames);
}

/// The restart command while GameOver: phase becomes Paused, the score and
/// scroll offset reset, and a fresh full level of pipes is generated.
#[test]
fn restart_resets_world() {
    let mut g = Game::new(Config::standard());
    g.press_flap();
    g.run_ticks(50);
    g.score = 3;
    g.state = GameState::GameOver;
    g.press_restart();
    assert_eq!(g.state, GameState::Paused);
    assert_eq!(g.score, 0);
    assert_eq!(g.offset.raw, 0);
    assert_eq!(g.frames, 0);
    assert_eq!(g.pipes.len(), 10);
    assert_eq!(g.player.pos.y.raw, 0);
    assert_eq!(g.player.velocity.y.raw, 0);
}

/// The restart command in any other phase does nothing.
#[test]
fn restart_needs_gameover() {
    let mut g = Game::new(Config::standard());
    g.press_flap();
    g.run_ticks(5);
    let pos = g.player.pos;
    let frames = g.frames;
    g.press_restart();
    assert_eq!(g.state, GameState::Playing);
    assert_eq!(g.player.pos, pos);
    assert_eq!(g.frames, frames);
}

/// The edge-crossing test of one pipe: with the player's right edge at
/// x = 512 and a bottom pipe of half-width 13, the hit fires exactly while
/// that edge lies within the pipe's span [x - 13, x + 13].
#[test]
fn is_hit_crossing_window() {
    let player_right = fx_px(512);
    let player_top = fx_px(0);
    let player_bottom = fx_px(500);
    let mut pipe = Pipe::new();
    pipe.bbox_size = Vec2 { x: fx_px(13), y: fx_px(160) };
    // Anchor low enough that the vertical condition holds for a bottom pipe.
    pipe.pos = Vec2 { x: fx_px(510), y: fx_px(400) };
    assert_eq!(
        is_hit(player_right, player_top, player_bottom, &pipe),
        GameState::GameOver
    );
    // Right edge exactly on the pipe's left edge: 512 = 525 - 13.
    pipe.pos.x = fx_px(525);
    assert_eq!(
        is_hit(player_right, player_top, player_bottom, &pipe),
        GameState::GameOver
    );
    // One raw unit further and the edge no longer crosses.
    pipe.pos.x = Fx { raw: 525 * FX_SCALE + 1 };
    assert_eq!(
        is_hit(player_right, player_top, player_bottom, &pipe),
        GameState::Playing
    );
    // Right edge exactly on the pipe's right edge: 512 = 499 + 13.
    pipe.pos.x = fx_px(499);
    assert_eq!(
        is_hit(player_right, player_top, player_bottom, &pipe),
        GameState::GameOver
    );
    // One raw unit before that and the pipe has passed.
    pipe.pos.x = Fx { raw: 499 * FX_SCALE - 1 };
    assert_eq!(
        is_hit(player_right, player_top, player_bottom, &pipe),
        GameState::Playing
    );
}

/// A top pipe is told apart by its facing and tests the player's top edge.
#[test]
fn is_hit_top_pipe() {
    let player_right = fx_px(512);
    let player_top = fx_px(100);
    let player_bottom = fx_px(148);
    let mut pipe = Pipe::new();
    pipe.pos = Vec2 { x: fx_px(512), y: fx_px(50) };
    pipe.facing = Fx { raw: 5655 };
    // Pipe bottom = 50 + 160 = 210 >= player top 100: hit.
    assert_eq!(
        is_hit(player_right, player_top, player_bottom, &pipe),
        GameState::GameOver
    );
    // Far above: pipe bottom = -210 < player top: no hit.
    pipe.pos.y = fx_px(-370);
    assert_eq!(
        is_hit(player_right, player_top, player_bottom, &pipe),
        GameState::Playing
    );
}

/// Collisions through the whole fold: an in-view pipe at the player's edge
/// ends the game; pipes out of view leave the phase alone.
#[test]
fn handle_collisions_fold() {
    let mut g = Game::new(Config::standard());
    g.state = GameState::Playing;
    g.handle_collisions();
    assert_eq!(g.state, GameState::Playing);
    // Drop a bottom pipe onto the player's leading edge.
    // Player screen x = 504 + 14 = 518 at the right edge; pipe spans
    // [518 - 26, 518 + 26]; its top edge reaches up past the player.
    g.pipes[0].0.pos = Vec2 { x: fx_px(518), y: fx_px(400) };
    g.handle_collisions();
    assert_eq!(g.state, GameState::GameOver);
}

/// Reaching the floor ends the game at once, pipes or no pipes.
#[test]
fn handle_collisions_floor() {
    let mut g = Game::new(Config::standard());
    g.state = GameState::Playing;
    g.pipes.clear();
    // Screen y of the player's bottom edge reaches the background height.
    g.player.pos.y = fx_px(-600);
    g.handle_collisions();
    assert_eq!(g.state, GameState::GameOver);
}

/// The score counts exactly the pairs whose bottom pipe lies strictly
/// behind the player's scrolled position, recomputed from scratch.
#[test]
fn count_points_recomputes() {
    let mut g = Game::new(Config::standard());
    g.count_points();
    assert_eq!(g.score, 0);
    // Scroll the world far enough that the first pair is behind: the
    // player's obstacle-relative x becomes 504 + 556, past the pair at
    // x = 1004 but not the one at 1304.
    g.offset = fx_px(-556);
    g.count_points();
    assert_eq!(g.score, 1);
    // Player at 2504: pairs at 1004 through 2204 are strictly behind, the
    // pair exactly at 2504 is not.
    g.offset = fx_px(-2000);
    g.count_points();
    assert_eq!(g.score, 5);
    g.offset = fx_px(0);
    g.count_points();
    assert_eq!(g.score, 0);
}

/// Pruning drops exactly the pairs that have scrolled off behind the world
/// origin, and doing it twice with no intervening scroll changes nothing.
#[test]
fn pruning_and_idempotence() {
    let mut g = Game::new(Config::standard());
    g.clear_pipes();
    assert_eq!(g.pipes.len(), 10);
    // Scroll so the first pair's world-scrolled x is exactly 0: pruned.
    g.offset = fx_px(-1004);
    g.clear_pipes();
    assert_eq!(g.pipes.len(), 9);
    assert_eq!(g.pipes[0].0.pos.x.raw, 1304 * FX_SCALE);
    let once = g.pipes.clone();
    g.clear_pipes();
    assert_eq!(g.pipes, once);
}

/// The sprite signal: falling fast points down; otherwise the frame cycle
/// picks the pose.
#[test]
fn bird_sprite_selection() {
    let mut p = flappy_bird::actors::Player::new();
    assert_eq!(player_sprite(&p, 0), BirdSprite::UpFlap);
    assert_eq!(player_sprite(&p, 5), BirdSprite::UpFlap);
    assert_eq!(player_sprite(&p, 6), BirdSprite::MidFlap);
    assert_eq!(player_sprite(&p, 10), BirdSprite::MidFlap);
    assert_eq!(player_sprite(&p, 11), BirdSprite::DownFlap);
    p.velocity.y = Fx { raw: -3 * FX_SCALE - 1 };
    assert_eq!(player_sprite(&p, 0), BirdSprite::DownFlap);
    p.velocity.y = Fx { raw: -3 * FX_SCALE };
    assert_eq!(player_sprite(&p, 0), BirdSprite::UpFlap);
}

/// The countdown digits run 3, 2, 1 over the first three seconds.
#[test]
fn countdown_digits() {
    assert_eq!(countdown_digit(0), Some(3));
    assert_eq!(countdown_digit(60), Some(3));
    assert_eq!(countdown_digit(61), Some(2));
    assert_eq!(countdown_digit(120), Some(2));
    assert_eq!(countdown_digit(121), Some(1));
    assert_eq!(countdown_digit(180), Some(1));
    assert_eq!(countdown_digit(181), None);
}
