//! Physics of the player: gravity, flap impulses, facing clamp, coordinate
//! translation and the fixed-timestep accumulator.

use flappy_bird::Fx;
use flappy_bird::FX_SCALE;
use flappy_bird::actors::Player;
use flappy_bird::config::Config;
use flappy_bird::driver::TickAccumulator;
use flappy_bird::util::translate_coords;
use flappy_bird::vec2::Vec2;

/// One tick from rest: velocity.y = -18/60 = -0.3 and position.y = -0.3,
/// exactly (-0.3 is -540 raw units at scale 1800).
#[test]
fn update_pos_first_tick_exact() {
    let cfg = Config::standard();
    let mut p = Player::new();
    p.update_pos(cfg, cfg.dt);
    assert_eq!(p.velocity.y.raw, -540);
    assert_eq!(p.velocity.x.raw, 0);
    assert_eq!(p.pos.y.raw, -540);
    assert_eq!(p.pos.x.raw, 0);
}

/// Repeated ticks with no flap strictly decrease the vertical velocity, by
/// the same exact amount each tick; there is no hidden floor.
#[test]
fn gravity_monotonic() {
    let cfg = Config::standard();
    let mut p = Player::new();
    let mut prev = p.velocity.y.raw;
    for i in 1..=1000u32 {
        p.update_pos(cfg, cfg.dt);
        assert!(p.velocity.y.raw < prev);
        assert_eq!(p.velocity.y.raw, prev - 540);
        assert_eq!(p.velocity.y.raw, -540 * i as i64);
        prev = p.velocity.y.raw;
    }
}

/// A flap replaces the velocity outright, whatever it was before, with
/// exactly (0, FLAP_SPEED * dt) = (0, 320/60), and snaps the facing to the
/// steepest upward angle.
#[test]
fn flap_replaces_velocity() {
    let cfg = Config::standard();
    let mut p = Player::new();
    for _ in 0..37 {
        p.update_pos(cfg, cfg.dt);
    }
    assert_ne!(p.velocity.y.raw, 0);
    p.flap(cfg, cfg.dt);
    assert_eq!(p.velocity.x.raw, 0);
    assert_eq!(p.velocity.y.raw, 9600); // 320/60 = 9600/1800
    assert_eq!(p.facing.raw, -810);

    let mut q = Player::new();
    q.flap(cfg, cfg.dt);
    assert_eq!(q.velocity, p.velocity);
}

/// Across any sequence of ticks and flaps the facing never leaves
/// [UP_ANGLE_MAX, DOWN_ANGLE_MAX], and it does reach the downward clamp.
#[test]
fn facing_stays_clamped() {
    let cfg = Config::standard();
    let mut p = Player::new();
    let mut hit_down_clamp = false;
    for i in 0..2000u32 {
        if i % 97 == 0 {
            p.flap(cfg, cfg.dt);
            assert_eq!(p.facing.raw, -810);
        }
        p.update_pos(cfg, cfg.dt);
        assert!(p.facing.raw >= -810);
        assert!(p.facing.raw <= 2700);
        if p.facing.raw == 2700 {
            hit_down_clamp = true;
        }
    }
    assert!(hit_down_clamp);
}

/// The world origin maps to the middle of the screen, upper half: Y flips.
#[test]
fn translate_coords_origin() {
    let cfg = Config::standard();
    let p = translate_coords(
        Vec2 { x: Fx { raw: 0 }, y: Fx { raw: 0 } },
        cfg.screen_width,
        cfg.screen_height,
    );
    assert_eq!(p.x.raw, 504 * FX_SCALE);
    assert_eq!(p.y.raw, 312 * FX_SCALE);
}

/// A point above the world origin lands higher on the screen (smaller
/// screen y).
#[test]
fn translate_coords_flips_y() {
    let cfg = Config::standard();
    let p = translate_coords(
        Vec2 { x: Fx { raw: -100 * FX_SCALE }, y: Fx { raw: 50 * FX_SCALE } },
        cfg.screen_width,
        cfg.screen_height,
    );
    assert_eq!(p.x.raw, 404 * FX_SCALE);
    assert_eq!(p.y.raw, 262 * FX_SCALE);
}

/// The accumulator drains whole ticks and carries the exact remainder.
#[test]
fn tick_accumulator_carries_remainder() {
    let cfg = Config::standard();
    let mut acc = TickAccumulator::new();
    // 2.5 ticks' worth of time: two ticks now, half a tick carried.
    let n = acc.advance(Fx { raw: 75 }, cfg.dt);
    assert_eq!(n, 2);
    assert_eq!(acc.residual.raw, 15);
    // Half a tick more completes exactly one tick.
    let n = acc.advance(Fx { raw: 15 }, cfg.dt);
    assert_eq!(n, 1);
    assert_eq!(acc.residual.raw, 0);
    // Nothing elapsed: nothing to run.
    let n = acc.advance(Fx { raw: 0 }, cfg.dt);
    assert_eq!(n, 0);
    assert_eq!(acc.residual.raw, 0);
}

/// Saturating fixed-point arithmetic: exact in range, clamped at the ends.
#[test]
fn fixed_point_arithmetic() {
    let a = Fx { raw: 3 * FX_SCALE };
    let b = Fx { raw: 5 * FX_SCALE };
    assert_eq!(a.add(b).raw, 8 * FX_SCALE);
    assert_eq!(a.sub(b).raw, -2 * FX_SCALE);
    assert_eq!(a.mul(b).raw, 15 * FX_SCALE);
    assert_eq!(Fx { raw: i64::MAX }.add(Fx { raw: 1 }).raw, i64::MAX);
    assert_eq!(Fx { raw: i64::MIN }.sub(Fx { raw: 1 }).raw, i64::MIN);
    assert_eq!(Fx::from_units(7).raw, 7 * FX_SCALE);
    assert_eq!(Fx { raw: -7 }.half().raw, -3);
    assert_eq!(Fx { raw: 7 }.half().raw, 3);
}
