//! The procedural obstacle layout: the pair invariant, the exact spacing,
//! and the band the random gap centre is confined to.

use flappy_bird::FX_SCALE;
use flappy_bird::actors::gen_pipes;
use flappy_bird::config::Config;

/// Every generated pair shares one x-coordinate and keeps the fixed
/// vertical separation of 2*GAP + pipe height, for every seed.
#[test]
fn pair_invariant() {
    let cfg = Config::standard();
    for _ in 0..20 {
        let pipes = gen_pipes(&cfg);
        assert_eq!(pipes.len(), 10);
        for (bottom, top) in &pipes {
            assert_eq!(bottom.pos.x.raw, top.pos.x.raw);
            // 2 * (40 + 160) = 400 pixels apart.
            assert_eq!(bottom.pos.y.raw - top.pos.y.raw, 400 * FX_SCALE);
            assert_eq!(bottom.facing.raw, 0);
            assert_ne!(top.facing.raw, 0);
        }
    }
}

/// Pair x-coordinates start past the middle of the screen and increase by
/// exactly the spacing constant.
#[test]
fn monotone_spacing() {
    let cfg = Config::standard();
    let pipes = gen_pipes(&cfg);
    // 1008/2 + 200 + 300 = 1004 pixels for the first pair.
    assert_eq!(pipes[0].0.pos.x.raw, 1004 * FX_SCALE);
    for w in pipes.windows(2) {
        assert_eq!(w[1].0.pos.x.raw - w[0].0.pos.x.raw, 300 * FX_SCALE);
        assert!(w[1].0.pos.x.raw > w[0].0.pos.x.raw);
    }
}

/// The random gap centre stays at least MIN_RANGE away from both edges of
/// the background: the bottom pipe's anchor lies in the derived band.
#[test]
fn opening_stays_in_band() {
    let cfg = Config::standard();
    for _ in 0..20 {
        let pipes = gen_pipes(&cfg);
        for (bottom, top) in &pipes {
            // opening in [155, 512 - 155), anchor = opening + 40 + 160.
            assert!(bottom.pos.y.raw >= (155 + 200) * FX_SCALE);
            assert!(bottom.pos.y.raw < (512 - 155 + 200) * FX_SCALE);
            assert_eq!(top.pos.y.raw, bottom.pos.y.raw - 400 * FX_SCALE);
        }
    }
}

/// The gap placement is actually drawn anew for each pair: across several
/// levels the openings are not all one constant.
#[test]
fn openings_vary() {
    let cfg = Config::standard();
    let mut heights = Vec::new();
    for _ in 0..5 {
        for (bottom, _) in gen_pipes(&cfg) {
            heights.push(bottom.pos.y.raw);
        }
    }
    let first = heights[0];
    assert!(heights.iter().any(|h| *h != first));
}

/// The generator follows the configured geometry, not only the stock one.
#[test]
fn generator_follows_config() {
    let cfg = Config::with_sprite_sizes(400, 100);
    let pipes = gen_pipes(&cfg);
    assert_eq!(pipes.len(), 10);
    for (bottom, top) in &pipes {
        // 2 * (40 + 50) = 180 pixels apart.
        assert_eq!(bottom.pos.y.raw - top.pos.y.raw, 180 * FX_SCALE);
        // opening in [155, 400 - 155), anchor = opening + 40 + 50.
        assert!(bottom.pos.y.raw >= (155 + 90) * FX_SCALE);
        assert!(bottom.pos.y.raw < (400 - 155 + 90) * FX_SCALE);
    }
}

/// The stock sprite sizes reproduce the stock configuration.
#[test]
fn with_sprite_sizes_matches_standard() {
    let cfg = Config::with_sprite_sizes(512, 320);
    assert_eq!(cfg, Config::standard());
}
