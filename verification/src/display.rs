//! The discrete signals the core hands the renderer: which bird sprite
//! variant to draw, and which countdown digit, if any.

use vstd::prelude::*;

use crate::actors::Player;
use crate::fixed::FX_SCALE;

verus! {

/// The three flap poses of the bird sprite.
#[derive(Clone, Copy, Debug, PartialEq, Eq, Structural)]
pub enum BirdSprite {
    UpFlap,
    MidFlap,
    DownFlap,
}

/// What `player_sprite` returns.
pub open spec fn spec_player_sprite(p: Player, frames: u64) -> BirdSprite {
    if p.velocity.y.raw < -3 * FX_SCALE {
        BirdSprite::DownFlap
    } else if frames <= 5 {
        BirdSprite::UpFlap
    } else if frames <= 10 {
        BirdSprite::MidFlap
    } else {
        BirdSprite::DownFlap
    }
}

/// Select the bird sprite variant: point down when falling fast, otherwise
/// cycle through the poses by the frame counter (the caller passes the
/// counter reduced to its animation cycle).
pub fn player_sprite(p: &Player, frames: u64) -> (s: BirdSprite)
    ensures
        s == spec_player_sprite(*p, frames),
{
    if p.velocity.y.raw < -3 * FX_SCALE {
        return BirdSprite::DownFlap;
    }
    if frames <= 5 {
        BirdSprite::UpFlap
    } else if frames <= 10 {
        BirdSprite::MidFlap
    } else {
        BirdSprite::DownFlap
    }
}

/// The countdown digit shown while the countdown phase runs: 3, then 2,
/// then 1, one second each at sixty ticks per second, then nothing.
pub fn countdown_digit(frames: u64) -> (d: Option<u8>)
    ensures
        d == (if frames <= 60 {
            Some(3u8)
        } else if frames <= 120 {
            Some(2u8)
        } else if frames <= 180 {
            Some(1u8)
        } else {
            None::<u8>
        }),
{
    if frames <= 60 {
        Some(3)
    } else if frames <= 120 {
        Some(2)
    } else if frames <= 180 {
        Some(1)
    } else {
        None
    }
}

} // verus!
