//! The immutable configuration of a game: physics constants, screen and
//! sprite geometry, and the obstacle-layout parameters. It is built once at
//! startup and passed to every component that needs it.

use vstd::prelude::*;

use crate::fixed::Fx;
use crate::fixed::FX_SCALE;

verus! {

/// Gravity, in units per second of velocity lost per tick: 18.
pub const FALL_SPEED_RAW: i64 = 18 * FX_SCALE;

/// Velocity set by a flap impulse, per second: 320.
pub const FLAP_SPEED_RAW: i64 = 320 * FX_SCALE;

/// Cooldown between two flaps: 0.35 seconds, exactly 630 raw units.
pub const FLAP_TIMEOUT_RAW: i64 = 630;

/// World scroll per tick: 2.
pub const MOVE_SPEED_RAW: i64 = 2 * FX_SCALE;

/// One simulation tick: 1/60 of a second, exactly 30 raw units.
pub const DT_RAW: i64 = 30;

/// Screen width in pixels: 1008.
pub const SCREEN_WIDTH_RAW: i64 = 1008 * FX_SCALE;

/// Screen height in pixels: 624.
pub const SCREEN_HEIGHT_RAW: i64 = 624 * FX_SCALE;

/// Steepest upward facing angle: -0.45 radians, exactly -810 raw units.
pub const UP_ANGLE_MAX_RAW: i64 = -810;

/// Steepest downward facing angle: 1.5 radians, exactly 2700 raw units.
pub const DOWN_ANGLE_MAX_RAW: i64 = 2700;

/// Half of the vertical gap between the two pipes of a pair: 40.
pub const PIPE_GAP_RAW: i64 = 40 * FX_SCALE;

/// Horizontal spacing between consecutive pipe pairs: 300.
pub const BETWEEN_PIPE_RAW: i64 = 300 * FX_SCALE;

/// Offset of the first pair past the middle of the screen: 200.
pub const FIRST_PIPE_X_RAW: i64 = 200 * FX_SCALE;

/// The random gap centre keeps at least this distance from either edge of
/// the background: 155.
pub const MIN_RANGE_RAW: i64 = 155 * FX_SCALE;

/// How many pipe pairs a level holds.
pub const PAIR_COUNT: usize = 10;

/// Height of the stock background sprite in pixels: 512.
pub const BG_HEIGHT_RAW: i64 = 512 * FX_SCALE;

/// Half the height of the stock pipe sprite in pixels: 160.
pub const PIPE_HALF_HEIGHT_RAW: i64 = 160 * FX_SCALE;

/// Bound on the magnitude of the geometry parameters, far beyond any screen,
/// under which the generator's arithmetic stays exact.
pub const GEOMETRY_BOUND: i64 = 0x4000_0000_0000;

/// The static configuration, fixed at process start.
#[derive(Clone, Copy, Debug, PartialEq, Eq, Structural)]
pub struct Config {
    /// Gravity: velocity lost per tick, per second.
    pub fall_speed: Fx,
    /// Velocity a flap impulse sets, per second.
    pub flap_speed: Fx,
    /// Cooldown between two flaps, in seconds.
    pub flap_timeout: Fx,
    /// World scroll per tick.
    pub move_speed: Fx,
    /// Length of one simulation tick, in seconds.
    pub dt: Fx,
    /// Screen width in pixels.
    pub screen_width: Fx,
    /// Screen height in pixels.
    pub screen_height: Fx,
    /// Steepest upward facing angle, in radians.
    pub up_angle_max: Fx,
    /// Steepest downward facing angle, in radians.
    pub down_angle_max: Fx,
    /// Half of the vertical gap of a pipe pair.
    pub pipe_gap: Fx,
    /// Horizontal spacing between consecutive pipe pairs.
    pub between_pipe: Fx,
    /// Offset of the first pair past the middle of the screen.
    pub first_pipe_x: Fx,
    /// Minimum distance of the random gap centre from the background edges.
    pub min_range: Fx,
    /// How many pipe pairs a level holds.
    pub pair_count: usize,
    /// Height of the background sprite, in pixels.
    pub bg_height: Fx,
    /// Half the height of the pipe sprite, in pixels.
    pub pipe_half_height: Fx,
}

impl Config {
    /// Well-formedness: the signs the rules rely on, room for the random gap
    /// band, and magnitudes under which the obstacle generator's arithmetic
    /// is exact.
    pub open spec fn wf(self) -> bool {
        &&& 0 < self.dt.raw
        &&& 0 < self.fall_speed.raw
        &&& 0 <= self.flap_speed.raw
        &&& 0 <= self.flap_timeout.raw
        &&& 0 <= self.move_speed.raw
        &&& self.up_angle_max.raw <= 0 <= self.down_angle_max.raw
        &&& 0 < self.screen_width.raw <= GEOMETRY_BOUND
        &&& 0 < self.screen_height.raw <= GEOMETRY_BOUND
        &&& 0 < self.bg_height.raw <= GEOMETRY_BOUND
        &&& 0 <= self.pipe_gap.raw <= GEOMETRY_BOUND
        &&& 0 < self.between_pipe.raw <= GEOMETRY_BOUND
        &&& 0 <= self.first_pipe_x.raw <= GEOMETRY_BOUND
        &&& 0 <= self.pipe_half_height.raw <= GEOMETRY_BOUND
        &&& 0 < self.min_range.raw
        &&& 2 * self.min_range.raw < self.bg_height.raw
        &&& 0 < self.pair_count <= 0x10000
    }

    /// The stock configuration.
    pub open spec fn spec_standard() -> Config {
        Config {
            fall_speed: Fx { raw: FALL_SPEED_RAW },
            flap_speed: Fx { raw: FLAP_SPEED_RAW },
            flap_timeout: Fx { raw: FLAP_TIMEOUT_RAW },
            move_speed: Fx { raw: MOVE_SPEED_RAW },
            dt: Fx { raw: DT_RAW },
            screen_width: Fx { raw: SCREEN_WIDTH_RAW },
            screen_height: Fx { raw: SCREEN_HEIGHT_RAW },
            up_angle_max: Fx { raw: UP_ANGLE_MAX_RAW },
            down_angle_max: Fx { raw: DOWN_ANGLE_MAX_RAW },
            pipe_gap: Fx { raw: PIPE_GAP_RAW },
            between_pipe: Fx { raw: BETWEEN_PIPE_RAW },
            first_pipe_x: Fx { raw: FIRST_PIPE_X_RAW },
            min_range: Fx { raw: MIN_RANGE_RAW },
            pair_count: PAIR_COUNT,
            bg_height: Fx { raw: BG_HEIGHT_RAW },
            pipe_half_height: Fx { raw: PIPE_HALF_HEIGHT_RAW },
        }
    }

    /// The stock configuration, with the standard constants and sprite
    /// sizes.
    pub fn standard() -> (c: Config)
        ensures
            c == Config::spec_standard(),
            c.wf(),
    {
        Config {
            fall_speed: Fx { raw: FALL_SPEED_RAW },
            flap_speed: Fx { raw: FLAP_SPEED_RAW },
            flap_timeout: Fx { raw: FLAP_TIMEOUT_RAW },
            move_speed: Fx { raw: MOVE_SPEED_RAW },
            dt: Fx { raw: DT_RAW },
            screen_width: Fx { raw: SCREEN_WIDTH_RAW },
            screen_height: Fx { raw: SCREEN_HEIGHT_RAW },
            up_angle_max: Fx { raw: UP_ANGLE_MAX_RAW },
            down_angle_max: Fx { raw: DOWN_ANGLE_MAX_RAW },
            pipe_gap: Fx { raw: PIPE_GAP_RAW },
            between_pipe: Fx { raw: BETWEEN_PIPE_RAW },
            first_pipe_x: Fx { raw: FIRST_PIPE_X_RAW },
            min_range: Fx { raw: MIN_RANGE_RAW },
            pair_count: PAIR_COUNT,
            bg_height: Fx { raw: BG_HEIGHT_RAW },
            pipe_half_height: Fx { raw: PIPE_HALF_HEIGHT_RAW },
        }
    }

    /// The stock configuration adjusted to the sprites actually loaded: the
    /// background height and the full pipe-sprite height, both in pixels.
    /// The background must leave room for the random gap band.
    pub fn with_sprite_sizes(bg_h: u16, pipe_img_h: u16) -> (c: Config)
        requires
            310 < bg_h,
        ensures
            c == (Config {
                bg_height: Fx { raw: (bg_h as int * FX_SCALE as int) as i64 },
                pipe_half_height: Fx { raw: (pipe_img_h as int * (FX_SCALE as int / 2)) as i64 },
                ..Config::spec_standard()
            }),
            c.wf(),
    {
        let mut c = Config::standard();
        c.bg_height = Fx { raw: (bg_h as i64) * FX_SCALE };
        c.pipe_half_height = Fx { raw: (pipe_img_h as i64) * (FX_SCALE / 2) };
        c
    }
}

} // verus!
