//! The entities of the world: the player-controlled bird and the obstacle
//! pipes, with the per-tick physics and the procedural obstacle layout.

use vstd::prelude::*;

use crate::config::Config;
use crate::config::GEOMETRY_BOUND;
use crate::fixed::FX_SCALE;
use crate::fixed::Fx;
use crate::fixed::fx;
use crate::fixed::fx_add;
use crate::fixed::fx_mul;
use crate::fixed::fx_sub;
use crate::fixed::lemma_fx_mul_unit;
use crate::fixed::tdiv2;
use crate::util::unit_vector_up;
use crate::vec2::Vec2;
use crate::vec2::v2;

verus! {

/// Half-width of the player's bounding box: 14.
pub const PLAYER_BBOX_X_RAW: i64 = 14 * FX_SCALE;

/// Half-height of the player's bounding box: 12.
pub const PLAYER_BBOX_Y_RAW: i64 = 12 * FX_SCALE;

/// Half-width of a pipe's bounding box: 26.
pub const PIPE_BBOX_X_RAW: i64 = 26 * FX_SCALE;

/// Half-height of a pipe's bounding box: 160.
pub const PIPE_BBOX_Y_RAW: i64 = 160 * FX_SCALE;

/// The facing angle of a top pipe: the fixed-point representative of pi
/// radians, the upside-down rotation. Any nonzero facing marks a top pipe.
pub const PI_RAW: i64 = 5655;

/// The player-controlled bird.
#[derive(Clone, Copy, Debug, PartialEq, Eq, Structural)]
pub struct Player {
    /// World-space location, origin-centered, Y up.
    pub pos: Vec2,
    /// Current velocity, in distance per tick.
    pub velocity: Vec2,
    /// Visual rotation angle, in radians.
    pub facing: Fx,
    /// Half-extents of the collision bounding box.
    pub bbox_size: Vec2,
}

/// One obstacle segment: the top or bottom half of a gap pair.
#[derive(Clone, Copy, Debug, PartialEq, Eq, Structural)]
pub struct Pipe {
    /// World-space anchor of the segment.
    pub pos: Vec2,
    /// 0 for a bottom pipe, the representative of pi for a top pipe.
    pub facing: Fx,
    /// Half-extents of the collision bounding box.
    pub bbox_size: Vec2,
}

impl Player {
    /// What `Player::new` returns.
    pub open spec fn spec_new() -> Player {
        Player {
            pos: v2(0, 0),
            velocity: v2(0, 0),
            facing: fx(0),
            bbox_size: v2(PLAYER_BBOX_X_RAW as int, PLAYER_BBOX_Y_RAW as int),
        }
    }

    /// A player at the world origin with zero velocity, zero facing, and the
    /// fixed bounding box.
    pub fn new() -> (p: Player)
        ensures
            p == Player::spec_new(),
    {
        Player {
            pos: Vec2::zero(),
            velocity: Vec2::zero(),
            facing: Fx::zero(),
            bbox_size: Vec2 {
                x: Fx { raw: PLAYER_BBOX_X_RAW },
                y: Fx { raw: PLAYER_BBOX_Y_RAW },
            },
        }
    }

    /// The state a flap impulse leaves: the velocity is replaced outright by
    /// the angle-zero unit vector (0, 1) scaled by the flap speed and the
    /// timestep, and the facing snaps to the steepest upward angle.
    pub open spec fn flapped(p: Player, cfg: Config, dt: Fx) -> Player {
        Player {
            velocity: Vec2 {
                x: fx(0),
                y: fx(fx_mul(cfg.flap_speed.raw as int, dt.raw as int)),
            },
            facing: cfg.up_angle_max,
            ..p
        }
    }

    /// Apply a flap impulse: replace the velocity, snap the facing upward.
    pub fn flap(&mut self, cfg: Config, dt: Fx)
        ensures
            *final(self) == Player::flapped(*old(self), cfg, dt),
    {
        proof {
            lemma_fx_mul_unit(cfg.flap_speed.raw as int);
        }
        let dir = unit_vector_up();
        let flap_vec = dir.scale(cfg.flap_speed);
        self.velocity = flap_vec.scale(dt);
        self.facing = cfg.up_angle_max;
    }

    /// How much velocity one tick of gravity removes.
    pub open spec fn grav_delta(cfg: Config, dt: Fx) -> int {
        fx_mul(cfg.fall_speed.raw as int, dt.raw as int)
    }

    /// The state one physics tick leaves: gravity pulls the velocity down,
    /// the velocity displaces the position, and the facing follows the new
    /// vertical velocity, clamped between the steepest angles.
    pub open spec fn updated(p: Player, cfg: Config, dt: Fx) -> Player {
        let vy = fx_sub(p.velocity.y.raw as int, Player::grav_delta(cfg, dt));
        let px = fx_add(p.pos.x.raw as int, p.velocity.x.raw as int);
        let py = fx_add(p.pos.y.raw as int, vy);
        let f1 = fx_sub(p.facing.raw as int, fx_mul(vy, dt.raw as int));
        let f2 = if f1 >= cfg.down_angle_max.raw {
            cfg.down_angle_max.raw as int
        } else if f1 <= cfg.up_angle_max.raw {
            cfg.up_angle_max.raw as int
        } else {
            f1
        };
        Player {
            pos: v2(px, py),
            velocity: Vec2 { x: p.velocity.x, y: fx(vy) },
            facing: fx(f2),
            bbox_size: p.bbox_size,
        }
    }

    /// One physics tick.
    pub fn update_pos(&mut self, cfg: Config, dt: Fx)
        ensures
            *final(self) == Player::updated(*old(self), cfg, dt),
    {
        proof {
            lemma_fx_mul_unit(cfg.fall_speed.raw as int);
        }
        let dir = unit_vector_up();
        let grav = dir.scale(cfg.fall_speed);
        self.velocity = self.velocity.sub(grav.scale(dt));
        self.pos = self.pos.add(self.velocity);
        self.facing = self.facing.sub(self.velocity.y.mul(dt));
        if self.facing.raw >= cfg.down_angle_max.raw {
            self.facing = cfg.down_angle_max;
        } else if self.facing.raw <= cfg.up_angle_max.raw {
            self.facing = cfg.up_angle_max;
        }
    }

    /// The state `n` physics ticks leave, with no intervening flap.
    pub open spec fn updated_n(p: Player, cfg: Config, dt: Fx, n: nat) -> Player
        decreases n,
    {
        if n == 0 {
            p
        } else {
            Player::updated(Player::updated_n(p, cfg, dt, (n - 1) as nat), cfg, dt)
        }
    }

    /// Gravity is strictly monotone: as long as one tick of gravity removes
    /// a positive amount of velocity and the vertical velocity stays above
    /// the saturation floor, each of `n` consecutive ticks with no
    /// intervening flap strictly decreases it, by exactly that amount.
    pub proof fn lemma_gravity_monotonic(p: Player, cfg: Config, dt: Fx, n: nat)
        requires
            0 < Player::grav_delta(cfg, dt),
            1 <= n,
            i64::MIN + n * Player::grav_delta(cfg, dt) <= p.velocity.y.raw,
        ensures
            Player::updated_n(p, cfg, dt, n).velocity.y.raw == p.velocity.y.raw - n
                * Player::grav_delta(cfg, dt),
            Player::updated_n(p, cfg, dt, n).velocity.y.raw < Player::updated_n(
                p,
                cfg,
                dt,
                (n - 1) as nat,
            ).velocity.y.raw,
        decreases n,
    {
        let d = Player::grav_delta(cfg, dt);
        let prev = Player::updated_n(p, cfg, dt, (n - 1) as nat);
        assert(Player::updated_n(p, cfg, dt, n) == Player::updated(prev, cfg, dt));
        assert((n - 1) * d == n * d - d && n * d >= d) by (nonlinear_arith)
            requires
                0 < d,
                1 <= n,
        ;
        if n == 1 {
            assert(prev == p);
        } else {
            Player::lemma_gravity_monotonic(p, cfg, dt, (n - 1) as nat);
        }
        assert(prev.velocity.y.raw == p.velocity.y.raw - (n - 1) * d);
        assert(i64::MIN <= prev.velocity.y.raw - d <= i64::MAX);
        assert(Player::updated(prev, cfg, dt).velocity.y.raw == prev.velocity.y.raw - d);
    }

    /// A flap replaces the velocity outright: whatever the prior state, the
    /// impulse leaves the same velocity, the angle-zero unit vector scaled
    /// by the flap speed and the timestep.
    pub proof fn lemma_flap_replaces_velocity(p1: Player, p2: Player, cfg: Config, dt: Fx)
        ensures
            Player::flapped(p1, cfg, dt).velocity == Player::flapped(p2, cfg, dt).velocity,
            Player::flapped(p1, cfg, dt).velocity == (Vec2 {
                x: fx(0),
                y: fx(fx_mul(cfg.flap_speed.raw as int, dt.raw as int)),
            }),
    {
    }

    /// After any physics tick the facing lies between the steepest upward
    /// and downward angles, whatever it was before.
    pub proof fn lemma_facing_clamped(p: Player, cfg: Config, dt: Fx)
        requires
            cfg.up_angle_max.raw <= cfg.down_angle_max.raw,
        ensures
            cfg.up_angle_max.raw <= Player::updated(p, cfg, dt).facing.raw
                <= cfg.down_angle_max.raw,
    {
    }
}

impl Pipe {
    /// What `Pipe::new` returns.
    pub open spec fn spec_new() -> Pipe {
        Pipe {
            pos: v2(0, 0),
            facing: fx(0),
            bbox_size: v2(PIPE_BBOX_X_RAW as int, PIPE_BBOX_Y_RAW as int),
        }
    }

    /// A pipe at the world origin with zero facing and the fixed,
    /// pipe-specific bounding box.
    pub fn new() -> (p: Pipe)
        ensures
            p == Pipe::spec_new(),
    {
        Pipe {
            pos: Vec2::zero(),
            facing: Fx::zero(),
            bbox_size: Vec2 { x: Fx { raw: PIPE_BBOX_X_RAW }, y: Fx { raw: PIPE_BBOX_Y_RAW } },
        }
    }
}

impl Default for Player {
    /// The same state `Player::new` gives.
    fn default() -> (p: Player)
        ensures
            p == Player::spec_new(),
    {
        Player::new()
    }
}

impl Default for Pipe {
    /// The same state `Pipe::new` gives.
    fn default() -> (p: Pipe)
        ensures
            p == Pipe::spec_new(),
    {
        Pipe::new()
    }
}

/// The x-coordinate of the pair at index `j`: a base anchor past the middle
/// of the screen, then one spacing step per pair.
pub open spec fn pair_x(cfg: Config, j: int) -> int {
    tdiv2(cfg.screen_width.raw as int) + cfg.first_pipe_x.raw + (j + 1) * cfg.between_pipe.raw
}

/// The shape every generated pair keeps for its whole life: the two pipes
/// share their x-coordinate, the bottom pipe faces up and the top pipe is
/// flipped, their anchors are separated by the full gap plus one pipe
/// height, and both carry the fixed pipe bounding box.
pub open spec fn pair_shape(cfg: Config, pair: (Pipe, Pipe)) -> bool {
    &&& pair.1.pos.x == pair.0.pos.x
    &&& pair.0.facing.raw == 0
    &&& pair.1.facing.raw == PI_RAW
    &&& pair.0.pos.y.raw - pair.1.pos.y.raw == 2 * (cfg.pipe_gap.raw + cfg.pipe_half_height.raw)
    &&& pair.0.bbox_size == v2(PIPE_BBOX_X_RAW as int, PIPE_BBOX_Y_RAW as int)
    &&& pair.1.bbox_size == v2(PIPE_BBOX_X_RAW as int, PIPE_BBOX_Y_RAW as int)
}

/// The bottom pipe's anchor stays in the band that a gap centre drawn
/// between `min_range` and `bg_height - min_range` allows.
pub open spec fn pair_in_band(cfg: Config, pair: (Pipe, Pipe)) -> bool {
    let off = cfg.pipe_gap.raw + cfg.pipe_half_height.raw;
    cfg.min_range.raw + off <= pair.0.pos.y.raw < cfg.bg_height.raw - cfg.min_range.raw + off
}

/// Everything `gen_pipes` guarantees of the pair at index `j`.
pub open spec fn pair_wf(cfg: Config, pair: (Pipe, Pipe), j: int) -> bool {
    &&& pair_shape(cfg, pair)
    &&& pair_in_band(cfg, pair)
    &&& pair.0.pos.x.raw == pair_x(cfg, j)
}

/// Relies on rand::random_range: a uniform sample from a half-open integer
/// range, drawn from the thread-local generator; on a nonempty range the
/// sample lies inside it.
#[verifier::external_body]
fn sample_range(lo: i64, hi: i64) -> (r: i64)
    requires
        lo < hi,
    ensures
        lo <= r < hi,
{
    rand::random_range(lo..hi)
}

/// Lay out one level of obstacle pairs: for each index a bottom and a top
/// pipe sharing one x-coordinate and one randomly placed vertical gap, the
/// x-coordinates strictly increasing by exactly the spacing constant.
pub fn gen_pipes(cfg: &Config) -> (pipes: Vec<(Pipe, Pipe)>)
    requires
        cfg.wf(),
    ensures
        pipes@.len() == cfg.pair_count,
        forall|j: int| 0 <= j < pipes@.len() ==> #[trigger] pair_wf(*cfg, pipes@[j], j),
        forall|j: int|
            0 <= j < pipes@.len() - 1 ==> #[trigger] pipes@[j + 1].0.pos.x.raw - pipes@[
                j
            ].0.pos.x.raw == cfg.between_pipe.raw,
{
    let base: i64 = cfg.screen_width.half().raw + cfg.first_pipe_x.raw;
    let off: i64 = cfg.pipe_gap.raw + cfg.pipe_half_height.raw;
    let mut pipes: Vec<(Pipe, Pipe)> = Vec::new();
    let mut i: usize = 0;
    while i < cfg.pair_count
        invariant
            cfg.wf(),
            base == tdiv2(cfg.screen_width.raw as int) + cfg.first_pipe_x.raw,
            off == cfg.pipe_gap.raw + cfg.pipe_half_height.raw,
            i <= cfg.pair_count,
            pipes@.len() == i,
            forall|j: int| 0 <= j < i ==> #[trigger] pair_wf(*cfg, pipes@[j], j),
        decreases cfg.pair_count - i,
    {
        proof {
            assert(0 < ((i + 1) as int) * (cfg.between_pipe.raw as int) <= 0x10001 * (
            GEOMETRY_BOUND as int)) by (nonlinear_arith)
                requires
                    0 < (i + 1) as int <= 0x10001,
                    0 < cfg.between_pipe.raw as int <= GEOMETRY_BOUND as int,
            ;
        }
        let new_x: i64 = base + ((i + 1) as i64) * cfg.between_pipe.raw;
        let opening: i64 = sample_range(cfg.min_range.raw, cfg.bg_height.raw - cfg.min_range.raw);
        let mut bottom_pipe = Pipe::new();
        bottom_pipe.pos = Vec2 { x: Fx { raw: new_x }, y: Fx { raw: opening + off } };
        let mut top_pipe = Pipe::new();
        top_pipe.pos = Vec2 { x: Fx { raw: new_x }, y: Fx { raw: opening - off } };
        top_pipe.facing = Fx { raw: PI_RAW };
        pipes.push((bottom_pipe, top_pipe));
        i = i + 1;
    }
    proof {
        assert forall|j: int| 0 <= j < pipes@.len() - 1 implies #[trigger] pipes@[j
            + 1].0.pos.x.raw - pipes@[j].0.pos.x.raw == cfg.between_pipe.raw by {
            assert(pair_wf(*cfg, pipes@[j], j));
            assert(pair_wf(*cfg, pipes@[j + 1], j + 1));
            assert((j + 2) * (cfg.between_pipe.raw as int) - (j + 1) * (cfg.between_pipe.raw as int)
                == cfg.between_pipe.raw as int) by (nonlinear_arith);
        }
    }
    pipes
}

} // verus!
