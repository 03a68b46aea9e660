//! The whole game world and its rules: the fixed-timestep tick, the
//! collision fold with its absorbing `GameOver`, the recomputed score, the
//! lazy pruning of off-screen obstacle pairs, and the input-driven phase
//! transitions.

use vstd::prelude::*;

use crate::actors::Pipe;
use crate::actors::Player;
use crate::actors::pair_wf;
use crate::config::Config;
use crate::fixed::Fx;
use crate::fixed::fx;
use crate::fixed::fx_add;
use crate::fixed::fx_sub;
use crate::fixed::tdiv2;
use crate::gamestate::GameState;
use crate::util::spec_translate_coords;
use crate::util::translate_coords;

verus! {

/// The full state of one game.
pub struct Game {
    /// The immutable configuration the game was started with.
    pub cfg: Config,
    /// The player-controlled bird.
    pub player: Player,
    /// The live obstacle pairs, as (bottom, top), ordered by increasing x.
    pub pipes: Vec<(Pipe, Pipe)>,
    /// The current level. The game never advances it past 0.
    pub level: usize,
    /// Count of pairs the player has passed, recomputed every Playing tick.
    pub score: usize,
    /// Whether the flap input is currently held.
    pub input_flap: bool,
    /// Time left until the next flap impulse may fire, in seconds.
    pub flap_timeout: Fx,
    /// Cumulative leftward world scroll; decreases while Playing.
    pub offset: Fx,
    /// Count of simulation ticks run so far.
    pub frames: u64,
    /// The current phase.
    pub state: GameState,
}

/// The player's position in screen coordinates, shifted by the world scroll
/// into obstacle-relative x.
pub open spec fn spec_player_screen_x(g: Game) -> int {
    fx_sub(
        spec_translate_coords(g.player.pos, g.cfg.screen_width, g.cfg.screen_height).x.raw as int,
        g.offset.raw as int,
    )
}

/// The player's position in screen coordinates, y component.
pub open spec fn spec_player_screen_y(g: Game) -> int {
    spec_translate_coords(g.player.pos, g.cfg.screen_width, g.cfg.screen_height).y.raw as int
}

/// The player's leading (right) edge in obstacle-relative coordinates.
pub open spec fn spec_player_right(g: Game) -> int {
    fx_add(spec_player_screen_x(g), g.player.bbox_size.x.raw as int)
}

/// The player's top edge in screen coordinates.
pub open spec fn spec_player_top(g: Game) -> int {
    fx_sub(spec_player_screen_y(g), g.player.bbox_size.y.raw as int)
}

/// The player's bottom edge in screen coordinates.
pub open spec fn spec_player_bottom(g: Game) -> int {
    fx_add(spec_player_screen_y(g), g.player.bbox_size.y.raw as int)
}

/// The edge-crossing test of `is_hit`: the player's right edge lies within
/// the pipe's horizontal span, and the pipe's half of the gap is crossed
/// vertically (or the player has left the world below its floor).
pub open spec fn spec_hit(player_right: int, player_top: int, player_bottom: int, pipe: Pipe) -> bool {
    let top = pipe.facing.raw != 0;
    let pipe_right = fx_add(pipe.pos.x.raw as int, pipe.bbox_size.x.raw as int);
    let pipe_left = fx_sub(pipe.pos.x.raw as int, pipe.bbox_size.x.raw as int);
    let pipe_top = fx_sub(pipe.pos.y.raw as int, pipe.bbox_size.y.raw as int);
    let pipe_bottom = fx_add(pipe.pos.y.raw as int, pipe.bbox_size.y.raw as int);
    let crosses_left = pipe_left <= player_right && player_right <= pipe_right;
    crosses_left && (((top && player_top <= pipe_bottom) || (!top && player_bottom >= pipe_top))
        || player_bottom <= 0)
}

/// Whether the pair lies within one screen-width of the player and is
/// therefore tested for collision.
pub open spec fn spec_pair_in_view(g: Game, pair: (Pipe, Pipe)) -> bool {
    let half_w = tdiv2(g.cfg.screen_width.raw as int);
    fx_sub(spec_player_screen_x(g), half_w) <= pair.0.pos.x.raw
        && pair.0.pos.x.raw <= fx_add(spec_player_screen_x(g), half_w)
}

/// Whether either pipe of the pair is hit.
pub open spec fn spec_pair_hit(g: Game, pair: (Pipe, Pipe)) -> bool {
    spec_hit(spec_player_right(g), spec_player_top(g), spec_player_bottom(g), pair.1) || spec_hit(
        spec_player_right(g),
        spec_player_top(g),
        spec_player_bottom(g),
        pair.0,
    )
}

/// The collision fold over the first `k` pairs: pairs out of view leave the
/// phase alone; once the phase is `GameOver` it stays; an in-view pair makes
/// the phase `GameOver` exactly when hit, else `Playing`.
pub open spec fn spec_fold_state(g: Game, k: int) -> GameState
    decreases k,
{
    if k <= 0 {
        g.state
    } else {
        let prev = spec_fold_state(g, k - 1);
        let pair = g.pipes@[k - 1];
        if spec_pair_in_view(g, pair) {
            if prev == GameState::GameOver {
                GameState::GameOver
            } else if spec_pair_hit(g, pair) {
                GameState::GameOver
            } else {
                GameState::Playing
            }
        } else {
            prev
        }
    }
}

/// The phase `handle_collisions` leaves: `GameOver` at once if the player's
/// bottom edge has reached the floor, otherwise the collision fold over all
/// pairs.
pub open spec fn spec_collide_state(g: Game) -> GameState {
    if spec_player_bottom(g) >= g.cfg.bg_height.raw {
        GameState::GameOver
    } else {
        spec_fold_state(g, g.pipes@.len() as int)
    }
}

/// The predicate a pair must meet to survive pruning: its bottom pipe's
/// world-scrolled x-coordinate is still right of zero.
pub open spec fn spec_keep_pred(off: int) -> spec_fn((Pipe, Pipe)) -> bool {
    |pair: (Pipe, Pipe)| fx_add(pair.0.pos.x.raw as int, off) > 0
}

/// What one pruning sweep at scroll offset `off` leaves of the sequence.
pub open spec fn spec_pruned(off: int, s: Seq<(Pipe, Pipe)>) -> Seq<(Pipe, Pipe)> {
    s.filter(spec_keep_pred(off))
}

/// The predicate a pair must meet to count one point: its bottom pipe lies
/// strictly left of the player's obstacle-relative x.
pub open spec fn spec_score_pred(px: int) -> spec_fn((Pipe, Pipe)) -> bool {
    |pair: (Pipe, Pipe)| (pair.0.pos.x.raw as int) < px
}

/// The score: how many pairs the player has passed.
pub open spec fn spec_score(g: Game) -> int {
    g.pipes@.filter(spec_score_pred(spec_player_screen_x(g))).len() as int
}

/// The state one simulation tick leaves. Outside the `Playing` phase a tick
/// changes nothing. While playing: the flap cooldown runs down; a held flap
/// input whose cooldown has expired fires the impulse and rearms the
/// cooldown; the world scrolls left; the frame counter advances; and one
/// physics step runs.
pub open spec fn spec_ticked(g: Game) -> Game {
    if g.state != GameState::Playing {
        g
    } else {
        let t1 = fx_sub(g.flap_timeout.raw as int, g.cfg.dt.raw as int);
        let do_flap = g.input_flap && t1 < 0;
        let p1 = if do_flap {
            Player::flapped(g.player, g.cfg, g.cfg.dt)
        } else {
            g.player
        };
        Game {
            player: Player::updated(p1, g.cfg, g.cfg.dt),
            flap_timeout: if do_flap {
                g.cfg.flap_timeout
            } else {
                fx(t1)
            },
            offset: fx(fx_sub(g.offset.raw as int, g.cfg.move_speed.raw as int)),
            frames: if g.frames == u64::MAX {
                0u64
            } else {
                (g.frames + 1) as u64
            },
            ..g
        }
    }
}

/// The state `n` simulation ticks leave.
pub open spec fn spec_ticked_n(g: Game, n: nat) -> Game
    decreases n,
{
    if n == 0 {
        g
    } else {
        spec_ticked(spec_ticked_n(g, (n - 1) as nat))
    }
}

/// The collision test of the fold, one pipe at a time.
pub fn is_hit(player_right: Fx, player_top: Fx, player_bottom: Fx, pipe: &Pipe) -> (r: GameState)
    ensures
        r == (if spec_hit(player_right.raw as int, player_top.raw as int, player_bottom.raw as int, *pipe) {
            GameState::GameOver
        } else {
            GameState::Playing
        }),
{
    let top = pipe.facing.raw != 0;
    let pipe_right = pipe.pos.x.add(pipe.bbox_size.x);
    let pipe_left = pipe.pos.x.sub(pipe.bbox_size.x);
    let pipe_top = pipe.pos.y.sub(pipe.bbox_size.y);
    let pipe_bottom = pipe.pos.y.add(pipe.bbox_size.y);

    let crosses_left = player_right.raw >= pipe_left.raw && player_right.raw <= pipe_right.raw;
    if crosses_left && (((top && player_top.raw <= pipe_bottom.raw) || (!top && player_bottom.raw
        >= pipe_top.raw)) || player_bottom.raw <= 0) {
        return GameState::GameOver;
    }
    GameState::Playing
}

impl Game {
    /// A fresh game: the player at the origin, one level of generated pipe
    /// pairs, everything else zeroed, phase `Paused`.
    pub fn new(cfg: Config) -> (g: Game)
        requires
            cfg.wf(),
        ensures
            g.cfg == cfg,
            g.player == Player::spec_new(),
            g.pipes@.len() == cfg.pair_count,
            forall|j: int| 0 <= j < g.pipes@.len() ==> #[trigger] pair_wf(cfg, g.pipes@[j], j),
            g.level == 0,
            g.score == 0,
            !g.input_flap,
            g.flap_timeout.raw == 0,
            g.offset.raw == 0,
            g.frames == 0,
            g.state == GameState::Paused,
    {
        let pipes = crate::actors::gen_pipes(&cfg);
        Game {
            cfg,
            player: Player::new(),
            pipes,
            level: 0,
            score: 0,
            input_flap: false,
            flap_timeout: Fx::zero(),
            offset: Fx::zero(),
            frames: 0,
            state: GameState::Paused,
        }
    }

    /// Throw the world away and start over with the same configuration.
    pub fn restart(&mut self)
        requires
            old(self).cfg.wf(),
        ensures
            final(self).cfg == old(self).cfg,
            final(self).player == Player::spec_new(),
            final(self).pipes@.len() == old(self).cfg.pair_count,
            forall|j: int|
                0 <= j < final(self).pipes@.len() ==> #[trigger] pair_wf(
                    old(self).cfg,
                    final(self).pipes@[j],
                    j,
                ),
            final(self).level == 0,
            final(self).score == 0,
            !final(self).input_flap,
            final(self).flap_timeout.raw == 0,
            final(self).offset.raw == 0,
            final(self).frames == 0,
            final(self).state == GameState::Paused,
    {
        let cfg = self.cfg;
        *self = Game::new(cfg);
    }

    /// One fixed simulation tick.
    pub fn tick(&mut self)
        ensures
            *final(self) == spec_ticked(*old(self)),
    {
        if self.state.is_playing() {
            let cfg = self.cfg;
            self.flap_timeout = self.flap_timeout.sub(cfg.dt);
            if self.input_flap && self.flap_timeout.raw < 0 {
                self.flap_timeout = cfg.flap_timeout;
                self.player.flap(cfg, cfg.dt);
            }
            self.offset = self.offset.sub(cfg.move_speed);
            self.frames = if self.frames == u64::MAX {
                0
            } else {
                self.frames + 1
            };
            self.player.update_pos(cfg, cfg.dt);
        }
    }

    /// Drain `n` fixed simulation ticks.
    pub fn run_ticks(&mut self, n: u64)
        ensures
            *final(self) == spec_ticked_n(*old(self), n as nat),
    {
        let mut i: u64 = 0;
        while i < n
            invariant
                i <= n,
                *self == spec_ticked_n(*old(self), i as nat),
            decreases n - i,
        {
            self.tick();
            i = i + 1;
        }
    }

    /// Fold the collision tests over all pairs in view and store the
    /// resulting phase: `GameOver` at once if the player has reached the
    /// floor, and `GameOver` absorbing across the pairs.
    pub fn handle_collisions(&mut self)
        ensures
            final(self).state == spec_collide_state(*old(self)),
            *final(self) == (Game { state: final(self).state, ..*old(self) }),
    {
        let cfg = self.cfg;
        let mut player_pos = translate_coords(self.player.pos, cfg.screen_width, cfg.screen_height);
        player_pos.x = player_pos.x.sub(self.offset);

        let player_right = player_pos.x.add(self.player.bbox_size.x);
        let player_top = player_pos.y.sub(self.player.bbox_size.y);
        let player_bottom = player_pos.y.add(self.player.bbox_size.y);

        if player_bottom.raw >= cfg.bg_height.raw {
            self.state = GameState::GameOver;
            return;
        }
        let half_width = cfg.screen_width.half();
        let start = player_pos.x.sub(half_width);
        let end = player_pos.x.add(half_width);

        let mut st = self.state;
        let mut j: usize = 0;
        while j < self.pipes.len()
            invariant
                *self == *old(self),
                j <= self.pipes@.len(),
                player_right.raw == spec_player_right(*old(self)),
                player_top.raw == spec_player_top(*old(self)),
                player_bottom.raw == spec_player_bottom(*old(self)),
                start.raw == fx_sub(
                    spec_player_screen_x(*old(self)),
                    tdiv2(old(self).cfg.screen_width.raw as int),
                ),
                end.raw == fx_add(
                    spec_player_screen_x(*old(self)),
                    tdiv2(old(self).cfg.screen_width.raw as int),
                ),
                st == spec_fold_state(*old(self), j as int),
            decreases self.pipes@.len() - j,
        {
            let pair = self.pipes[j];
            if start.raw <= pair.0.pos.x.raw && pair.0.pos.x.raw <= end.raw {
                st = match st {
                    GameState::GameOver => GameState::GameOver,
                    _ => is_hit(player_right, player_top, player_bottom, &pair.1).combine(
                        is_hit(player_right, player_top, player_bottom, &pair.0),
                    ),
                };
            }
            j = j + 1;
        }
        self.state = st;
    }

    /// Recompute the score from the current positions: the number of pairs
    /// whose bottom pipe lies strictly behind the player.
    pub fn count_points(&mut self)
        ensures
            final(self).score == spec_score(*old(self)),
            *final(self) == (Game { score: final(self).score, ..*old(self) }),
    {
        let cfg = self.cfg;
        let player_x = translate_coords(self.player.pos, cfg.screen_width, cfg.screen_height).x.sub(
            self.offset,
        );
        let ghost pred = spec_score_pred(player_x.raw as int);
        let mut count: usize = 0;
        let mut j: usize = 0;
        while j < self.pipes.len()
            invariant
                *self == *old(self),
                j <= self.pipes@.len(),
                player_x.raw == spec_player_screen_x(*old(self)),
                pred == spec_score_pred(player_x.raw as int),
                count == self.pipes@.take(j as int).filter(pred).len(),
                count <= j,
            decreases self.pipes@.len() - j,
        {
            let pair = self.pipes[j];
            proof {
                lemma_filter_take_step(self.pipes@, pred, j as int);
            }
            if pair.0.pos.x.raw < player_x.raw {
                count = count + 1;
            }
            j = j + 1;
        }
        proof {
            assert(self.pipes@.take(self.pipes@.len() as int) =~= self.pipes@);
        }
        self.score = count;
    }

    /// The lazy sweep that drops pairs which have scrolled fully off-screen
    /// behind the player, keeping everything else in order.
    pub fn clear_pipes(&mut self)
        ensures
            final(self).pipes@ == spec_pruned(old(self).offset.raw as int, old(self).pipes@),
            *final(self) == (Game { pipes: final(self).pipes, ..*old(self) }),
    {
        let ghost pred = spec_keep_pred(self.offset.raw as int);
        let mut kept: Vec<(Pipe, Pipe)> = Vec::new();
        let mut j: usize = 0;
        while j < self.pipes.len()
            invariant
                *self == *old(self),
                j <= self.pipes@.len(),
                pred == spec_keep_pred(old(self).offset.raw as int),
                kept@ == self.pipes@.take(j as int).filter(pred),
            decreases self.pipes@.len() - j,
        {
            let pair = self.pipes[j];
            proof {
                lemma_filter_take_step(self.pipes@, pred, j as int);
            }
            if pair.0.pos.x.add(self.offset).raw > 0 {
                kept.push(pair);
            }
            j = j + 1;
        }
        proof {
            assert(self.pipes@.take(self.pipes@.len() as int) =~= self.pipes@);
        }
        self.pipes = kept;
    }

    /// The flap input went down: a paused game starts playing, and the held
    /// flag is set for the tick driver.
    pub fn press_flap(&mut self)
        ensures
            final(self).state == (if old(self).state == GameState::Paused {
                GameState::Playing
            } else {
                old(self).state
            }),
            final(self).input_flap,
            *final(self) == (Game {
                state: final(self).state,
                input_flap: true,
                ..*old(self)
            }),
    {
        if self.state.is_paused() {
            self.state = GameState::Playing;
        }
        self.input_flap = true;
    }

    /// The flap input went up: clear the held flag.
    pub fn release_flap(&mut self)
        ensures
            *final(self) == (Game { input_flap: false, ..*old(self) }),
    {
        self.input_flap = false;
    }

    /// The restart command: only a finished game restarts, from scratch.
    pub fn press_restart(&mut self)
        requires
            old(self).cfg.wf(),
        ensures
            old(self).state != GameState::GameOver ==> *final(self) == *old(self),
            old(self).state == GameState::GameOver ==> {
                &&& final(self).cfg == old(self).cfg
                &&& final(self).player == Player::spec_new()
                &&& final(self).pipes@.len() == old(self).cfg.pair_count
                &&& final(self).score == 0
                &&& final(self).offset.raw == 0
                &&& final(self).state == GameState::Paused
            },
    {
        if self.state.is_gameover() {
            self.restart();
        }
    }
}

/// Filtering a prefix one element further either appends that element or
/// leaves the filtered prefix alone.
proof fn lemma_filter_take_step<A>(s: Seq<A>, pred: spec_fn(A) -> bool, i: int)
    requires
        0 <= i < s.len(),
    ensures
        s.take(i + 1).filter(pred) == (if pred(s[i]) {
            s.take(i).filter(pred).push(s[i])
        } else {
            s.take(i).filter(pred)
        }),
{
    assert(s.take(i + 1) =~= s.take(i) + seq![s[i]]);
    Seq::filter_distributes_over_add(s.take(i), seq![s[i]], pred);
    reveal_with_fuel(Seq::filter, 2);
    assert(seq![s[i]].drop_last() =~= Seq::<A>::empty());
    if pred(s[i]) {
        assert(seq![s[i]].filter(pred) =~= seq![s[i]]);
        assert(s.take(i).filter(pred) + seq![s[i]] =~= s.take(i).filter(pred).push(s[i]));
    } else {
        assert(seq![s[i]].filter(pred) =~= Seq::<A>::empty());
        assert(s.take(i).filter(pred) + Seq::<A>::empty() =~= s.take(i).filter(pred));
    }
}

/// A sequence whose every element satisfies the predicate is left whole by
/// filtering.
proof fn lemma_filter_all_true<A>(s: Seq<A>, pred: spec_fn(A) -> bool)
    requires
        forall|i: int| 0 <= i < s.len() ==> pred(#[trigger] s[i]),
    ensures
        s.filter(pred) == s,
    decreases s.len(),
{
    reveal(Seq::filter);
    if s.len() == 0 {
        assert(s.filter(pred) =~= s);
    } else {
        assert(forall|i: int|
            0 <= i < s.drop_last().len() ==> pred(#[trigger] s.drop_last()[i]));
        lemma_filter_all_true(s.drop_last(), pred);
        assert(pred(s.last()));
        assert(s.filter(pred) =~= s.drop_last().push(s.last()));
        assert(s.drop_last().push(s.last()) =~= s);
    }
}

/// Pruning is idempotent: with no intervening scroll, a second pruning
/// sweep returns the sequence the first left.
pub proof fn lemma_prune_idempotent(off: int, s: Seq<(Pipe, Pipe)>)
    ensures
        spec_pruned(off, spec_pruned(off, s)) == spec_pruned(off, s),
{
    let pred = spec_keep_pred(off);
    let t = s.filter(pred);
    assert forall|i: int| 0 <= i < t.len() implies pred(#[trigger] t[i]) by {
        s.lemma_filter_pred(pred, i);
    }
    lemma_filter_all_true(t, pred);
}

/// The collision fold in closed form: it ends in `GameOver` exactly when
/// the phase already was `GameOver` — which absorbs — or some pair in view
/// is hit; with no hit it ends in `Playing` if any pair was in view, and
/// otherwise leaves the phase alone.
pub proof fn lemma_fold_state_characterized(g: Game, k: int)
    requires
        0 <= k <= g.pipes@.len(),
    ensures
        (spec_fold_state(g, k) == GameState::GameOver) <==> (g.state == GameState::GameOver
            || exists|j: int|
            0 <= j < k && #[trigger] spec_pair_in_view(g, g.pipes@[j]) && spec_pair_hit(
                g,
                g.pipes@[j],
            )),
        spec_fold_state(g, k) != GameState::GameOver ==> spec_fold_state(g, k) == (if exists|j: int|
            0 <= j < k && #[trigger] spec_pair_in_view(g, g.pipes@[j]) {
            GameState::Playing
        } else {
            g.state
        }),
    decreases k,
{
    if k > 0 {
        lemma_fold_state_characterized(g, k - 1);
        let pair = g.pipes@[k - 1];
        if spec_fold_state(g, k) == GameState::GameOver {
            if spec_fold_state(g, k - 1) != GameState::GameOver && g.state
                != GameState::GameOver {
                assert(spec_pair_in_view(g, pair) && spec_pair_hit(g, pair));
            }
        }
        if spec_pair_in_view(g, pair) {
            assert(exists|j: int| 0 <= j < k && #[trigger] spec_pair_in_view(g, g.pipes@[j]));
        }
    }
}

/// `GameOver` absorbs: once the phase is `GameOver`, any number of further
/// ticks leaves the whole world — player position, velocity, score and all —
/// unchanged.
pub proof fn lemma_gameover_absorbing(g: Game, n: nat)
    requires
        g.state == GameState::GameOver,
    ensures
        spec_ticked_n(g, n) == g,
    decreases n,
{
    if n > 0 {
        lemma_gameover_absorbing(g, (n - 1) as nat);
    }
}

/// The facing clamp survives the tick driver: if the facing lies between
/// the steepest angles before a tick, it does after, whatever the tick did.
pub proof fn lemma_tick_keeps_facing_clamped(g: Game)
    requires
        g.cfg.wf(),
        g.cfg.up_angle_max.raw <= g.player.facing.raw <= g.cfg.down_angle_max.raw,
    ensures
        g.cfg.up_angle_max.raw <= spec_ticked(g).player.facing.raw <= g.cfg.down_angle_max.raw,
{
    if g.state == GameState::Playing {
        let t1 = fx_sub(g.flap_timeout.raw as int, g.cfg.dt.raw as int);
        let do_flap = g.input_flap && t1 < 0;
        let p1 = if do_flap {
            Player::flapped(g.player, g.cfg, g.cfg.dt)
        } else {
            g.player
        };
        Player::lemma_facing_clamped(p1, g.cfg, g.cfg.dt);
    }
}

/// The facing clamp holds across every sequence of ticks: starting between
/// the steepest angles, it is still between them after any number of ticks.
pub proof fn lemma_ticks_keep_facing_clamped(g: Game, n: nat)
    requires
        g.cfg.wf(),
        g.cfg.up_angle_max.raw <= g.player.facing.raw <= g.cfg.down_angle_max.raw,
    ensures
        spec_ticked_n(g, n).cfg == g.cfg,
        g.cfg.up_angle_max.raw <= spec_ticked_n(g, n).player.facing.raw
            <= g.cfg.down_angle_max.raw,
    decreases n,
{
    if n > 0 {
        lemma_ticks_keep_facing_clamped(g, (n - 1) as nat);
        lemma_tick_keeps_facing_clamped(spec_ticked_n(g, (n - 1) as nat));
    }
}

} // verus!
