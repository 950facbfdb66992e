use vstd::prelude::*;
use crate::geometry::overlaps;
use crate::geometry::overlaps_at;
use crate::geometry::Rect;
use crate::input::axis_dir;
use crate::input::axis_step;
use crate::input::InputState;
use crate::rng::random_in;

verus! {

/// Half-extent of the player square and of every target square.
pub const HALF_EXTENT: i64 = 30;

/// Units the player moves per tick on a pressed axis:
/// 240 units per second at 60 ticks per second.
pub const STEP_PER_TICK: i64 = 4;

/// Budget, in milliseconds, to clear a wave before the round is lost.
pub const ROUND_DURATION_MS: u64 = 10_000;

/// Number of targets spawned together in one wave.
pub const WAVE_SIZE: usize = 5;

pub const SPAWN_X_MIN: i64 = -600;

pub const SPAWN_X_MAX: i64 = 600;

pub const SPAWN_Y_MIN: i64 = -200;

pub const SPAWN_Y_MAX: i64 = 200;

pub const PLAYER_START_X: i64 = 0;

pub const PLAYER_START_Y: i64 = -50;

/// A live target: its center. Every target has half-extent `HALF_EXTENT`.
#[derive(Clone, Copy, PartialEq, Eq, Structural, Debug)]
pub struct Target {
    pub x: i64,
    pub y: i64,
}

/// The round's state machine: `Active` is initial; `Loss` is terminal.
#[derive(Clone, Copy, PartialEq, Eq, Structural, Debug)]
pub enum RoundStatus {
    Active,
    Loss,
}

/// Mathematical model of a round: what the contracts speak of.
#[verifier::ext_equal]
pub ghost struct GameView {
    pub player_x: int,
    pub player_y: int,
    pub targets: Seq<Target>,
    pub score: int,
    pub clock_start_ms: int,
    pub lost: bool,
}

/// Whether a target overlaps the player square centered at `(px, py)`.
/// Both squares have half-extent `HALF_EXTENT`.
pub open spec fn touches_player(px: int, py: int, t: Target) -> bool {
    overlaps_at(
        px,
        py,
        HALF_EXTENT as int,
        HALF_EXTENT as int,
        t.x as int,
        t.y as int,
        HALF_EXTENT as int,
        HALF_EXTENT as int,
    )
}

/// The targets that survive one collision step against a player at
/// `(px, py)`: the overlapping ones are collected, order of the rest kept.
pub open spec fn survivors(ts: Seq<Target>, px: int, py: int) -> Seq<Target>
    decreases ts.len(),
{
    if ts.len() == 0 {
        Seq::empty()
    } else {
        let rest = survivors(ts.drop_last(), px, py);
        if touches_player(px, py, ts.last()) {
            rest
        } else {
            rest.push(ts.last())
        }
    }
}

pub open spec fn moved_x(px: int, inp: InputState) -> int {
    px + axis_dir(inp.right, inp.left) * STEP_PER_TICK
}

pub open spec fn moved_y(py: int, inp: InputState) -> int {
    py + axis_dir(inp.up, inp.down) * STEP_PER_TICK
}

pub open spec fn in_spawn_bounds(t: Target) -> bool {
    SPAWN_X_MIN <= t.x <= SPAWN_X_MAX && SPAWN_Y_MIN <= t.y <= SPAWN_Y_MAX
}

/// Whole seconds left on the round clock at `now_ms`: the floor of the
/// remaining duration, clamped at zero once the budget has elapsed.
pub open spec fn remaining_secs_at(clock_start_ms: int, now_ms: int) -> int {
    if now_ms - clock_start_ms >= ROUND_DURATION_MS as int {
        0
    } else {
        (ROUND_DURATION_MS as int - (now_ms - clock_start_ms)) / 1000
    }
}

/// One tick of the simulation, as a relation between the round state before
/// and after. The wave positions are random, so a tick that spawns relates
/// the old state to every choice of in-bounds positions.
///
/// The tick runs movement, then collision scoring, then the loss check,
/// then the spawner. A loss already entered freezes the state; a loss
/// entered this tick keeps that tick's movement and collections but stops
/// the spawner.
pub open spec fn advance_rel(pre: GameView, inp: InputState, now_ms: int, post: GameView) -> bool {
    if pre.lost {
        post == pre
    } else {
        let px = moved_x(pre.player_x, inp);
        let py = moved_y(pre.player_y, inp);
        let surv = survivors(pre.targets, px, py);
        post.player_x == px && post.player_y == py && post.score == pre.score
            + pre.targets.len() - surv.len() && if now_ms - pre.clock_start_ms
            > ROUND_DURATION_MS as int && surv.len() > 0 {
            post.lost && post.targets == surv && post.clock_start_ms == pre.clock_start_ms
        } else if surv.len() == 0 {
            !post.lost && post.targets.len() == WAVE_SIZE as int && (forall|i: int|
                0 <= i < post.targets.len() ==> in_spawn_bounds(#[trigger] post.targets[i]))
                && post.clock_start_ms == now_ms
        } else {
            !post.lost && post.targets == surv && post.clock_start_ms == pre.clock_start_ms
        }
    }
}

/// The mutable round state, owned by the tick driver.
pub struct RoundState {
    player_x: i64,
    player_y: i64,
    targets: Vec<Target>,
    score: u64,
    target_count: usize,
    clock_start_ms: u64,
    status: RoundStatus,
}

impl View for RoundState {
    type V = GameView;

    closed spec fn view(&self) -> GameView {
        GameView {
            player_x: self.player_x as int,
            player_y: self.player_y as int,
            targets: self.targets@,
            score: self.score as int,
            clock_start_ms: self.clock_start_ms as int,
            lost: self.status is Loss,
        }
    }
}

impl RoundState {
    /// The live-target counter tracks the live targets exactly, and a wave
    /// never holds more than `WAVE_SIZE` targets.
    pub closed spec fn wf(&self) -> bool {
        self.target_count == self.targets@.len() && self.targets@.len() <= WAVE_SIZE
    }

    /// A fresh round: player at the start position, no targets yet, score
    /// zero, clock started at `now_ms`. The first tick's spawner fills the
    /// first wave.
    pub fn new(now_ms: u64) -> (s: RoundState)
        ensures
            s.wf(),
            s@.player_x == PLAYER_START_X as int,
            s@.player_y == PLAYER_START_Y as int,
            s@.targets.len() == 0,
            s@.score == 0,
            s@.clock_start_ms == now_ms as int,
            !s@.lost,
    {
        RoundState {
            player_x: PLAYER_START_X,
            player_y: PLAYER_START_Y,
            targets: Vec::new(),
            score: 0,
            target_count: 0,
            clock_start_ms: now_ms,
            status: RoundStatus::Active,
        }
    }

    /// An active round in a chosen mid-wave configuration, so each per-tick
    /// step can be exercised in isolation.
    pub fn with_wave(
        player_x: i64,
        player_y: i64,
        targets: Vec<Target>,
        score: u64,
        clock_start_ms: u64,
    ) -> (s: RoundState)
        requires
            targets@.len() <= WAVE_SIZE,
        ensures
            s.wf(),
            s@.player_x == player_x as int,
            s@.player_y == player_y as int,
            s@.targets == targets@,
            s@.score == score as int,
            s@.clock_start_ms == clock_start_ms as int,
            !s@.lost,
    {
        let target_count = targets.len();
        RoundState {
            player_x,
            player_y,
            targets,
            score,
            target_count,
            clock_start_ms,
            status: RoundStatus::Active,
        }
    }

    pub fn score(&self) -> (r: u64)
        ensures
            r == self@.score,
    {
        self.score
    }

    pub fn target_count(&self) -> (r: usize)
        requires
            self.wf(),
        ensures
            r == self@.targets.len(),
    {
        self.target_count
    }

    pub fn player_x(&self) -> (r: i64)
        ensures
            r == self@.player_x,
    {
        self.player_x
    }

    pub fn player_y(&self) -> (r: i64)
        ensures
            r == self@.player_y,
    {
        self.player_y
    }

    pub fn clock_start_ms(&self) -> (r: u64)
        ensures
            r == self@.clock_start_ms,
    {
        self.clock_start_ms
    }

    pub fn status(&self) -> (r: RoundStatus)
        ensures
            (r == RoundStatus::Loss) == self@.lost,
    {
        self.status
    }

    /// The live targets, for the renderer; each has half-extent
    /// `HALF_EXTENT` around its center.
    pub fn targets(&self) -> (r: &Vec<Target>)
        ensures
            r@ == self@.targets,
    {
        &self.targets
    }

    /// Movement: apply this tick's directional input to the player,
    /// `STEP_PER_TICK` units per pressed axis, opposing inputs cancelling.
    /// No bounds clamping: the player may leave the visible field.
    pub fn movement_step(&mut self, input: InputState)
        requires
            old(self).wf(),
            !old(self)@.lost,
            i64::MIN + STEP_PER_TICK <= old(self)@.player_x <= i64::MAX - STEP_PER_TICK,
            i64::MIN + STEP_PER_TICK <= old(self)@.player_y <= i64::MAX - STEP_PER_TICK,
        ensures
            final(self).wf(),
            final(self)@.player_x == moved_x(old(self)@.player_x, input),
            final(self)@.player_y == moved_y(old(self)@.player_y, input),
            final(self)@.targets == old(self)@.targets,
            final(self)@.score == old(self)@.score,
            final(self)@.clock_start_ms == old(self)@.clock_start_ms,
            !final(self)@.lost,
    {
        let dx = axis_step(input.right, input.left);
        let dy = axis_step(input.up, input.down);
        self.player_x = self.player_x + dx * STEP_PER_TICK;
        self.player_y = self.player_y + dy * STEP_PER_TICK;
    }

    /// Collision scoring: every target overlapping the player this tick is
    /// collected — removed from the wave, one point each. All overlapping
    /// targets are processed in the same tick, and the counter tracks the
    /// live targets exactly. Returns how many were collected, the tick's
    /// observable collision notification.
    pub fn collision_step(&mut self) -> (collected: usize)
        requires
            old(self).wf(),
            !old(self)@.lost,
            old(self)@.score + old(self)@.targets.len() <= u64::MAX,
        ensures
            final(self).wf(),
            final(self)@.targets == survivors(
                old(self)@.targets,
                old(self)@.player_x,
                old(self)@.player_y,
            ),
            collected == old(self)@.targets.len() - final(self)@.targets.len(),
            final(self)@.score == old(self)@.score + collected,
            final(self)@.player_x == old(self)@.player_x,
            final(self)@.player_y == old(self)@.player_y,
            final(self)@.clock_start_ms == old(self)@.clock_start_ms,
            !final(self)@.lost,
    {
        let player = Rect {
            x: self.player_x,
            y: self.player_y,
            half_x: HALF_EXTENT,
            half_y: HALF_EXTENT,
        };
        let n = self.targets.len();
        let mut kept: Vec<Target> = Vec::new();
        let mut i: usize = 0;
        while i < n
            invariant
                old(self).wf(),
                *self == *old(self),
                player == (Rect {
                    x: self.player_x,
                    y: self.player_y,
                    half_x: HALF_EXTENT,
                    half_y: HALF_EXTENT,
                }),
                n == self.targets@.len(),
                i <= n,
                kept@ == survivors(self.targets@.take(i as int), self@.player_x, self@.player_y),
                kept@.len() <= i,
            decreases n - i,
        {
            let t = self.targets[i];
            let t_rect = Rect { x: t.x, y: t.y, half_x: HALF_EXTENT, half_y: HALF_EXTENT };
            let hit = overlaps(&player, &t_rect);
            if !hit {
                kept.push(t);
            }
            proof {
                let s = self.targets@;
                let px = self@.player_x;
                let py = self@.player_y;
                assert(s.take(i as int + 1).drop_last() =~= s.take(i as int));
                assert(s.take(i as int + 1).last() == s[i as int]);
                assert(hit == touches_player(px, py, s[i as int]));
                if hit {
                    assert(survivors(s.take(i as int + 1), px, py) == survivors(
                        s.take(i as int),
                        px,
                        py,
                    ));
                } else {
                    assert(survivors(s.take(i as int + 1), px, py) == survivors(
                        s.take(i as int),
                        px,
                        py,
                    ).push(s[i as int]));
                }
            }
            i = i + 1;
        }
        proof {
            assert(self.targets@.take(n as int) =~= self.targets@);
        }
        let kept_len = kept.len();
        let collected = n - kept_len;
        self.score = self.score + (collected as u64);
        self.targets = kept;
        self.target_count = kept_len;
        collected
    }

    /// Round clock: the round is lost iff strictly more than
    /// `ROUND_DURATION_MS` has elapsed since the wave started while targets
    /// are still live. Entering `Loss` is the only change this step makes.
    pub fn loss_check_step(&mut self, now_ms: u64)
        requires
            old(self).wf(),
            !old(self)@.lost,
            now_ms >= old(self)@.clock_start_ms,
        ensures
            final(self).wf(),
            final(self)@.lost == (now_ms - old(self)@.clock_start_ms > ROUND_DURATION_MS as int
                && old(self)@.targets.len() > 0),
            final(self)@.player_x == old(self)@.player_x,
            final(self)@.player_y == old(self)@.player_y,
            final(self)@.targets == old(self)@.targets,
            final(self)@.score == old(self)@.score,
            final(self)@.clock_start_ms == old(self)@.clock_start_ms,
    {
        if now_ms - self.clock_start_ms > ROUND_DURATION_MS && self.target_count > 0 {
            self.status = RoundStatus::Loss;
        }
    }

    /// Spawner: when the wave is cleared, restart the round clock at
    /// `now_ms` and create a fresh wave of `WAVE_SIZE` targets, each at an
    /// independently drawn position with x in
    /// [`SPAWN_X_MIN`, `SPAWN_X_MAX`] and y in
    /// [`SPAWN_Y_MIN`, `SPAWN_Y_MAX`]. Otherwise the state is untouched.
    pub fn spawn_step(&mut self, now_ms: u64)
        requires
            old(self).wf(),
            !old(self)@.lost,
        ensures
            final(self).wf(),
            !final(self)@.lost,
            final(self)@.player_x == old(self)@.player_x,
            final(self)@.player_y == old(self)@.player_y,
            final(self)@.score == old(self)@.score,
            old(self)@.targets.len() > 0 ==> final(self)@.targets == old(self)@.targets
                && final(self)@.clock_start_ms == old(self)@.clock_start_ms,
            old(self)@.targets.len() == 0 ==> final(self)@.targets.len() == WAVE_SIZE as int && (
            forall|i: int|
                0 <= i < final(self)@.targets.len() ==> in_spawn_bounds(
                    #[trigger] final(self)@.targets[i],
                )) && final(self)@.clock_start_ms == now_ms as int,
    {
        if self.target_count == 0 {
            self.clock_start_ms = now_ms;
            let mut i: usize = 0;
            while i < WAVE_SIZE
                invariant
                    self.player_x == old(self).player_x,
                    self.player_y == old(self).player_y,
                    self.score == old(self).score,
                    self.status == old(self).status,
                    self.clock_start_ms == now_ms,
                    i <= WAVE_SIZE,
                    self.targets@.len() == i,
                    forall|j: int|
                        0 <= j < self.targets@.len() ==> in_spawn_bounds(
                            #[trigger] self.targets@[j],
                        ),
                decreases WAVE_SIZE - i,
            {
                let x = random_in(SPAWN_X_MIN, SPAWN_X_MAX);
                let y = random_in(SPAWN_Y_MIN, SPAWN_Y_MAX);
                self.targets.push(Target { x, y });
                i = i + 1;
            }
            self.target_count = WAVE_SIZE;
        }
    }

    /// One simulation tick, in the load-bearing order: movement, collision
    /// scoring, loss check, spawner. A lost round is frozen: the call
    /// changes nothing and reports `Loss`. The returned status is the
    /// round's state after the tick, for the host to react to.
    pub fn advance(&mut self, input: InputState, now_ms: u64) -> (status: RoundStatus)
        requires
            old(self).wf(),
            !old(self)@.lost ==> now_ms >= old(self)@.clock_start_ms,
            !old(self)@.lost ==> i64::MIN + STEP_PER_TICK <= old(self)@.player_x <= i64::MAX
                - STEP_PER_TICK,
            !old(self)@.lost ==> i64::MIN + STEP_PER_TICK <= old(self)@.player_y <= i64::MAX
                - STEP_PER_TICK,
            !old(self)@.lost ==> old(self)@.score + WAVE_SIZE as int <= u64::MAX,
        ensures
            final(self).wf(),
            advance_rel(old(self)@, input, now_ms as int, final(self)@),
            final(self)@.score >= old(self)@.score,
            (status == RoundStatus::Loss) == final(self)@.lost,
    {
        match self.status {
            RoundStatus::Loss => {
                return RoundStatus::Loss;
            },
            RoundStatus::Active => {},
        }
        self.movement_step(input);
        self.collision_step();
        self.loss_check_step(now_ms);
        match self.status {
            RoundStatus::Loss => RoundStatus::Loss,
            RoundStatus::Active => {
                self.spawn_step(now_ms);
                RoundStatus::Active
            },
        }
    }

    /// Seconds left on the round clock for display: the floor of the
    /// remaining duration, clamped at zero once the budget has elapsed.
    pub fn remaining_secs(&self, now_ms: u64) -> (r: u64)
        requires
            now_ms >= self@.clock_start_ms,
        ensures
            r == remaining_secs_at(self@.clock_start_ms, now_ms as int),
    {
        let elapsed = now_ms - self.clock_start_ms;
        if elapsed >= ROUND_DURATION_MS {
            0
        } else {
            (ROUND_DURATION_MS - elapsed) / 1000
        }
    }
}

} // verus!
