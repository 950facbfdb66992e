use vstd::prelude::*;
use crate::input::InputState;
use crate::sim::advance_rel;
use crate::sim::in_spawn_bounds;
use crate::sim::moved_x;
use crate::sim::moved_y;
use crate::sim::survivors;
use crate::sim::GameView;
use crate::sim::Target;
use crate::sim::WAVE_SIZE;

verus! {

/// A collision step never keeps more targets than it was given.
pub proof fn lemma_survivors_len(ts: Seq<Target>, px: int, py: int)
    ensures
        survivors(ts, px, py).len() <= ts.len(),
    decreases ts.len(),
{
    if ts.len() > 0 {
        lemma_survivors_len(ts.drop_last(), px, py);
    }
}

/// One tick never lowers the score.
pub proof fn lemma_step_score_monotone(pre: GameView, inp: InputState, now_ms: int, post: GameView)
    requires
        advance_rel(pre, inp, now_ms, post),
    ensures
        post.score >= pre.score,
{
    if !pre.lost {
        lemma_survivors_len(pre.targets, moved_x(pre.player_x, inp), moved_y(pre.player_y, inp));
    }
}

/// A tick from a lost round changes nothing: the state is frozen.
pub proof fn lemma_step_loss_frozen(pre: GameView, inp: InputState, now_ms: int, post: GameView)
    requires
        advance_rel(pre, inp, now_ms, post),
        pre.lost,
    ensures
        post == pre,
{
}

/// Wave invariant: a tick that clears the field (or finds it clear) ends
/// with exactly `WAVE_SIZE` live targets, each inside the spawn field, and
/// the round clock restarted at that tick's time.
pub proof fn lemma_step_wave_reset(pre: GameView, inp: InputState, now_ms: int, post: GameView)
    requires
        advance_rel(pre, inp, now_ms, post),
        !pre.lost,
        survivors(pre.targets, moved_x(pre.player_x, inp), moved_y(pre.player_y, inp)).len() == 0,
    ensures
        !post.lost,
        post.targets.len() == WAVE_SIZE as int,
        forall|i: int| 0 <= i < post.targets.len() ==> in_spawn_bounds(#[trigger] post.targets[i]),
        post.clock_start_ms == now_ms,
{
}

/// A tick trace: consecutive states are related by one tick of the
/// simulation, driven by that tick's input and time.
pub open spec fn valid_trace(
    states: Seq<GameView>,
    inputs: Seq<InputState>,
    times: Seq<int>,
) -> bool {
    states.len() == inputs.len() + 1 && states.len() == times.len() + 1 && forall|i: int|
        0 <= i < inputs.len() ==> #[trigger] advance_rel(
            states[i],
            inputs[i],
            times[i],
            states[i + 1],
        )
}

/// The score is monotonically non-decreasing across any sequence of ticks.
pub proof fn lemma_trace_score_monotone(
    states: Seq<GameView>,
    inputs: Seq<InputState>,
    times: Seq<int>,
    i: int,
    j: int,
)
    requires
        valid_trace(states, inputs, times),
        0 <= i <= j < states.len(),
    ensures
        states[i].score <= states[j].score,
    decreases j - i,
{
    if i < j {
        lemma_trace_score_monotone(states, inputs, times, i, j - 1);
        let k = j - 1;
        assert(advance_rel(states[k], inputs[k], times[k], states[k + 1]));
        lemma_step_score_monotone(states[k], inputs[k], times[k], states[k + 1]);
    }
}

/// Loss is irreversible: once a trace reaches a lost state, every later
/// state is that state unchanged — no score, target, player or clock
/// mutation follows.
pub proof fn lemma_trace_loss_irreversible(
    states: Seq<GameView>,
    inputs: Seq<InputState>,
    times: Seq<int>,
    i: int,
    j: int,
)
    requires
        valid_trace(states, inputs, times),
        0 <= i <= j < states.len(),
        states[i].lost,
    ensures
        states[j] == states[i],
    decreases j - i,
{
    if i < j {
        lemma_trace_loss_irreversible(states, inputs, times, i, j - 1);
        let k = j - 1;
        assert(advance_rel(states[k], inputs[k], times[k], states[k + 1]));
    }
}

} // verus!
