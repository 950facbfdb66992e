use vstd::prelude::*;

verus! {

/// The raw directional input sampled by the host once per tick: four
/// independent booleans, all combinations allowed.
#[derive(Clone, Copy, PartialEq, Eq, Structural, Debug)]
pub struct InputState {
    pub up: bool,
    pub down: bool,
    pub left: bool,
    pub right: bool,
}

/// Tie-break for one axis: opposing directions cancel to zero; otherwise
/// the pressed direction wins.
pub open spec fn axis_dir(positive: bool, negative: bool) -> int {
    if positive == negative {
        0
    } else if positive {
        1
    } else {
        -1
    }
}

pub fn axis_step(positive: bool, negative: bool) -> (d: i64)
    ensures
        d == axis_dir(positive, negative),
{
    if positive == negative {
        0
    } else if positive {
        1
    } else {
        -1
    }
}

} // verus!
