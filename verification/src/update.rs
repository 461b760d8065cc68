//! The step that the host asks for once per frame.

use crate::flock::{stepped, within_boundary, within_speed_limits};
use crate::model::Model;
use vstd::prelude::*;

verus! {

/// Steps the flock once inside the present boundary: every agent is
/// replaced by what it becomes against the flock as it was before the step.
pub fn update(model: &mut Model)
    requires
        old(model).wf(),
    ensures
        final(model).flock@ == stepped(old(model).flock@, old(model).win_rect),
        final(model).win_rect == old(model).win_rect,
        final(model).keybinds == old(model).keybinds,
        final(model).wf(),
        within_speed_limits(final(model).flock@),
        within_boundary(final(model).flock@, old(model).win_rect),
{
    let win_rect = model.win_rect;
    model.flock.step(win_rect);
}

} // verus!
