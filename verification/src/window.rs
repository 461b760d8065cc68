//! What a resized window does to a simulation.

use crate::model::Model;
use crate::rect::Rect;
use vstd::prelude::*;

verus! {

/// Makes a rectangle the boundary of the next steps, and says whether it
/// did: a rectangle whose edges are out of order or larger than `LIMIT` is
/// not taken, and the boundary stays as it was.
pub fn window_resized(model: &mut Model, win_rect: Rect) -> (taken: bool)
    ensures
        taken == win_rect.wf(),
        final(model).win_rect == if win_rect.wf() {
            win_rect
        } else {
            old(model).win_rect
        },
        final(model).flock == old(model).flock,
        final(model).keybinds == old(model).keybinds,
        old(model).wf() ==> final(model).wf(),
{
    if win_rect.is_valid() {
        model.win_rect = win_rect;
        true
    } else {
        false
    }
}

} // verus!
