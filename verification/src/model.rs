//! The state of a running simulation.

use crate::flock::{spawned, Flock};
use crate::keys::Keybinds;
use crate::rect::Rect;
use vstd::prelude::*;

verus! {

/// The number of agents that a simulation starts with.
pub const INITIAL_BOIDS: usize = 1024;

/// The state that all entry points of a simulation share: the flock, what
/// the keys have switched on, and the boundary of the next step.
#[derive(Clone, Debug)]
pub struct Model {
    pub flock: Flock,
    pub keybinds: Keybinds,
    pub win_rect: Rect,
}

impl Model {
    /// The flock and the boundary are valid.
    pub open spec fn wf(&self) -> bool {
        self.flock.wf() && self.win_rect.wf()
    }

    /// Whether the flock and the boundary are valid.
    pub fn is_valid(&self) -> (b: bool)
        ensures
            b == self.wf(),
    {
        self.win_rect.is_valid() && self.flock.is_valid()
    }

    /// A simulation inside a boundary, with its first flock spawned and no
    /// key pressed yet.
    pub fn new(win_rect: Rect) -> (model: Model)
        requires
            win_rect.wf(),
        ensures
            model.wf(),
            model.win_rect == win_rect,
            model.keybinds == Keybinds::initial(),
            spawned(model.flock@, win_rect, INITIAL_BOIDS as int),
    {
        Model {
            flock: Flock::new_flock(win_rect, INITIAL_BOIDS),
            keybinds: Keybinds::default(),
            win_rect,
        }
    }
}

} // verus!
