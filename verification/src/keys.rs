//! What the keys do to a simulation.

use crate::agent::{Agent, Parameter, ParameterError};
use crate::flock::{grown, refusal, scattered, shrunk, spawned, tuned};
use crate::model::Model;
use crate::rect::Rect;
use vstd::prelude::*;

verus! {

/// The multiplier of a key that turns a parameter down.
pub const DECREASE: i64 = 990_000;

/// The multiplier of a key that turns a parameter up.
pub const INCREASE: i64 = 1_010_000;

/// The keys that a simulation listens to; every other key is `Other`.
#[derive(Clone, Copy, PartialEq, Eq, Structural, Debug)]
pub enum Key {
    Plus,
    Minus,
    R,
    T,
    S,
    D,
    Z,
    X,
    H,
    J,
    C,
    V,
    LBracket,
    RBracket,
    Down,
    Up,
    Key1,
    Key2,
    Key3,
    Key4,
    Key5,
    Key6,
    Key7,
    Key8,
    Key9,
    Key0,
    Other,
}

/// What the keys have switched on, as the drawing reads it.
#[derive(Clone, Copy, PartialEq, Eq, Structural, Debug)]
pub struct Keybinds {
    pub highlight_all: bool,
    pub highlight_first: bool,
    pub show_help_menu: bool,
    pub show_current_values: bool,
    // Set by a key that acts once per press, so that holding it down does
    // not repeat what it does.
    pub any_is_pressed: bool,
}

/// What the host is told after a key was pressed.
#[derive(Clone, Copy, PartialEq, Eq, Structural, Debug)]
pub enum Response {
    /// Nothing to tell.
    Quiet,
    /// The flock was grown or shrunk: this is the number of agents now.
    Title(usize),
    /// A parameter was not changed: this is why an agent refused.
    Refused(ParameterError),
}

impl Key {
    /// The parameter that the key tunes and the multiplier it applies, for
    /// the keys that tune one.
    pub open spec fn tunes(self) -> Option<(Parameter, i64)> {
        match self {
            Key::LBracket => Some((Parameter::PerceptionRadius, DECREASE)),
            Key::RBracket => Some((Parameter::PerceptionRadius, INCREASE)),
            Key::Down => Some((Parameter::Diameter, DECREASE)),
            Key::Up => Some((Parameter::Diameter, INCREASE)),
            Key::Key1 => Some((Parameter::MaxSpeed, DECREASE)),
            Key::Key2 => Some((Parameter::MaxSpeed, INCREASE)),
            Key::Key3 => Some((Parameter::MaxForce, DECREASE)),
            Key::Key4 => Some((Parameter::MaxForce, INCREASE)),
            Key::Key5 => Some((Parameter::Alignment, DECREASE)),
            Key::Key6 => Some((Parameter::Alignment, INCREASE)),
            Key::Key7 => Some((Parameter::Cohesion, DECREASE)),
            Key::Key8 => Some((Parameter::Cohesion, INCREASE)),
            Key::Key9 => Some((Parameter::Separation, DECREASE)),
            Key::Key0 => Some((Parameter::Separation, INCREASE)),
            _ => None,
        }
    }

    /// The parameter that the key tunes and the multiplier it applies, for
    /// the keys that tune one.
    pub fn tuning(self) -> (r: Option<(Parameter, i64)>)
        ensures
            r == self.tunes(),
    {
        match self {
            // Perception range
            Key::LBracket => Some((Parameter::PerceptionRadius, DECREASE)),
            Key::RBracket => Some((Parameter::PerceptionRadius, INCREASE)),
            Key::Down => Some((Parameter::Diameter, DECREASE)),
            Key::Up => Some((Parameter::Diameter, INCREASE)),
            // Max speed
            Key::Key1 => Some((Parameter::MaxSpeed, DECREASE)),
            Key::Key2 => Some((Parameter::MaxSpeed, INCREASE)),
            // Max force
            Key::Key3 => Some((Parameter::MaxForce, DECREASE)),
            Key::Key4 => Some((Parameter::MaxForce, INCREASE)),
            // Alignment modifier
            Key::Key5 => Some((Parameter::Alignment, DECREASE)),
            Key::Key6 => Some((Parameter::Alignment, INCREASE)),
            // Cohesion modifier
            Key::Key7 => Some((Parameter::Cohesion, DECREASE)),
            Key::Key8 => Some((Parameter::Cohesion, INCREASE)),
            // Separation modifier
            Key::Key9 => Some((Parameter::Separation, DECREASE)),
            Key::Key0 => Some((Parameter::Separation, INCREASE)),
            _ => None,
        }
    }
}

impl Keybinds {
    /// The switches of a simulation that has just started: only the help
    /// menu is shown.
    pub open spec fn initial() -> Keybinds {
        Keybinds {
            highlight_all: false,
            highlight_first: false,
            show_help_menu: true,
            show_current_values: false,
            any_is_pressed: false,
        }
    }

    /// The switches after a key was pressed. `S`, `Z`, `H` and `C` switch
    /// on while they are held. `D`, `X`, `J` and `V` flip the same four
    /// switches once per press, and `R` and `T` act once per press: each of
    /// the six does nothing while an earlier such press is still held.
    pub open spec fn pressed(self, key: Key) -> Keybinds {
        match key {
            Key::S => Keybinds { highlight_all: true, ..self },
            Key::Z => Keybinds { highlight_first: true, ..self },
            Key::H => Keybinds { show_help_menu: true, ..self },
            Key::C => Keybinds { show_current_values: true, ..self },
            Key::D => if self.any_is_pressed {
                self
            } else {
                Keybinds { highlight_all: !self.highlight_all, any_is_pressed: true, ..self }
            },
            Key::X => if self.any_is_pressed {
                self
            } else {
                Keybinds { highlight_first: !self.highlight_first, any_is_pressed: true, ..self }
            },
            Key::J => if self.any_is_pressed {
                self
            } else {
                Keybinds { show_help_menu: !self.show_help_menu, any_is_pressed: true, ..self }
            },
            Key::V => if self.any_is_pressed {
                self
            } else {
                Keybinds {
                    show_current_values: !self.show_current_values,
                    any_is_pressed: true,
                    ..self
                }
            },
            Key::R | Key::T => Keybinds { any_is_pressed: true, ..self },
            _ => self,
        }
    }

    /// The switches after a key was released. `S`, `Z`, `H` and `C` switch
    /// off; every other key ends the press that was held.
    pub open spec fn released(self, key: Key) -> Keybinds {
        match key {
            Key::S => Keybinds { highlight_all: false, ..self },
            Key::Z => Keybinds { highlight_first: false, ..self },
            Key::H => Keybinds { show_help_menu: false, ..self },
            Key::C => Keybinds { show_current_values: false, ..self },
            _ => Keybinds { any_is_pressed: false, ..self },
        }
    }
}

impl Default for Keybinds {
    fn default() -> (keybinds: Self)
        ensures
            keybinds == Keybinds::initial(),
    {
        Keybinds {
            highlight_all: false,
            highlight_first: false,
            show_help_menu: true,
            show_current_values: false,
            any_is_pressed: false,
        }
    }
}

/// How a flock may look after a key was pressed inside a boundary, `held`
/// telling whether an earlier press that acts once was still held. `Plus`
/// grows the flock and `Minus` shrinks it; `R` spawns it anew and `T`
/// scatters it, unless held; a tuning key multiplies its parameter in every
/// agent or in none; any other key leaves the flock alone.
pub open spec fn flock_pressed(
    key: Key,
    held: bool,
    boundary: Rect,
    before: Seq<Agent>,
    after: Seq<Agent>,
) -> bool {
    match key {
        Key::Plus => grown(before, after),
        Key::Minus => after == shrunk(before),
        Key::R => if held {
            after == before
        } else {
            spawned(after, boundary, before.len() as int)
        },
        Key::T => if held {
            after == before
        } else {
            scattered(before, after, boundary)
        },
        _ => match key.tunes() {
            Some((which, multiplier)) => after == tuned(before, which, multiplier as int),
            None => after == before,
        },
    }
}

/// What the host is told after a key was pressed: the new number of agents
/// after `Plus` and `Minus`, the refusal where a tuning key was refused.
pub open spec fn response_to(key: Key, before: Seq<Agent>, after: Seq<Agent>) -> Response {
    match key {
        Key::Plus | Key::Minus => Response::Title(after.len() as usize),
        _ => match key.tunes() {
            Some((which, multiplier)) => match refusal(before, which, multiplier as int) {
                Some(e) => Response::Refused(e),
                None => Response::Quiet,
            },
            None => Response::Quiet,
        },
    }
}

/// Applies a pressed key to the simulation.
pub fn key_pressed(model: &mut Model, key: Key) -> (response: Response)
    requires
        old(model).wf(),
    ensures
        final(model).wf(),
        final(model).win_rect == old(model).win_rect,
        final(model).keybinds == old(model).keybinds.pressed(key),
        flock_pressed(
            key,
            old(model).keybinds.any_is_pressed,
            old(model).win_rect,
            old(model).flock@,
            final(model).flock@,
        ),
        response == response_to(key, old(model).flock@, final(model).flock@),
{
    match key {
        Key::Plus => {
            // Add a new boid
            model.flock.append();
            Response::Title(model.flock.len())
        },
        Key::Minus => {
            model.flock.remove_last();
            Response::Title(model.flock.len())
        },
        Key::R => {
            // Reset the boids
            if !model.keybinds.any_is_pressed {
                let size: usize = model.flock.len();
                model.flock.reset(model.win_rect, size);
                model.keybinds.any_is_pressed = true;
            }
            Response::Quiet
        },
        Key::T => {
            // Soft reset
            if !model.keybinds.any_is_pressed {
                model.flock.scatter(model.win_rect);
                model.keybinds.any_is_pressed = true;
            }
            Response::Quiet
        },
        Key::S => {
            model.keybinds.highlight_all = true;
            Response::Quiet
        },
        Key::D => {
            if !model.keybinds.any_is_pressed {
                model.keybinds.highlight_all = !model.keybinds.highlight_all;
                model.keybinds.any_is_pressed = true;
            }
            Response::Quiet
        },
        Key::Z => {
            model.keybinds.highlight_first = true;
            Response::Quiet
        },
        Key::X => {
            if !model.keybinds.any_is_pressed {
                model.keybinds.highlight_first = !model.keybinds.highlight_first;
                model.keybinds.any_is_pressed = true;
            }
            Response::Quiet
        },
        Key::H => {
            model.keybinds.show_help_menu = true;
            Response::Quiet
        },
        Key::J => {
            if !model.keybinds.any_is_pressed {
                model.keybinds.show_help_menu = !model.keybinds.show_help_menu;
                model.keybinds.any_is_pressed = true;
            }
            Response::Quiet
        },
        Key::C => {
            model.keybinds.show_current_values = true;
            Response::Quiet
        },
        Key::V => {
            if !model.keybinds.any_is_pressed {
                model.keybinds.show_current_values = !model.keybinds.show_current_values;
                model.keybinds.any_is_pressed = true;
            }
            Response::Quiet
        },
        // The keys for modifying the boids
        _ => match key.tuning() {
            Some((which, multiplier)) => match model.flock.scale(which, multiplier) {
                Ok(()) => Response::Quiet,
                Err(e) => Response::Refused(e),
            },
            None => Response::Quiet,
        },
    }
}

/// Applies a released key to the simulation.
pub fn key_released(model: &mut Model, key: Key)
    ensures
        final(model).keybinds == old(model).keybinds.released(key),
        final(model).win_rect == old(model).win_rect,
        final(model).flock == old(model).flock,
{
    match key {
        Key::S => {
            model.keybinds.highlight_all = false;
        },
        Key::Z => {
            model.keybinds.highlight_first = false;
        },
        Key::H => {
            model.keybinds.show_help_menu = false;
        },
        Key::C => {
            model.keybinds.show_current_values = false;
        },
        _ => {
            model.keybinds.any_is_pressed = false;
        },
    }
}

} // verus!
