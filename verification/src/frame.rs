//! What the player can ask for between two ticks, and what the session
//! makes of it: closing the window or pressing Escape quits, pressing R
//! asks for a full restart, and everything else passes by.

use vstd::prelude::*;
use crate::session::EpisodeController;

verus! {

/// A key, as far as the game tells keys apart.
#[derive(Debug, Clone, Copy, PartialEq, Eq, Structural)]
pub enum Key {
    Escape,
    R,
    Other,
}

/// Something that happened at the window since the last frame.
#[derive(Debug, Clone, Copy, PartialEq, Eq, Structural)]
pub enum Input {
    WindowClosed,
    KeyDown(Key),
    Other,
}

impl Input {
    /// Whether this input ends the game.
    pub open spec fn asks_quit(self) -> bool {
        self == Input::WindowClosed || self == Input::KeyDown(Key::Escape)
    }

    /// Whether this input asks for a full restart.
    pub open spec fn asks_reset(self) -> bool {
        self == Input::KeyDown(Key::R)
    }
}

/// Whether the game is told to end.
pub open spec fn quit_heard(inputs: Seq<Input>) -> bool {
    exists|i: int| 0 <= i < inputs.len() && (#[trigger] inputs[i]).asks_quit()
}

/// Whether a restart is asked for before the game is told to end.
pub open spec fn reset_heard(inputs: Seq<Input>) -> bool {
    exists|i: int|
        0 <= i < inputs.len() && (#[trigger] inputs[i]).asks_reset() && forall|j: int|
            0 <= j < i ==> !(#[trigger] inputs[j]).asks_quit()
}

impl EpisodeController {
    /// Takes in the inputs of one frame, in order, up to the first that ends
    /// the game. The result says whether one did. A restart asked for before
    /// that point is passed on as by `request_reset`; nothing else changes.
    pub fn heed(&mut self, inputs: &Vec<Input>) -> (quit: bool)
        ensures
            quit == quit_heard(inputs@),
            *final(self) == (if reset_heard(inputs@) {
                EpisodeController { high_score: 0, reset_pending: true, ..*old(self) }
            } else {
                *old(self)
            }),
            final(self)@ == (if reset_heard(inputs@) {
                old(self)@.request_reset()
            } else {
                old(self)@
            }),
            old(self).wf() ==> final(self).wf(),
    {
        let mut i: usize = 0;
        let ghost mut heard = false;
        while i < inputs.len()
            invariant
                i <= inputs.len(),
                forall|j: int| 0 <= j < i ==> !(#[trigger] inputs@[j]).asks_quit(),
                heard == (exists|j: int| 0 <= j < i && (#[trigger] inputs@[j]).asks_reset()),
                *self == (if heard {
                    EpisodeController { high_score: 0, reset_pending: true, ..*old(self) }
                } else {
                    *old(self)
                }),
            decreases inputs.len() - i,
        {
            match inputs[i] {
                Input::WindowClosed | Input::KeyDown(Key::Escape) => {
                    return true;
                },
                Input::KeyDown(Key::R) => {
                    self.request_reset();
                    proof {
                        heard = true;
                    }
                },
                _ => {},
            }
            i = i + 1;
        }
        false
    }
}

} // verus!
