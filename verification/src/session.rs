//! The session: one live cart, the best score seen since the last restart,
//! and the policy that replaces a cart when it dies or a reset is asked for.
//!
//! The policy is first written as mathematics over [`Session`], then
//! implemented by [`EpisodeController`], whose view is a `Session`.

use vstd::prelude::*;
use crate::cart::{Cart, Episode};
use crate::chance::coin_flip;

verus! {

/// A session as mathematics.
pub struct Session {
    /// The live episode.
    pub episode: Episode,
    /// Best score shown by any tick since the last restart.
    pub high_score: nat,
    /// Whether the next tick must end the live episode.
    pub reset_pending: bool,
}

/// What can happen to a session.
pub enum Event {
    /// One tick of the simulation. `fallen` says whether the pendulum ended
    /// the tick a quarter turn or more from upright; `heads` is the coin that
    /// decides how a new episode leans, should this tick start one.
    Tick { fallen: bool, heads: bool },
    /// The player asks for a full restart.
    ResetRequest,
}

/// The larger of two numbers.
pub open spec fn max_nat(a: nat, b: nat) -> nat {
    if a >= b {
        a
    } else {
        b
    }
}

impl Session {
    /// The session at start-up.
    pub open spec fn start(heads: bool) -> Session {
        Session { episode: Episode::fresh(heads), high_score: 0, reset_pending: false }
    }

    /// One tick. The live episode is advanced and its score counted towards
    /// the high score; if it died, or a reset was pending, it is replaced by
    /// a fresh one.
    pub open spec fn tick(self, fallen: bool, heads: bool) -> Session {
        let advanced = self.episode.advance(fallen);
        Session {
            episode: if self.ends_episode(fallen) {
                Episode::fresh(heads)
            } else {
                advanced
            },
            high_score: max_nat(self.high_score, advanced.score),
            reset_pending: false,
        }
    }

    /// Whether a tick from this session ends the live episode.
    pub open spec fn ends_episode(self, fallen: bool) -> bool {
        self.episode.advance(fallen).dead || self.reset_pending
    }

    /// A full restart: the high score is forgotten and the next tick ends
    /// the live episode.
    pub open spec fn request_reset(self) -> Session {
        Session { high_score: 0, reset_pending: true, ..self }
    }

    /// The session after one event.
    pub open spec fn step(self, event: Event) -> Session {
        match event {
            Event::Tick { fallen, heads } => self.tick(fallen, heads),
            Event::ResetRequest => self.request_reset(),
        }
    }

    /// The session after all of `events`, in order.
    pub open spec fn run(self, events: Seq<Event>) -> Session
        decreases events.len(),
    {
        if events.len() == 0 {
            self
        } else {
            self.run(events.drop_last()).step(events.last())
        }
    }
}

/// Owns the live cart and the session's high score, and applies the reset
/// policy tick by tick.
#[derive(Debug, Clone, Copy, PartialEq, Eq, Structural)]
pub struct EpisodeController {
    pub cart: Cart,
    pub high_score: u32,
    pub reset_pending: bool,
}

impl View for EpisodeController {
    type V = Session;

    open spec fn view(&self) -> Session {
        Session {
            episode: self.cart@,
            high_score: self.high_score as nat,
            reset_pending: self.reset_pending,
        }
    }
}

impl EpisodeController {
    /// Between calls the live cart is alive and leans one milliradian.
    pub open spec fn wf(&self) -> bool {
        self.cart.wf() && !self.cart.dead
    }

    /// A session that opens with the standard cart leaning as `heads` decides.
    pub fn new_with_coin(heads: bool) -> (controller: EpisodeController)
        ensures
            controller.cart == Cart::standard(heads),
            controller.high_score == 0,
            !controller.reset_pending,
            controller@ == Session::start(heads),
            controller.wf(),
    {
        EpisodeController {
            cart: Cart::default_with_coin(heads),
            high_score: 0,
            reset_pending: false,
        }
    }

    /// A session that opens with the standard cart leaning to a random side.
    pub fn new() -> (controller: EpisodeController)
        ensures
            exists|heads: bool|
                controller.cart == Cart::standard(heads) && controller@ == Session::start(heads),
            controller.high_score == 0,
            !controller.reset_pending,
            controller.wf(),
    {
        let heads = coin_flip();
        EpisodeController::new_with_coin(heads)
    }

    /// Asks for a full restart: the high score drops to zero at once, and
    /// the next tick ends the live episode whether or not the pendulum falls.
    pub fn request_reset(&mut self)
        ensures
            *final(self) == (EpisodeController {
                high_score: 0,
                reset_pending: true,
                ..*old(self)
            }),
            final(self)@ == old(self)@.request_reset(),
            old(self).wf() ==> final(self).wf(),
    {
        self.high_score = 0;
        self.reset_pending = true;
    }

    /// One tick, given whether the pendulum has `fallen` in it and the coin
    /// for the episode that starts if this one ends.
    ///
    /// The live cart is advanced and its score counted towards the high
    /// score. If the cart died in this tick, or a reset was pending, it is
    /// replaced by the standard cart leaning as `heads` decides, and the
    /// result is `true`; otherwise the advanced cart stays and the result is
    /// `false`.
    pub fn tick_with_coin(&mut self, fallen: bool, heads: bool) -> (new_episode: bool)
        requires
            old(self).wf(),
            old(self).cart.score < u32::MAX,
        ensures
            final(self).wf(),
            new_episode == (fallen || old(self).reset_pending),
            new_episode == old(self)@.ends_episode(fallen),
            new_episode ==> final(self).cart == Cart::standard(heads),
            !new_episode ==> final(self).cart == (Cart {
                score: (old(self).cart.score + 1) as u32,
                ..old(self).cart
            }),
            final(self).high_score == max_nat(
                old(self).high_score as nat,
                (old(self).cart.score + 1) as nat,
            ),
            !final(self).reset_pending,
            final(self)@ == old(self)@.tick(fallen, heads),
    {
        self.cart.update(fallen);
        if self.cart.score > self.high_score {
            self.high_score = self.cart.score;
        }
        let new_episode = self.cart.dead || self.reset_pending;
        if new_episode {
            self.cart = Cart::default_with_coin(heads);
        }
        self.reset_pending = false;
        new_episode
    }

    /// One tick, given whether the pendulum has `fallen` in it. Should the
    /// tick start a new episode, the side it leans to is drawn at random.
    pub fn tick(&mut self, fallen: bool) -> (new_episode: bool)
        requires
            old(self).wf(),
            old(self).cart.score < u32::MAX,
        ensures
            final(self).wf(),
            new_episode == (fallen || old(self).reset_pending),
            exists|heads: bool|
                {
                    &&& final(self)@ == #[trigger] old(self)@.tick(fallen, heads)
                    &&& new_episode ==> final(self).cart == Cart::standard(heads)
                },
            !new_episode ==> final(self).cart == (Cart {
                score: (old(self).cart.score + 1) as u32,
                ..old(self).cart
            }),
            final(self).high_score == max_nat(
                old(self).high_score as nat,
                (old(self).cart.score + 1) as nat,
            ),
            !final(self).reset_pending,
    {
        let heads = if fallen || self.reset_pending {
            coin_flip()
        } else {
            false
        };
        self.tick_with_coin(fallen, heads)
    }
}

} // verus!
