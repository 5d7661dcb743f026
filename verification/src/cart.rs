//! The cart: its fixed physical parameters and the bookkeeping of one episode.
//!
//! Lengths are whole pixels. The dynamics coefficients (`mass`, `power`,
//! `gravity` and the two friction terms) are thousandths of their unit, and
//! the initial pendulum angle is in milliradians, so that every parameter is
//! an exact integer. The caller scales by one thousand when it integrates
//! the motion.

use vstd::prelude::*;
use crate::chance::coin_flip;

verus! {

/// Pendulum length of the standard cart, in pixels.
pub const PEND_LENGTH: i32 = 500;

/// Gravity of the standard cart, in thousandths.
pub const GRAVITY: i32 = 10;

/// Mass of the standard cart, in thousandths.
pub const MASS: i32 = 700;

/// Drive force of the standard cart, in thousandths.
pub const POWER: i32 = 12;

/// Track friction of the standard cart, in thousandths.
pub const TRACK_FRICTION: i32 = 10;

/// Pendulum friction of the standard cart, in thousandths.
pub const PEND_FRICTION: i32 = 1;

/// Track length of the standard cart, in pixels.
pub const TRACK_LENGTH: i32 = 1200;

/// Width of the window the standard track is centred in, in pixels.
pub const WINDOW_WIDTH: i32 = 1280;

/// One cart on its track, with the pendulum it carries.
#[derive(Debug, Clone, Copy, PartialEq, Eq, Structural)]
pub struct Cart {
    pub mass: i32,
    pub power: i32,
    pub track_friction: i32,
    pub pend_length: i32,
    pub pend_friction: i32,
    pub gravity: i32,
    pub track_length: i32,
    pub window_width: i32,
    /// Angle of the pendulum when the episode starts, in milliradians from
    /// upright: `1` leans right, `-1` leans left.
    pub start_angle: i32,
    /// Ticks survived so far.
    pub score: u32,
    /// Set once the pendulum has swung to horizontal or beyond.
    pub dead: bool,
}

/// The bookkeeping of one episode as mathematics: where the pendulum
/// started, how many ticks have been survived, and whether it has fallen.
pub struct Episode {
    pub start_angle: int,
    pub score: nat,
    pub dead: bool,
}

impl Episode {
    /// The episode that begins when the coin comes up `heads`.
    pub open spec fn fresh(heads: bool) -> Episode {
        Episode { start_angle: start_angle_for(heads), score: 0, dead: false }
    }

    /// The episode one tick later: the score counts the tick, and the
    /// episode is dead if it was already or if the pendulum has `fallen`.
    pub open spec fn advance(self, fallen: bool) -> Episode {
        Episode { score: self.score + 1, dead: self.dead || fallen, ..self }
    }
}

impl View for Cart {
    type V = Episode;

    open spec fn view(&self) -> Episode {
        Episode {
            start_angle: self.start_angle as int,
            score: self.score as nat,
            dead: self.dead,
        }
    }
}

/// The initial angle, in milliradians, that a coin picks: a perturbation of
/// one milliradian to the right on heads and to the left on tails.
pub open spec fn start_angle_for(heads: bool) -> int {
    if heads {
        1
    } else {
        -1
    }
}

/// Acceleration, in thousandths, that a drive force of `power` contributes
/// in one tick: added while the right control is held, taken away while the
/// left one is. Held together the two cancel.
pub open spec fn drive_of(power: int, right_pressed: bool, left_pressed: bool) -> int {
    (if right_pressed { power } else { 0 }) - (if left_pressed { power } else { 0 })
}

/// Idle controls give no drive: with neither control held, and with both,
/// the drive adds nothing to the cart's acceleration.
pub proof fn lemma_idle_controls_give_no_drive(power: int)
    ensures
        drive_of(power, false, false) == 0,
        drive_of(power, true, true) == 0,
{
}

impl Cart {
    /// The cart at the start of an episode whose coin came up `heads`.
    pub open spec fn started(
        pend_length: i32,
        gravity: i32,
        mass: i32,
        power: i32,
        track_friction: i32,
        pend_friction: i32,
        track_length: i32,
        window_width: i32,
        heads: bool,
    ) -> Cart {
        Cart {
            mass,
            power,
            track_friction,
            pend_length,
            pend_friction,
            gravity,
            track_length,
            window_width,
            start_angle: start_angle_for(heads) as i32,
            score: 0,
            dead: false,
        }
    }

    /// The standard cart at the start of an episode whose coin came up `heads`.
    pub open spec fn standard(heads: bool) -> Cart {
        Cart::started(
            PEND_LENGTH,
            GRAVITY,
            MASS,
            POWER,
            TRACK_FRICTION,
            PEND_FRICTION,
            TRACK_LENGTH,
            WINDOW_WIDTH,
            heads,
        )
    }

    /// The initial perturbation is one milliradian to either side.
    pub open spec fn wf(&self) -> bool {
        self.start_angle == 1 || self.start_angle == -1
    }

    /// Starts an episode with the given parameters and the side the pendulum
    /// leans to decided by `heads`.
    pub fn new_with_coin(
        pend_length: i32,
        gravity: i32,
        mass: i32,
        power: i32,
        track_friction: i32,
        pend_friction: i32,
        track_length: i32,
        window_width: i32,
        heads: bool,
    ) -> (cart: Cart)
        ensures
            cart == Cart::started(
                pend_length,
                gravity,
                mass,
                power,
                track_friction,
                pend_friction,
                track_length,
                window_width,
                heads,
            ),
            cart.wf(),
    {
        let start_angle: i32 = if heads {
            1
        } else {
            -1
        };
        Cart {
            mass,
            power,
            track_friction,
            pend_length,
            pend_friction,
            gravity,
            track_length,
            window_width,
            start_angle,
            score: 0,
            dead: false,
        }
    }

    /// Starts an episode with the given parameters; the side the pendulum
    /// leans to is drawn at random.
    pub fn new(
        pend_length: i32,
        gravity: i32,
        mass: i32,
        power: i32,
        track_friction: i32,
        pend_friction: i32,
        track_length: i32,
        window_width: i32,
    ) -> (cart: Cart)
        ensures
            exists|heads: bool|
                cart == Cart::started(
                    pend_length,
                    gravity,
                    mass,
                    power,
                    track_friction,
                    pend_friction,
                    track_length,
                    window_width,
                    heads,
                ),
            cart.wf(),
    {
        let heads = coin_flip();
        Cart::new_with_coin(
            pend_length,
            gravity,
            mass,
            power,
            track_friction,
            pend_friction,
            track_length,
            window_width,
            heads,
        )
    }

    /// Starts an episode of the standard cart, leaning as `heads` decides.
    pub fn default_with_coin(heads: bool) -> (cart: Cart)
        ensures
            cart == Cart::standard(heads),
            cart@ == Episode::fresh(heads),
            cart.wf(),
    {
        Cart::new_with_coin(
            PEND_LENGTH,
            GRAVITY,
            MASS,
            POWER,
            TRACK_FRICTION,
            PEND_FRICTION,
            TRACK_LENGTH,
            WINDOW_WIDTH,
            heads,
        )
    }

    /// Starts an episode of the standard cart, leaning to a random side.
    pub fn default() -> (cart: Cart)
        ensures
            exists|heads: bool| cart == Cart::standard(heads),
            cart.wf(),
    {
        let heads = coin_flip();
        Cart::default_with_coin(heads)
    }

    /// Acceleration that the drive contributes this tick, in thousandths:
    /// the drive force to the right, to the left, or nothing when the two
    /// controls cancel or neither is held.
    pub fn drive(&self, right_pressed: bool, left_pressed: bool) -> (milli: i64)
        ensures
            milli == drive_of(self.power as int, right_pressed, left_pressed),
    {
        let mut milli: i64 = 0;
        if right_pressed {
            milli = milli + self.power as i64;
        }
        if left_pressed {
            milli = milli - self.power as i64;
        }
        milli
    }

    /// Closes one tick of a living episode: counts it, and marks the cart
    /// dead if the pendulum has `fallen`, that is, if after this tick's
    /// motion its angle is a quarter turn or more from upright.
    ///
    /// A dead cart is never advanced: its score stays what it was when it
    /// died.
    pub fn update(&mut self, fallen: bool)
        requires
            !old(self).dead,
            old(self).score < u32::MAX,
        ensures
            *final(self) == (Cart {
                score: (old(self).score + 1) as u32,
                dead: fallen,
                ..*old(self)
            }),
            final(self)@ == old(self)@.advance(fallen),
    {
        self.score = self.score + 1;
        if fallen {
            self.dead = true;
        }
    }
}

} // verus!
