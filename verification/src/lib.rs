//! The discrete core of a cart-and-pendulum balancing game: episode
//! bookkeeping, the session's reset and high-score policy, on-screen text
//! layout, and the seed topology of a neuro-evolution network.
//!
//! Continuous kinematics are integrated by the caller; this crate decides
//! everything that is countable and proves it.

pub mod cart;
mod chance;
pub mod frame;
pub mod neat;
pub mod session;
pub mod text;
pub mod theorems;
