//! Rules of the "Backwards is Forwards" challenge for The Wind Waker.
//!
//! Every frame the challenge looks at a small snapshot of the game (where Link
//! came from, where he is going, a few flags and counters) and decides what to
//! change: warps, inventory slots, magic, hearts, the banner shown on screen.
//! The functions here make those decisions and return them as an ordered list
//! of [`Effect`]s; the game-side shell reads the snapshot and applies the
//! effects.

pub mod model;
pub mod inventory;
pub mod windfall;
pub mod controls;
pub mod challenge;
