//! A symmetric, one-time-use handshake channel.
//!
//! A channel has two endpoints with the same capabilities. Each endpoint may,
//! once, deposit a value, retrieve a value, or combine a value of its own with
//! the one the other endpoint deposited. Whichever endpoint acts first stores;
//! whichever acts second retrieves.
//!
//! The rules of the exchange are the state machine in [`state`]; it is plain
//! data and fully specified, and [`laws`] proves what follows from it.
//! [`handshake`] puts one such state behind the lock of [`shared`], which the
//! two endpoints of a channel hold together.

pub mod handshake;
pub mod laws;
pub mod shared;
pub mod state;

pub use handshake::channel;
pub use handshake::take;
pub use handshake::Handshake;
pub use state::Cancelled;
