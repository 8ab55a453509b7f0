//! Core rules of a small desktop service that keeps one API key in the
//! operating system's credential store and relays HTTP requests with that key
//! attached.
//!
//! Neither the credential store nor the network is touched from here. Each
//! operation is cut at the points where the outside world answers: the caller
//! performs the outside work and hands the answer back, and the functions of
//! this crate decide what the answer means.
//!
//! * [`secret`] turns what the credential store reported into the result of
//!   setting, reading or deleting the key.
//! * [`relay`] builds the single outbound request of a relay call and shapes
//!   the final response or error.
//! * [`method`] recognises HTTP method tokens.
//! * [`error`] holds the closed set of failure kinds.

pub mod error;
pub mod method;
pub mod relay;
pub mod secret;

