//! Authentication and correlation core of the Plugged.in Agent Protocol.
//!
//! Satellites and Stations exchange signed envelopes. This crate builds,
//! signs, verifies and replay-protects those envelopes, tracks which
//! invocations still await an answer, and gates traffic on the handshake
//! state of each peer link.
//!
//! Every function states what it returns and changes over a mathematical
//! model of its arguments, and Verus proves that it does so. The laws that
//! relate several functions stand beside them as proof functions. Time is
//! handed in by the caller, as a `u64` in one unit throughout, so that every
//! rule that reads a clock is a function of its arguments.
//!
//! - [`identity`]: participants and their canonical byte form
//! - [`sha256`], [`hmac`], [`encoding`]: the hash, the signature scheme and
//!   the byte forms they work on
//! - [`entropy`]: fresh nonces
//! - [`auth`]: making and checking the authentication data of an envelope
//! - [`envelope`]: the envelope and the message families
//! - [`replay`]: the guard against replayed and misdated envelopes
//! - [`correlation`]: the invocations that await an answer
//! - [`session`]: the handshake state machine of a peer link
//! - [`router`]: the composition of all of these at one endpoint

pub mod auth;
pub mod correlation;
pub mod encoding;
pub mod entropy;
pub mod envelope;
pub mod hmac;
pub mod identity;
pub mod replay;
pub mod router;
pub mod session;
pub mod sha256;
