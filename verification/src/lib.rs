//! Interaction core of a two-player chess board client.
//!
//! The crate holds the parts of the client that decide: a time-driven
//! animation engine in fixed-point arithmetic, a plain-value picture of the
//! rules engine's position, the messages exchanged with a remote peer, and the
//! controller that turns input, ticks and applied moves into state changes.
//! Drawing, windowing, the rules engine itself and the network transport live
//! outside and talk to this crate in plain values.

pub mod animation;
pub mod board;
pub mod peer;
pub mod chess_controller;
