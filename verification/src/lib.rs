//! A library for watching a live sports-simulation feed and picking a "best
//! pitcher" per scoring heuristic out of a point-in-time snapshot of league
//! data.
//!
//! The crate is organised around a few small pieces: a two-slot home/away
//! container ([`pair`]), the snapshot of league collections and its join
//! accessors ([`models`], [`state`], [`lookup`]), the scoring strategies and
//! the engine that ranks candidates under them ([`algorithms`],
//! [`predictor`]), the reconnect policy of the event-stream client
//! ([`client`]), the phase-driven dispatch state machine ([`dispatch`]), and
//! the per-cycle message composition ([`bot`]). Text and fixed-point
//! rendering primitives live in [`text`] and [`fixed`]; the point-in-time
//! replay of archived records in [`history`].

pub mod algorithms;
pub mod bot;
pub mod client;
pub mod dispatch;
pub mod fixed;
pub mod history;
pub mod lookup;
pub mod models;
pub mod pair;
pub mod predictor;
pub mod state;
pub mod text;
