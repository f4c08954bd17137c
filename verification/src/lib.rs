//! A single-writer, multi-reader application-state container for interactive
//! programs: a central store holding one authoritative state value, mutated
//! only through dispatched actions, with a middleware pipeline before the
//! reducers and a subscriber notification pipeline after each commit.
//!
//! Every dispatch commits at most once, whatever expansion the middleware
//! chained, and its whole behaviour is pinned down by the contracts in
//! `store` over the model in `semantics`; the statements a user would rely
//! on across functions stand as proved laws in `laws`. The `keypress`,
//! `mouse_input` and `tw_input_event` modules decode terminal input, given
//! as plain values, into the typed events a program dispatches as actions.

pub mod counter;
pub mod errors;
pub mod keypress;
pub mod laws;
pub mod middleware;
pub mod mouse_input;
pub mod reducer;
pub mod semantics;
pub mod store;
pub mod subscriber;
pub mod tw_input_event;
