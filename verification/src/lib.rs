//! Core of a Cashu ecash wallet front-end: the seed store's decision logic,
//! the view state machine that drives every screen transition, the pure
//! renderer, amount-field parsing, and the poll-until-paid protocol used
//! while waiting for a mint quote to be settled.
//!
//! All I/O (files, network, clipboard, the widget toolkit) lives outside this
//! crate; the functions here turn plain values into plain values and are
//! verified to do exactly what their contracts say.

pub mod amount;
pub mod minting;
pub mod render;
pub mod seed;
pub mod state;
