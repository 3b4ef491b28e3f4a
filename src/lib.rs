//! A two-player word-chain game engine: session state, the message filter
//! that admits submissions, and the validation pipeline that settles each turn.

pub mod rules;
pub mod transcript;
pub mod session;
pub mod laws;
