//! A single owned counter record: deterministic address derivation,
//! one-time creation, and owner-authenticated increment / decrement.

pub mod key;
pub mod derivation;
pub mod counter;
pub mod laws;
