//! Transaction-authorization core for a programmable payment card.
//!
//! Given a proposed transfer (amount, optional merchant identity, optional
//! merchant-category code) and the per-card record, the engine decides
//! allow/deny and, on approval, updates rolling spend counters. The host
//! supplies the current tick (slot) and timestamp and commits every mutation
//! atomically; nothing here blocks or performs I/O.

pub mod card;
pub mod clock;
pub mod confidential;
pub mod engine;
pub mod errors;
pub mod global;
pub mod lists;
pub mod velocity;

pub use errors::HookError;
