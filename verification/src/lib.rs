//! A human-readable alias registry: short names bound to owner identities,
//! mutated through discrete operations and queried by name or by owner.
//!
//! The engine keeps a primary alias -> record index and a reverse
//! owner -> alias index mutually consistent, validates every mutation before
//! any write, and gates alias creation behind an exact token payment when a
//! token contract is configured at initialization.

pub mod authorize;
pub mod contract;
pub mod laws;
pub mod msg;
pub mod normalize;
pub mod state;
pub mod store;
