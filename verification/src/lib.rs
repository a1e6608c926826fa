//! Authorization and repository-access core of a quest-tracking service.
//!
//! Two principal kinds act on the system: guild commanders, who create and
//! administer quests, and adventurers, who view them. The library holds the
//! parts worth reasoning about precisely: password hashing and verification,
//! issuing and validating role-scoped access and refresh tokens, the
//! repository state with its uniqueness and referential invariants, and the
//! use-case layer that combines them and enforces ownership rules.
//!
//! Everything time- or environment-dependent (the clock, salts, signing
//! secrets, the transport) is passed in as plain values by the surrounding
//! program, so every function here is deterministic and fully specified.

pub mod credential;
pub mod errors;
pub mod laws;
pub mod principal;
pub mod quest;
pub mod store;
pub mod token;
pub mod usecase;
