//! A key registry: an authority-controlled map from string keys to owning
//! identities.
//!
//! The registry is a single record holding an immutable `authority` identity
//! and an ordered list of key/owner bindings. Anyone may register a fresh
//! key; only the authority may transfer a key's ownership afterwards. The
//! registry itself is a pure in-memory value: a hosting environment is
//! expected to persist it and to serialize the operations applied to it.

pub mod laws;
pub mod registry;
