//! A JSON Schema compiler and validator core.
//!
//! A schema fragment (a JSON-like document) is compiled into an immutable
//! tree of validator nodes; instances are then checked against the tree,
//! either for a cheap boolean answer (`is_valid`) or for the full list of
//! violated constraints (`validate`).

pub mod compiler;
pub mod conditional;
pub mod context;
pub mod errors;
pub mod json;
pub mod laws;
pub mod schema;
pub mod validator;
