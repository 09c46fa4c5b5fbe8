//! What the operations of the library are for.
//!
//! Each law speaks of what an operation gives, whatever it gives, in terms of what it is given:
//! of texts by the characters in them, of JSON by its members, and of two operations by how their
//! results relate.
pub mod framing;
pub mod messages;
pub mod outputs;
pub mod services;
pub mod texts;
