//! Room operations: creating a room, and listing or filtering the public
//! room directory.

pub mod create;
pub mod public;
