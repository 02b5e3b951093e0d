//! A small catalog of dishes and of the meals composed from them.
//!
//! The [`repository`] module holds the store itself: identifier allocation,
//! the dual index of each entity kind, and the facade that callers use.
//! The [`api`] module holds what a transport layer decides around the
//! store: how a request is read and which response it is owed.

pub mod api;
pub mod repository;
