//! An in-memory todo store.
//!
//! The store is a plain `Vec<Todo>` owned by the caller, normally kept behind
//! whatever mutual-exclusion primitive the surrounding server uses. The four
//! handler operations in [`handlers`] — list with pagination, create, update
//! and delete — each take the collection for the duration of one call, so a
//! caller that holds the lock across the call gets the linearizable behaviour
//! the contracts describe.

pub mod handlers;
pub mod models;
