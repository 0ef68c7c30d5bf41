//! The request logic of a small record-keeping service.
//!
//! The service keeps entry types and entries, each under a 128-bit
//! identifier that the storage assigns, and offers five endpoints for each:
//! create, get, update, delete and list. An endpoint never touches the
//! storage itself. It answers a request with a [`handler::Step`]: either a
//! [`exchange::Statement`] that the caller is to run against the storage, or
//! the final result. The caller reports what the storage said with
//! [`handler::resume`] and gets the next step.
//!
//! - [`record`]: the tables and their rows.
//! - [`ident`]: identifiers as text.
//! - [`exchange`]: statements and their outcomes.
//! - [`handler`]: the endpoints.
//! - [`router`]: the routes that lead to them.
//! - [`storage`]: what the endpoints expect of the storage.
//! - [`memory`]: a storage in memory that meets the expectation.
//! - [`laws`]: what follows for whole requests.

pub mod exchange;
pub mod handler;
pub mod ident;
pub mod laws;
pub mod memory;
pub mod record;
pub mod router;
pub mod storage;
