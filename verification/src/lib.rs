//! A ticket store that many threads share, with the request handlers that
//! sit in front of it.
//!
//! Every ticket is created through one allocate-and-insert operation, which
//! runs under the store's write lock; identifiers are handed out in
//! increasing order, starting at zero and without gaps. Reading a ticket
//! takes the store's read lock only to find the record, and then the
//! record's own lock to copy it.
//!
//! - [`data`]: tickets, drafts and their validated fields.
//! - [`model`]: the state of a store as a mathematical value.
//! - [`store`]: the store itself, its locks, and the reader and writer
//!   views.
//! - [`server`]: the two request handlers and the mapping of failures to
//!   status codes.
//! - [`command`]: the same store served by one owner, command by command.
//! - [`decimal`]: reading an identifier out of a text.
//! - [`arithmetic`]: two small computations on integers.
//! - [`laws`]: what holds of the store as a whole, as proof functions.

pub mod arithmetic;
pub mod command;
pub mod data;
pub mod decimal;
pub mod laws;
pub mod model;
pub mod server;
pub mod store;
