//! A small in-memory key-value store: one string-to-string mapping behind a
//! reader-writer lock, with `set` and `get`.
//!
//! [`db::Stash`] is the store that threads share. Each of its operations
//! takes the lock and then works on a [`table::Table`], the mapping as a
//! single thread sees it. What `set` and `get` mean is defined once, on maps
//! of character sequences, in [`model`]; [`laws`] holds what follows from it.

pub mod db;
pub mod error;
pub mod laws;
pub mod lock;
pub mod model;
pub mod table;

pub use crate::db::Stash;
pub use crate::error::{StashError, StashResult};
pub use crate::table::Table;
