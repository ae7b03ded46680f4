//! The storage backend and the data it stores.

pub mod engine;
pub mod ident;
pub mod ledger;
pub mod model;
pub mod row;
pub mod sqlite;
pub mod statements;
