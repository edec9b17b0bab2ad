//! A lending library's catalog, holdings and loan ledger: three kinds of
//! rows, the relations that join them, and the repository operations that
//! keep the relations consistent.

mod clock;
pub mod connection;
pub mod controllers;
pub mod error;
pub mod laws;
pub mod models;
pub mod repositories;
pub mod schema;
pub mod sequences;
pub mod state;
pub mod store;
pub mod traits;
