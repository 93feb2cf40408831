pub mod amount;
pub mod error;
pub mod models;
pub mod ledger;
pub mod engine;
pub mod laws;
