pub mod admin;
pub mod campaign;
pub mod contract;
pub mod errors;
pub mod events;
pub mod laws;
pub mod ledger;
pub mod pool;
pub mod types;
