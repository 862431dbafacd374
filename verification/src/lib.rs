pub mod account;
pub mod deriver;
pub mod engine;
pub mod error;
pub mod history;
pub mod identity;
