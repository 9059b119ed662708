//! Account and balance-transfer core: a transactional ledger engine with a
//! read-through cache in front of its stores.
//!
//! The tables and what a transfer does to them are in [`storage::tables`]
//! and [`storage::transfer`]; the store that holds them and executes
//! transfers is [`storage::Storage`]; [`storage::caching`] puts a cache in
//! front of a store; [`storage::laws`] states what holds of every run of
//! transfers. [`routes`] has what the service answers to each request.

pub mod configs;
pub mod consts;
pub mod error;
pub mod logger;
pub mod routes;
pub mod storage;
pub mod types;
pub mod utils;
