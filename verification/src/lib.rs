//! Client-side helpers for an object ledger: coin selection, settlement of
//! signed transactions and interpretation of execution results.

pub mod coin;
pub mod error;
pub mod gas_info;
pub mod ids;
pub mod ledger_model;
pub mod move_call_args;
pub mod package_objects;
pub mod published_objects;
pub mod published_response;
pub mod response;
pub mod selection;
pub mod settlement;
pub mod signed_transaction_api;
pub mod transaction_response;
pub mod views;
