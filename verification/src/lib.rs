//! Verified core of a client for the Coinbase Advanced Trade API: query strings,
//! request validation, order construction and the decisions of the streaming client.

pub mod config;
pub mod constants;
pub mod errors;
pub mod text;
pub mod order;
pub mod product;
pub mod rest;
pub mod signer;
pub mod task_tracker;
pub mod time;
pub mod traits;
pub mod utils;
pub mod websocket;
pub mod models;
