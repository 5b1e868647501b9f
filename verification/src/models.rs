//! The data exchanged with the API and the parameters of its endpoints.

pub mod account;
pub mod convert;
pub mod data;
pub mod fee;
pub mod order;
pub mod payment;
pub mod portfolio;
pub mod product;
pub mod util;
pub mod websocket;
