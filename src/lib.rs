//! Client library for the Zainpay payment gateway: request construction,
//! query filters and the normalised response envelope.

pub mod environment;
pub mod text;
pub mod filter;
pub mod json;
pub mod response;
pub mod model;
pub mod engine;
pub mod zainbox;
pub mod bank;
pub mod card;
pub mod settlement;
pub mod virtual_account;
