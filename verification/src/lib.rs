pub mod common;
pub mod decimal;
pub mod enums;
pub mod error;
pub mod fields;
pub mod instrument;
pub mod json;
pub mod orderbook;
pub mod position;
pub mod prelude;
pub mod query;
pub mod record;
pub mod rest;
pub mod signer;
pub mod store;
pub mod text;
pub mod websocket;
