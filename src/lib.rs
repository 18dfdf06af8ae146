//! Signed client model for the FixedFloat exchange API: request framing,
//! response decoding and the order lifecycle, with their contracts.
pub mod json;
pub mod members;
pub mod wire;
pub mod signer;
pub mod reply;
pub mod round_trip;
pub mod client;
pub mod lifecycle;
pub mod models;
pub mod supported_currencies;
pub mod model;
pub mod absent;
pub mod web;
