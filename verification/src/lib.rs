//! Client-side decoding for a remote error-tracking service's HTTP API.
//!
//! The heart of the crate is the response-normalization layer: a generic
//! envelope decoder that checks the service-level success flag of every
//! response body, and per-endpoint logic that reconciles the several JSON
//! shapes the service may answer with (a full resource or a redirect stub,
//! a bare list or a wrapped list) into single canonical domain types.
//! Transport is left to the caller: each operation takes the outcome of an
//! HTTP exchange as a plain value and is specified exactly in terms of it.

mod client;
mod envelope;
mod instance;
mod item;
mod json;

pub use client::RollbarClient;
pub use envelope::ApiError;
pub use envelope::EnvelopeVerdict;
pub use envelope::FetchOutcome;
pub use envelope::Op;
pub use envelope::decode_envelope;
pub use envelope::decode_response;
pub use instance::ItemInstance;
pub use instance::instance_from_payload;
pub use instance::is_instance_payload;
pub use instance::latest_instance_from_payload;
pub use item::Item;
pub use item::ItemCounter;
pub use item::ItemId;
pub use item::item_from_payload;
pub use item::item_id_from_payload;
pub use json::JsonValue;
